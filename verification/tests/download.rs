use nika_tui::app::{LoadingKind, NikaAction};
use nika_tui::download::{normalize_sizes, random_token, DownloadPlan};
use nika_tui::loading_screen::LoadingScreen;

#[test]
fn plan_sums_sizes() {
    let plan = DownloadPlan::new("/tmp".to_owned(), "abcd1234".to_owned(), vec![100, 200, 200]);
    assert_eq!(plan.total, 500);
    assert_eq!(plan.asset_count(), 3);
    assert!(plan.should_emit());
}

#[test]
fn empty_or_unknown_sizes_do_not_emit() {
    let plan = DownloadPlan::new("/tmp".to_owned(), "abcd1234".to_owned(), vec![0, 0]);
    assert_eq!(plan.total, 0);
    assert!(!plan.should_emit(), "a zero total must suppress progress, never divide by zero");
}

#[test]
fn sizes_fall_back_to_zero() {
    let sizes = normalize_sizes(vec![Some(5), None, Some(7)]);
    assert_eq!(sizes, vec![5, 0, 7]);
}

#[test]
fn file_names_carry_the_asset_index() {
    let plan = DownloadPlan::new("/tmp".to_owned(), "abcd1234".to_owned(), vec![1, 1, 1]);
    assert_eq!(plan.file_name(0), "page-0.jpeg");
    assert_eq!(plan.file_name(2), "page-2.jpeg");
    assert_eq!(plan.file_name(120), "page-120.jpeg");
}

#[test]
fn paths_stay_inside_the_plan_directory() {
    let plan = DownloadPlan::new("/tmp".to_owned(), "abcd1234".to_owned(), vec![1, 1]);
    assert_eq!(plan.dir_path(), "/tmp/abcd1234");
    assert_eq!(plan.asset_path(0), "/tmp/abcd1234/page-0.jpeg");
    assert_eq!(plan.asset_path(1), "/tmp/abcd1234/page-1.jpeg");
    assert_ne!(plan.asset_path(0), plan.asset_path(1));
}

#[test]
fn distinct_tokens_mean_distinct_paths() {
    let p1 = DownloadPlan::new("/tmp".to_owned(), "aaaa0000".to_owned(), vec![1]);
    let p2 = DownloadPlan::new("/tmp".to_owned(), "bbbb1111".to_owned(), vec![1]);
    assert_ne!(p1.asset_path(0), p2.asset_path(0));
}

#[test]
fn random_tokens_are_short_path_safe_names() {
    for _ in 0..16 {
        let t = random_token();
        assert_eq!(t.chars().count(), 8);
        assert!(t.chars().all(|c| c.is_ascii_alphanumeric()));
    }
}

#[test]
fn fresh_plans_draw_their_token() {
    let plan = DownloadPlan::fresh("/tmp".to_owned(), vec![10, 20]);
    assert_eq!(plan.total, 30);
    assert_eq!(plan.token.chars().count(), 8);
    assert!(plan.token.chars().all(|c| c.is_ascii_alphanumeric()));
    assert!(plan.asset_path(0).starts_with(&plan.dir_path()));
}

#[test]
fn three_assets_progress_reaches_exactly_one() {
    // Assets of 100, 200 and 200 bytes: 500 in all.
    let plan = DownloadPlan::new("/tmp".to_owned(), "abcd1234".to_owned(), vec![100, 200, 200]);
    let mut screen = LoadingScreen::from_kind(LoadingKind::Downloading);
    assert!(screen.show_gauge());
    assert_eq!(screen.ratio_per_mille(), 0);

    // Completing asset 1 in one chunk reports 100 of 500: a delta of 0.2.
    let d1 = plan.delta_for(100);
    assert_eq!(d1.bytes, 100);
    assert_eq!(d1.total, 500);
    assert_eq!(d1.bytes as f64 / d1.total as f64, 0.2);
    screen.update(NikaAction::UpdateLoadingScreen("Downloading manga...".to_owned(), d1));
    assert_eq!(screen.ratio_per_mille(), 200);

    // The other two assets arrive in chunks summing to 0.8.
    screen.update(NikaAction::UpdateLoadingScreen("Downloading manga...".to_owned(), plan.delta_for(150)));
    screen.update(NikaAction::UpdateLoadingScreen("Downloading manga...".to_owned(), plan.delta_for(50)));
    screen.update(NikaAction::UpdateLoadingScreen("Downloading manga...".to_owned(), plan.delta_for(200)));
    assert_eq!(screen.ratio_per_mille(), 1000, "accumulated progress must be exactly one");
    assert_eq!(screen.operation(), "Downloading manga...");
}

#[test]
fn progress_accumulates_in_any_order() {
    let plan = DownloadPlan::new("/tmp".to_owned(), "abcd1234".to_owned(), vec![100, 200, 200]);
    let mut screen = LoadingScreen::from_kind(LoadingKind::Downloading);
    // The same chunks as an interleaving of the three tasks.
    for chunk in [200, 50, 100, 150] {
        screen.update(NikaAction::UpdateLoadingScreen(String::new(), plan.delta_for(chunk)));
    }
    assert_eq!(screen.ratio_per_mille(), 1000);
}

#[test]
fn loading_screen_resets_on_show() {
    let mut screen = LoadingScreen::from_kind(LoadingKind::Downloading);
    let plan = DownloadPlan::new("/tmp".to_owned(), "abcd1234".to_owned(), vec![10]);
    screen.update(NikaAction::UpdateLoadingScreen(String::new(), plan.delta_for(10)));
    assert_eq!(screen.ratio_per_mille(), 1000);
    // Showing a fresh loading screen starts over from zero.
    let fresh = LoadingScreen::from_kind(LoadingKind::Downloading);
    assert_eq!(fresh.ratio_per_mille(), 0);
}
