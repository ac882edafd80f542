use nika_tui::app::{App, ActionBus, Effect, NikaAction, Page, SourceError};
use nika_tui::comic::{Chapter, Comic, ComicInfo, ComicType};
use nika_tui::comic_page::ComicPage;
use nika_tui::config::Config;
use nika_tui::event_handler::{KeyCode, KeyEvent, NikaEvent, NikaMessage, TermSignal, message_for_signal};
use nika_tui::app::{search_followup, SourceId};
use nika_tui::search_page::SearchPage;

fn press(code: KeyCode) -> KeyEvent {
    KeyEvent { code, is_press: true }
}

fn sample_comic(n_chapters: usize) -> Comic {
    let mut chapters = Vec::new();
    for i in 0..n_chapters {
        chapters.push(Chapter::new(
            &format!("Chapter {}", i + 1),
            &format!("https://example.org/ch/{}", i + 1),
        ));
    }
    Comic::new("One Piece", "https://example.org/op", ComicType::Manga, chapters)
}

#[test]
fn empty_search_yields_results_not_error() {
    let action = search_followup(Ok(Vec::new()));
    match action {
        NikaAction::SetSearchResults(v) => assert!(v.is_empty()),
        _ => panic!("an empty result set must become a result action, not an error"),
    }
}

#[test]
fn failed_search_yields_error() {
    let action = search_followup(Err(SourceError::Network));
    assert!(matches!(action, NikaAction::Error));
}

#[test]
fn pagination_thirty_chapters_page_size_25() {
    let comic = sample_comic(30);
    let config = Config::new(String::new(), 25);
    let mut page = ComicPage::new(comic, SourceId::Mangapill, ComicInfo::new("", "", Vec::new()), config);

    let shown = page.shown_chapters();
    assert_eq!(shown.len(), 25);
    assert_eq!(shown[0].name, "Chapter 1");
    assert_eq!(shown[24].name, "Chapter 25");
    assert_eq!(page.page_number, 1);

    page.update(NikaAction::FetchNewChapters(true));
    assert_eq!(page.page_number, 2);
    let shown = page.shown_chapters();
    assert_eq!(shown.len(), 5);
    assert_eq!(shown[0].name, "Chapter 26");
    assert_eq!(shown[4].name, "Chapter 30");

    page.update(NikaAction::FetchNewChapters(true));
    assert_eq!(page.page_number, 2, "advancing past the last page must be a no-op");

    page.update(NikaAction::FetchNewChapters(false));
    assert_eq!(page.page_number, 1);
    page.update(NikaAction::FetchNewChapters(false));
    assert_eq!(page.page_number, 1, "retreating before page 1 must be a no-op");
}

#[test]
fn pagination_never_escapes_bounds() {
    let comic = sample_comic(101);
    let config = Config::new(String::new(), 25);
    let mut page = ComicPage::new(comic, SourceId::Mangapill, ComicInfo::new("", "", Vec::new()), config);
    // 101 chapters at 25 per page fill 5 pages.
    for _ in 0..12 {
        page.update(NikaAction::FetchNewChapters(true));
        assert!(page.page_number >= 1 && page.page_number <= 5);
    }
    assert_eq!(page.page_number, 5);
    for _ in 0..12 {
        page.update(NikaAction::FetchNewChapters(false));
        assert!(page.page_number >= 1 && page.page_number <= 5);
    }
    assert_eq!(page.page_number, 1);
}

#[test]
fn selection_clamps_at_both_ends() {
    let mut page = SearchPage::default();
    page.update(NikaAction::SetSearchResults(vec![
        Comic::new("a", "sa", ComicType::Manga, Vec::new()),
        Comic::new("b", "sb", ComicType::Manga, Vec::new()),
        Comic::new("c", "sc", ComicType::Manga, Vec::new()),
    ]));
    for _ in 0..7 {
        page.handle_key_events(press(KeyCode::Down));
        assert!(page.selected.unwrap() < 3);
    }
    assert_eq!(page.selected, Some(2));
    for _ in 0..7 {
        page.handle_key_events(press(KeyCode::Up));
    }
    assert_eq!(page.selected, Some(0));
    page.handle_key_events(press(KeyCode::Up));
    assert_eq!(page.selected, Some(0), "moving up from entry 0 must stay at 0");
}

#[test]
fn selection_on_empty_results_is_a_no_op() {
    let mut page = SearchPage::default();
    page.handle_key_events(press(KeyCode::Down));
    assert_eq!(page.selected, None);
    page.handle_key_events(press(KeyCode::Up));
    assert_eq!(page.selected, None);
}

#[test]
fn editing_mode_builds_query_and_reissues_search() {
    let mut page = SearchPage::default();
    page.handle_key_events(press(KeyCode::Char('/')));
    let a1 = page.handle_key_events(press(KeyCode::Char('o')));
    match a1 {
        Some(NikaAction::SearchComic(q)) => assert_eq!(q, "o"),
        _ => panic!("an edit keystroke must re-issue the search"),
    }
    let a2 = page.handle_key_events(press(KeyCode::Char('k')));
    match a2 {
        Some(NikaAction::SearchComic(q)) => assert_eq!(q, "ok"),
        _ => panic!("an edit keystroke must re-issue the search"),
    }
    let a3 = page.handle_key_events(press(KeyCode::Backspace));
    match a3 {
        Some(NikaAction::SearchComic(q)) => assert_eq!(q, "o"),
        _ => panic!("a backspace must re-issue the search"),
    }
    let a4 = page.handle_key_events(press(KeyCode::Enter));
    assert!(a4.is_none());
    assert_eq!(page.selected, Some(0));
    // Back in Normal mode, `q` asks to quit.
    let a5 = page.handle_key_events(press(KeyCode::Char('q')));
    assert!(matches!(a5, Some(NikaAction::Quit)));
}

#[test]
fn actions_are_applied_in_enqueue_order() {
    let mut bus = ActionBus::new();
    for i in 0..5 {
        bus.send(NikaAction::SearchComic(format!("{i}")));
    }
    let batch = bus.drain();
    assert_eq!(batch.len(), 5);
    assert_eq!(bus.len(), 0);

    let mut app = App::new(Config::new(String::new(), 25));
    let out = app.process_batch(vec![NikaAction::ChangePage(Page::Search)]);
    assert!(out.emit.is_empty() && out.effects.is_empty());

    let out = app.process_batch(batch);
    let queries: Vec<String> = out
        .effects
        .into_iter()
        .map(|e| match e {
            Effect::SpawnSearch { query, .. } => query,
            _ => panic!("only search tasks were requested"),
        })
        .collect();
    assert_eq!(queries, vec!["0", "1", "2", "3", "4"]);
}

#[test]
fn quit_action_raises_the_flag_once_applied() {
    let mut app = App::new(Config::new(String::new(), 25));
    assert!(!app.should_quit());
    app.process_batch(vec![NikaAction::Render, NikaAction::Quit]);
    assert!(app.should_quit());
}

#[test]
fn render_tick_becomes_one_render_action() {
    let mut app = App::new(Config::new(String::new(), 25));
    let r = app.handle_event(Some(NikaEvent::Render));
    assert!(matches!(r, Some(NikaAction::Render)));
    let r = app.handle_event(Some(NikaEvent::FocusLost));
    assert!(r.is_none());
    let r = app.handle_event(Some(NikaEvent::Key(press(KeyCode::Char('q')))));
    assert!(matches!(r, Some(NikaAction::Quit)));
}

#[test]
fn event_source_mapping() {
    assert!(matches!(message_for_signal(&TermSignal::Tick), Some(NikaMessage::Render)));
    assert!(matches!(message_for_signal(&TermSignal::InputError), Some(NikaMessage::Error)));
    assert!(message_for_signal(&TermSignal::Closed).is_none());
    let pressed = TermSignal::Input(NikaEvent::Key(press(KeyCode::Char('x'))));
    assert!(matches!(message_for_signal(&pressed), Some(NikaMessage::Key(_))));
    let released = TermSignal::Input(NikaEvent::Key(KeyEvent { code: KeyCode::Char('x'), is_press: false }));
    assert!(message_for_signal(&released).is_none());
    assert!(message_for_signal(&TermSignal::Input(NikaEvent::FocusGained)).is_none());
}
