use nika_tui::app::{comic_load_followup, download_followup, NikaAction, Page, SourceError, SourceId};
use nika_tui::comic::{Chapter, Comic, ComicInfo, ComicType};
use nika_tui::sources::{MangapillSource, MangareaderSource, MangaseeSource, ScrapedLink, SearchEntry};
use nika_tui::text::{contains_text, lowercase, query_component};

fn link(title: &str, href: &str) -> ScrapedLink {
    ScrapedLink { title: Some(title.to_owned()), href: Some(href.to_owned()) }
}

#[test]
fn lowercase_folds_case() {
    assert_eq!(lowercase("One PIECE"), "one piece");
    assert_eq!(lowercase(""), "");
}

#[test]
fn query_component_writes_spaces_as_plus() {
    assert_eq!(query_component("one piece"), "one+piece");
    assert_eq!(query_component("solo"), "solo");
    assert_eq!(query_component(" a b "), "+a+b+");
}

#[test]
fn substring_search() {
    assert!(contains_text("hello world", "lo wo"));
    assert!(contains_text("abc", ""));
    assert!(!contains_text("abc", "abd"));
    assert!(!contains_text("ab", "abc"));
}

#[test]
fn search_urls_per_source() {
    assert_eq!(
        MangapillSource::new().search_url("One Piece"),
        "https://mangapill.com/search?q=One+Piece"
    );
    assert_eq!(
        MangareaderSource::new().search_url("One Piece"),
        "https://mangareader.to/search?keyword=one+piece"
    );
    assert_eq!(
        MangaseeSource::new().search_url("One Piece"),
        "https://mangasee123.com/search/?name=one+piece"
    );
}

#[test]
fn listing_entries_are_filtered_by_query() {
    let source = MangapillSource::new();
    let entries = vec![
        SearchEntry {
            display: "One Piece — ongoing".to_owned(),
            name: Some("One Piece".to_owned()),
            href: Some("/manga/2/one-piece".to_owned()),
        },
        SearchEntry {
            display: "Naruto".to_owned(),
            name: Some("Naruto".to_owned()),
            href: Some("/manga/3/naruto".to_owned()),
        },
        SearchEntry {
            display: "one piece fan book".to_owned(),
            name: None,
            href: Some("/manga/4/fan-book".to_owned()),
        },
    ];
    let results = source.search_results(Some(entries), "ONE piece");
    assert_eq!(results.len(), 1, "case-folded containment decides what is kept");
    assert_eq!(results[0].name, "One Piece");
    assert_eq!(results[0].source, "https://mangapill.com/manga/2/one-piece");
    assert!(results[0].chapters.is_empty());
}

#[test]
fn absent_listing_is_an_empty_result() {
    let results = MangapillSource::new().search_results(None, "anything");
    assert!(results.is_empty());
}

#[test]
fn chapters_skip_incomplete_links() {
    let source = MangapillSource::new();
    let links = vec![
        link("Chapter 1", "/chapters/1"),
        ScrapedLink { title: Some("broken".to_owned()), href: None },
        link("Chapter 2", "/chapters/2"),
    ];
    let chapters = source.chapters(&links);
    assert_eq!(chapters.len(), 2);
    assert_eq!(chapters[0].name, "Chapter 1");
    assert_eq!(chapters[0].source, "https://mangapill.com/chapters/1");
    assert_eq!(chapters[1].source, "https://mangapill.com/chapters/2");
}

#[test]
fn reader_results_keep_absolute_targets() {
    let source = MangareaderSource::new();
    let results = source.search_results(&vec![link("One Piece", "https://mangareader.to/one-piece")]);
    assert_eq!(results.len(), 1);
    assert_eq!(results[0].source, "https://mangareader.to/one-piece");
}

#[test]
fn mangasee_results_prefix_the_base() {
    let source = MangaseeSource::new();
    let results = source.search_results(&vec![link("One Piece", "/manga/One-Piece")]);
    assert_eq!(results.len(), 1);
    assert_eq!(results[0].source, "https://mangasee123.com/manga/One-Piece");
}

#[test]
fn grid_info_reads_fixed_cells() {
    let source = MangapillSource::new();
    let values: Vec<String> =
        ["a", "b", "c", "d", "finished", "e", "1997"].iter().map(|s| s.to_string()).collect();
    let info = source.info(Some(values), vec!["adventure".to_owned()]).unwrap();
    assert_eq!(info.date, "1997");
    assert_eq!(info.status, "finished");
    assert_eq!(info.genres, vec!["adventure"]);

    assert!(source.info(None, Vec::new()).is_none());
    let short: Vec<String> = ["a", "b"].iter().map(|s| s.to_string()).collect();
    assert!(source.info(Some(short), Vec::new()).is_none());
}

#[test]
fn name_span_info_reads_fixed_spans() {
    let fields: Vec<String> =
        ["x", "Finished", "y", "z", "1997"].iter().map(|s| s.to_string()).collect();
    let info = MangareaderSource::new().info(&fields).unwrap();
    assert_eq!(info.date, "1997");
    assert_eq!(info.status, "Finished");
    let short: Vec<String> = ["a", "b", "c", "d"].iter().map(|s| s.to_string()).collect();
    assert!(MangaseeSource::new().info(&short).is_none());
}

#[test]
fn comic_load_followup_fills_the_comic() {
    let comic = Comic::new("One Piece", "https://example.org/op", ComicType::Manga, Vec::new());
    let chapters = vec![Chapter::new("Chapter 1", "https://example.org/ch/1")];
    let info = ComicInfo::new("1997", "ongoing", Vec::new());
    let action = comic_load_followup(comic, SourceId::Mangapill, Ok(chapters), Ok(Some(info)));
    match action {
        NikaAction::ChangePage(Page::Comic(c, s, i)) => {
            assert_eq!(c.name, "One Piece");
            assert_eq!(c.chapters.len(), 1);
            assert_eq!(c.chapters[0].name, "Chapter 1");
            assert!(matches!(s, SourceId::Mangapill));
            assert_eq!(i.date, "1997");
        },
        _ => panic!("a successful load must open the comic page"),
    }
}

#[test]
fn comic_load_followup_surfaces_failures() {
    let comic = Comic::new("x", "y", ComicType::Manga, Vec::new());
    let action = comic_load_followup(
        comic,
        SourceId::Mangapill,
        Err(SourceError::Network),
        Ok(Some(ComicInfo::new("", "", Vec::new()))),
    );
    assert!(matches!(action, NikaAction::Error));
    let comic = Comic::new("x", "y", ComicType::Manga, Vec::new());
    let action =
        comic_load_followup(comic, SourceId::Mangapill, Ok(Vec::new()), Ok(None));
    assert!(matches!(action, NikaAction::Error));
}

#[test]
fn download_followup_lifts_or_errors() {
    let (action, open) = download_followup(Ok("/tmp/abc".to_owned()));
    assert!(matches!(action, NikaAction::LiftLoadingScreen));
    assert_eq!(open.as_deref(), Some("/tmp/abc"));
    let (action, open) = download_followup(Err(SourceError::Network));
    assert!(matches!(action, NikaAction::Error));
    assert!(open.is_none());
}

#[test]
fn source_names_and_bases() {
    assert_eq!(MangapillSource::new().name(), "mangapill");
    assert_eq!(MangapillSource::new().base_url(), "https://mangapill.com");
    assert_eq!(MangareaderSource::new().base_url(), "https://mangareader.to");
    assert_eq!(MangaseeSource::new().base_url(), "https://mangasee123.com");
}
