//! The content sources: for each site, how its search URL is built, how
//! scraped listing entries are filtered and assembled into comics and
//! chapters, and which scraped fields its metadata is read from. The
//! fetching and the HTML queries themselves happen outside; what arrives
//! here are plain strings, and everything from there on is verified.
//! Entries the scraper could not read fully (no name, no link) are
//! skipped, never trusted.

use vstd::prelude::*;
use crate::comic::{chapters_view, comics_view, strings_view, Chapter, ChapterView, Comic, ComicInfo, ComicInfoView, ComicType, ComicView};
use crate::text::{contains_text, has_substring, lower_of, lowercase, plus_for_spaces, query_component};

verus! {

use vstd::string::StringExecFns;

/// One link-like element a scraper found: its title and target, either of
/// which the markup may have lacked.
#[derive(Debug)]
pub struct ScrapedLink {
    pub title: Option<String>,
    pub href: Option<String>,
}

/// What the contracts see of a scraped link.
pub struct ScrapedLinkView {
    pub title: Option<Seq<char>>,
    pub href: Option<Seq<char>>,
}

impl View for ScrapedLink {
    type V = ScrapedLinkView;

    open spec fn view(&self) -> ScrapedLinkView {
        ScrapedLinkView {
            title: match self.title {
                Some(t) => Some(t@),
                None => None,
            },
            href: match self.href {
                Some(h) => Some(h@),
                None => None,
            },
        }
    }
}

/// A scraped link list as the contracts see it.
pub open spec fn links_view(ls: Seq<ScrapedLink>) -> Seq<ScrapedLinkView> {
    ls.map_values(|l: ScrapedLink| l@)
}

/// One entry of a search listing: the text the entry displays, and the
/// name and link found inside it, if the markup held them.
#[derive(Debug)]
pub struct SearchEntry {
    pub display: String,
    pub name: Option<String>,
    pub href: Option<String>,
}

/// What the contracts see of a search entry.
pub struct SearchEntryView {
    pub display: Seq<char>,
    pub name: Option<Seq<char>>,
    pub href: Option<Seq<char>>,
}

impl View for SearchEntry {
    type V = SearchEntryView;

    open spec fn view(&self) -> SearchEntryView {
        SearchEntryView {
            display: self.display@,
            name: match self.name {
                Some(t) => Some(t@),
                None => None,
            },
            href: match self.href {
                Some(h) => Some(h@),
                None => None,
            },
        }
    }
}

/// A search entry list as the contracts see it.
pub open spec fn entries_view(es: Seq<SearchEntry>) -> Seq<SearchEntryView> {
    es.map_values(|e: SearchEntry| e@)
}

/// The chapters a list of scraped links yields: one chapter per fully
/// read link, its source the link target behind the site's base, in
/// order; links missing a part are skipped.
pub open spec fn chapters_from_links(links: Seq<ScrapedLinkView>, base: Seq<char>) -> Seq<
    ChapterView,
>
    decreases links.len(),
{
    if links.len() == 0 {
        Seq::empty()
    } else {
        let rest = chapters_from_links(links.drop_first(), base);
        match (links.first().title, links.first().href) {
            (Some(t), Some(h)) => seq![ChapterView { name: t, source: base + h }] + rest,
            _ => rest,
        }
    }
}

/// The comics a list of scraped links yields, each with no chapters yet.
pub open spec fn comics_from_links(links: Seq<ScrapedLinkView>, base: Seq<char>) -> Seq<ComicView>
    decreases links.len(),
{
    if links.len() == 0 {
        Seq::empty()
    } else {
        let rest = comics_from_links(links.drop_first(), base);
        match (links.first().title, links.first().href) {
            (Some(t), Some(h)) => seq![
                ComicView {
                    name: t,
                    source: base + h,
                    comic_type: ComicType::Manga,
                    chapters: Seq::empty(),
                },
            ] + rest,
            _ => rest,
        }
    }
}

proof fn lemma_chapters_from_links_step(links: Seq<ScrapedLinkView>, base: Seq<char>, i: int)
    requires
        0 <= i < links.len(),
    ensures
        chapters_from_links(links.skip(i), base) == (match (links[i].title, links[i].href) {
            (Some(t), Some(h)) => seq![ChapterView { name: t, source: base + h }]
                + chapters_from_links(links.skip(i + 1), base),
            _ => chapters_from_links(links.skip(i + 1), base),
        }),
{
    assert(links.skip(i).first() == links[i]);
    assert(links.skip(i).drop_first() =~= links.skip(i + 1));
}

proof fn lemma_comics_from_links_step(links: Seq<ScrapedLinkView>, base: Seq<char>, i: int)
    requires
        0 <= i < links.len(),
    ensures
        comics_from_links(links.skip(i), base) == (match (links[i].title, links[i].href) {
            (Some(t), Some(h)) => seq![
                ComicView {
                    name: t,
                    source: base + h,
                    comic_type: ComicType::Manga,
                    chapters: Seq::empty(),
                },
            ] + comics_from_links(links.skip(i + 1), base),
            _ => comics_from_links(links.skip(i + 1), base),
        }),
{
    assert(links.skip(i).first() == links[i]);
    assert(links.skip(i).drop_first() =~= links.skip(i + 1));
}

/// Assembles chapters out of scraped links, targets prefixed by the base.
fn links_to_chapters(links: &Vec<ScrapedLink>, base: &str) -> (r: Vec<Chapter>)
    ensures
        chapters_view(r@) == chapters_from_links(links_view(links@), base@),
{
    let ghost lv = links_view(links@);
    let mut r: Vec<Chapter> = Vec::new();
    let mut i: usize = 0;
    proof {
        assert(lv.skip(0) =~= lv);
        assert(chapters_view(r@) + chapters_from_links(lv, base@) =~= chapters_from_links(
            lv,
            base@,
        ));
    }
    while i < links.len()
        invariant
            i <= links@.len(),
            lv == links_view(links@),
            chapters_from_links(lv, base@) == chapters_view(r@) + chapters_from_links(
                lv.skip(i as int),
                base@,
            ),
        decreases links@.len() - i,
    {
        proof {
            lemma_chapters_from_links_step(lv, base@, i as int);
            assert(lv[i as int] == links@[i as int]@);
        }
        let ghost r_pre = r@;
        match (&links[i].title, &links[i].href) {
            (Some(t), Some(h)) => {
                let source = base.to_owned().concat(h.as_str());
                let c = Chapter::new(t.as_str(), source.as_str());
                proof {
                    assert(c@ == (ChapterView {
                        name: lv[i as int].title->0,
                        source: base@ + lv[i as int].href->0,
                    }));
                }
                r.push(c);
                proof {
                    assert(chapters_view(r@) =~= chapters_view(r_pre) + seq![c@]);
                    assert(chapters_view(r_pre) + (seq![c@] + chapters_from_links(
                        lv.skip(i as int + 1),
                        base@,
                    )) =~= chapters_view(r@) + chapters_from_links(lv.skip(i as int + 1), base@));
                }
            },
            _ => {},
        }
        i = i + 1;
    }
    proof {
        assert(lv.skip(links@.len() as int) =~= Seq::<ScrapedLinkView>::empty());
        assert(chapters_view(r@) + Seq::<ChapterView>::empty() =~= chapters_view(r@));
    }
    r
}

/// Assembles search-result comics out of scraped links.
fn links_to_comics(links: &Vec<ScrapedLink>, base: &str) -> (r: Vec<Comic>)
    ensures
        comics_view(r@) == comics_from_links(links_view(links@), base@),
{
    let ghost lv = links_view(links@);
    let mut r: Vec<Comic> = Vec::new();
    let mut i: usize = 0;
    proof {
        assert(lv.skip(0) =~= lv);
        assert(comics_view(r@) + comics_from_links(lv, base@) =~= comics_from_links(lv, base@));
    }
    while i < links.len()
        invariant
            i <= links@.len(),
            lv == links_view(links@),
            comics_from_links(lv, base@) == comics_view(r@) + comics_from_links(
                lv.skip(i as int),
                base@,
            ),
        decreases links@.len() - i,
    {
        proof {
            lemma_comics_from_links_step(lv, base@, i as int);
            assert(lv[i as int] == links@[i as int]@);
        }
        let ghost r_pre = r@;
        match (&links[i].title, &links[i].href) {
            (Some(t), Some(h)) => {
                let source = base.to_owned().concat(h.as_str());
                let c = Comic::new(t.as_str(), source.as_str(), ComicType::Manga, Vec::new());
                proof {
                    assert(c@.chapters =~= Seq::<ChapterView>::empty());
                    assert(c@ == (ComicView {
                        name: lv[i as int].title->0,
                        source: base@ + lv[i as int].href->0,
                        comic_type: ComicType::Manga,
                        chapters: Seq::empty(),
                    }));
                }
                r.push(c);
                proof {
                    assert(comics_view(r@) =~= comics_view(r_pre) + seq![c@]);
                    assert(comics_view(r_pre) + (seq![c@] + comics_from_links(
                        lv.skip(i as int + 1),
                        base@,
                    )) =~= comics_view(r@) + comics_from_links(lv.skip(i as int + 1), base@));
                }
            },
            _ => {},
        }
        i = i + 1;
    }
    proof {
        assert(lv.skip(links@.len() as int) =~= Seq::<ScrapedLinkView>::empty());
        assert(comics_view(r@) + Seq::<ComicView>::empty() =~= comics_view(r@));
    }
    r
}

/// Whether a search-listing entry makes it into the results: its display
/// text contains the query, both case-folded, and the scraper found its
/// name and link.
pub open spec fn entry_kept(e: SearchEntryView, query: Seq<char>) -> bool {
    &&& has_substring(lower_of(e.display), lower_of(query))
    &&& e.name is Some
    &&& e.href is Some
}

/// The search results a listing yields for a query: the kept entries, in
/// order, each a comic with no chapters yet.
pub open spec fn kept_comics(entries: Seq<SearchEntryView>, query: Seq<char>, base: Seq<char>) -> Seq<
    ComicView,
>
    decreases entries.len(),
{
    if entries.len() == 0 {
        Seq::empty()
    } else {
        let rest = kept_comics(entries.drop_first(), query, base);
        if entry_kept(entries.first(), query) {
            seq![
                ComicView {
                    name: entries.first().name->0,
                    source: base + entries.first().href->0,
                    comic_type: ComicType::Manga,
                    chapters: Seq::empty(),
                },
            ] + rest
        } else {
            rest
        }
    }
}

proof fn lemma_kept_comics_step(entries: Seq<SearchEntryView>, query: Seq<char>, base: Seq<char>, i: int)
    requires
        0 <= i < entries.len(),
    ensures
        kept_comics(entries.skip(i), query, base) == if entry_kept(entries[i], query) {
            seq![
                ComicView {
                    name: entries[i].name->0,
                    source: base + entries[i].href->0,
                    comic_type: ComicType::Manga,
                    chapters: Seq::empty(),
                },
            ] + kept_comics(entries.skip(i + 1), query, base)
        } else {
            kept_comics(entries.skip(i + 1), query, base)
        },
{
    assert(entries.skip(i).first() == entries[i]);
    assert(entries.skip(i).drop_first() =~= entries.skip(i + 1));
}

/// Filters a search listing by the query and assembles the results.
fn entries_to_comics(entries: &Vec<SearchEntry>, query: &str, base: &str) -> (r: Vec<Comic>)
    ensures
        comics_view(r@) == kept_comics(entries_view(entries@), query@, base@),
{
    let ghost ev = entries_view(entries@);
    let q_low = lowercase(query);
    let mut r: Vec<Comic> = Vec::new();
    let mut i: usize = 0;
    proof {
        assert(ev.skip(0) =~= ev);
        assert(comics_view(r@) + kept_comics(ev, query@, base@) =~= kept_comics(
            ev,
            query@,
            base@,
        ));
    }
    while i < entries.len()
        invariant
            i <= entries@.len(),
            ev == entries_view(entries@),
            q_low@ == lower_of(query@),
            kept_comics(ev, query@, base@) == comics_view(r@) + kept_comics(
                ev.skip(i as int),
                query@,
                base@,
            ),
        decreases entries@.len() - i,
    {
        proof {
            lemma_kept_comics_step(ev, query@, base@, i as int);
            assert(ev[i as int] == entries@[i as int]@);
        }
        let ghost r_pre = r@;
        let d_low = lowercase(entries[i].display.as_str());
        if contains_text(d_low.as_str(), q_low.as_str()) {
            match (&entries[i].name, &entries[i].href) {
                (Some(t), Some(h)) => {
                    let source = base.to_owned().concat(h.as_str());
                    let c = Comic::new(t.as_str(), source.as_str(), ComicType::Manga, Vec::new());
                    proof {
                        assert(entry_kept(ev[i as int], query@));
                        assert(c@.chapters =~= Seq::<ChapterView>::empty());
                        assert(c@ == (ComicView {
                            name: ev[i as int].name->0,
                            source: base@ + ev[i as int].href->0,
                            comic_type: ComicType::Manga,
                            chapters: Seq::empty(),
                        }));
                    }
                    r.push(c);
                    proof {
                        assert(comics_view(r@) =~= comics_view(r_pre) + seq![c@]);
                        assert(comics_view(r_pre) + (seq![c@] + kept_comics(
                            ev.skip(i as int + 1),
                            query@,
                            base@,
                        )) =~= comics_view(r@) + kept_comics(ev.skip(i as int + 1), query@, base@));
                    }
                },
                _ => {
                    proof {
                        assert(!entry_kept(ev[i as int], query@));
                    }
                },
            }
        } else {
            proof {
                assert(!entry_kept(ev[i as int], query@));
            }
        }
        i = i + 1;
    }
    proof {
        assert(ev.skip(entries@.len() as int) =~= Seq::<SearchEntryView>::empty());
        assert(comics_view(r@) + Seq::<ComicView>::empty() =~= comics_view(r@));
    }
    r
}

/// The metadata read from the name-labelled spans of a detail page, as
/// two sites lay it out: the fifth span holds the date, the second the
/// status; a page with fewer spans yields nothing rather than a wrong
/// read. The genre list is not scraped on these sites.
pub open spec fn name_span_info_spec(fields: Seq<Seq<char>>) -> Option<ComicInfoView> {
    if fields.len() < 5 {
        None
    } else {
        Some(ComicInfoView { date: fields[4], status: fields[1], genres: seq!["todo"@] })
    }
}

/// Reads metadata out of the scraped name-labelled span texts.
pub fn name_span_info(fields: &Vec<String>) -> (r: Option<ComicInfo>)
    ensures
        (match r {
            Some(ci) => name_span_info_spec(strings_view(fields@)) == Some(ci@),
            None => name_span_info_spec(strings_view(fields@)) is None,
        }),
{
    if fields.len() < 5 {
        None
    } else {
        let genres = vec!["todo".to_owned()];
        let ci = ComicInfo::new(fields[4].as_str(), fields[1].as_str(), genres);
        proof {
            assert(ci@.genres =~= seq!["todo"@]);
            assert(strings_view(fields@)[4] == fields@[4]@);
            assert(strings_view(fields@)[1] == fields@[1]@);
        }
        Some(ci)
    }
}

/// The metadata read from a detail page's info grid, as the first site
/// lays it out: the seventh cell holds the date, the fifth the status,
/// beside the genre texts found separately. A missing grid, an empty one,
/// or one with too few cells yields nothing rather than a wrong read.
pub open spec fn grid_info_spec(values: Option<Seq<Seq<char>>>, genres: Seq<Seq<char>>) -> Option<
    ComicInfoView,
> {
    match values {
        None => None,
        Some(v) => if v.len() < 7 {
            None
        } else {
            Some(ComicInfoView { date: v[6], status: v[4], genres })
        },
    }
}

/// What the contracts see of optionally scraped texts.
pub open spec fn texts_view(v: Option<Vec<String>>) -> Option<Seq<Seq<char>>> {
    match v {
        Some(t) => Some(strings_view(t@)),
        None => None,
    }
}

/// Reads metadata out of a scraped info grid and genre texts.
pub fn grid_info(values: Option<Vec<String>>, genres: Vec<String>) -> (r: Option<ComicInfo>)
    ensures
        (match r {
            Some(ci) => grid_info_spec(texts_view(values), strings_view(genres@)) == Some(ci@),
            None => grid_info_spec(texts_view(values), strings_view(genres@)) is None,
        }),
{
    match values {
        None => None,
        Some(v) => {
            if v.len() < 7 {
                None
            } else {
                let ci = ComicInfo::new(v[6].as_str(), v[4].as_str(), genres);
                proof {
                    assert(strings_view(v@)[6] == v@[6]@);
                    assert(strings_view(v@)[4] == v@[4]@);
                }
                Some(ci)
            }
        },
    }
}

/// The first content source.
#[derive(Debug)]
pub struct MangapillSource;

impl MangapillSource {
    pub fn new() -> (r: Self)
        ensures
            r == MangapillSource,
    {
        Self {  }
    }

    pub fn base_url(&self) -> (r: &'static str)
        ensures
            r@ == "https://mangapill.com"@,
    {
        "https://mangapill.com"
    }

    pub fn name(&self) -> (r: &'static str)
        ensures
            r@ == "mangapill"@,
    {
        "mangapill"
    }

    /// The URL a search for `query` goes to: the base, the search path,
    /// and the query with spaces written as plus signs.
    pub fn search_url(&self, query: &str) -> (r: String)
        ensures
            r@ == "https://mangapill.com"@ + "/search?q="@ + plus_for_spaces(query@),
    {
        let r = self.base_url().to_owned().concat("/search?q=").concat(
            query_component(query).as_str(),
        );
        proof {
            assert(r@ =~= "https://mangapill.com"@ + "/search?q="@ + plus_for_spaces(query@));
        }
        r
    }

    /// The search results for a query: nothing when the listing grid was
    /// not found at all, else the entries matching the query. An absent
    /// grid yields an empty result list, not an error.
    pub fn search_results(&self, listing: Option<Vec<SearchEntry>>, query: &str) -> (r: Vec<Comic>)
        ensures
            (match listing {
                Some(entries) => comics_view(r@) == kept_comics(
                    entries_view(entries@),
                    query@,
                    "https://mangapill.com"@,
                ),
                None => r@.len() == 0,
            }),
    {
        match listing {
            Some(entries) => entries_to_comics(&entries, query, self.base_url()),
            None => Vec::new(),
        }
    }

    /// The chapters scraped links yield on this site.
    pub fn chapters(&self, links: &Vec<ScrapedLink>) -> (r: Vec<Chapter>)
        ensures
            chapters_view(r@) == chapters_from_links(links_view(links@), "https://mangapill.com"@),
    {
        links_to_chapters(links, self.base_url())
    }

    /// The metadata a scraped info grid yields on this site.
    pub fn info(&self, values: Option<Vec<String>>, genres: Vec<String>) -> (r: Option<ComicInfo>)
        ensures
            (match r {
                Some(ci) => grid_info_spec(texts_view(values), strings_view(genres@)) == Some(ci@),
                None => grid_info_spec(texts_view(values), strings_view(genres@)) is None,
            }),
    {
        grid_info(values, genres)
    }
}

/// The second content source.
#[derive(Debug)]
pub struct MangareaderSource;

impl MangareaderSource {
    pub fn new() -> (r: Self)
        ensures
            r == MangareaderSource,
    {
        Self {  }
    }

    pub fn base_url(&self) -> (r: &'static str)
        ensures
            r@ == "https://mangareader.to"@,
    {
        "https://mangareader.to"
    }

    pub fn name(&self) -> (r: &'static str)
        ensures
            r@ == "mangareader"@,
    {
        "mangareader"
    }

    /// The URL a search goes to: the query is case-folded before spaces
    /// become plus signs.
    pub fn search_url(&self, query: &str) -> (r: String)
        ensures
            r@ == "https://mangareader.to"@ + "/search?keyword="@ + plus_for_spaces(
                lower_of(query@),
            ),
    {
        let folded = lowercase(query);
        let r = self.base_url().to_owned().concat("/search?keyword=").concat(
            query_component(folded.as_str()).as_str(),
        );
        proof {
            assert(r@ =~= "https://mangareader.to"@ + "/search?keyword="@ + plus_for_spaces(
                lower_of(query@),
            ));
        }
        r
    }

    /// The search results scraped links yield: this site's links carry
    /// absolute targets, so nothing is prefixed.
    pub fn search_results(&self, links: &Vec<ScrapedLink>) -> (r: Vec<Comic>)
        ensures
            comics_view(r@) == comics_from_links(links_view(links@), Seq::empty()),
    {
        let r = links_to_comics(links, "");
        proof {
            reveal_strlit("");
            assert(""@ =~= Seq::<char>::empty());
        }
        r
    }

    /// The chapters scraped links yield on this site.
    pub fn chapters(&self, links: &Vec<ScrapedLink>) -> (r: Vec<Chapter>)
        ensures
            chapters_view(r@) == chapters_from_links(links_view(links@), "https://mangareader.to"@),
    {
        links_to_chapters(links, self.base_url())
    }

    /// The metadata scraped span texts yield on this site.
    pub fn info(&self, fields: &Vec<String>) -> (r: Option<ComicInfo>)
        ensures
            (match r {
                Some(ci) => name_span_info_spec(strings_view(fields@)) == Some(ci@),
                None => name_span_info_spec(strings_view(fields@)) is None,
            }),
    {
        name_span_info(fields)
    }
}

/// The third content source.
#[derive(Debug)]
pub struct MangaseeSource;

impl MangaseeSource {
    pub fn new() -> (r: Self)
        ensures
            r == MangaseeSource,
    {
        Self {  }
    }

    pub fn base_url(&self) -> (r: &'static str)
        ensures
            r@ == "https://mangasee123.com"@,
    {
        "https://mangasee123.com"
    }

    pub fn name(&self) -> (r: &'static str)
        ensures
            r@ == "mangareader"@,
    {
        "mangareader"
    }

    /// The URL a search goes to: the query is case-folded before spaces
    /// become plus signs.
    pub fn search_url(&self, query: &str) -> (r: String)
        ensures
            r@ == "https://mangasee123.com"@ + "/search/?name="@ + plus_for_spaces(
                lower_of(query@),
            ),
    {
        let folded = lowercase(query);
        let r = self.base_url().to_owned().concat("/search/?name=").concat(
            query_component(folded.as_str()).as_str(),
        );
        proof {
            assert(r@ =~= "https://mangasee123.com"@ + "/search/?name="@ + plus_for_spaces(
                lower_of(query@),
            ));
        }
        r
    }

    /// The search results scraped links yield: targets are prefixed by
    /// the base.
    pub fn search_results(&self, links: &Vec<ScrapedLink>) -> (r: Vec<Comic>)
        ensures
            comics_view(r@) == comics_from_links(links_view(links@), "https://mangasee123.com"@),
    {
        links_to_comics(links, self.base_url())
    }

    /// The chapters scraped links yield on this site.
    pub fn chapters(&self, links: &Vec<ScrapedLink>) -> (r: Vec<Chapter>)
        ensures
            chapters_view(r@) == chapters_from_links(
                links_view(links@),
                "https://mangasee123.com"@,
            ),
    {
        links_to_chapters(links, self.base_url())
    }

    /// The metadata scraped span texts yield on this site.
    pub fn info(&self, fields: &Vec<String>) -> (r: Option<ComicInfo>)
        ensures
            (match r {
                Some(ci) => name_span_info_spec(strings_view(fields@)) == Some(ci@),
                None => name_span_info_spec(strings_view(fields@)) is None,
            }),
    {
        name_span_info(fields)
    }
}

} // verus!
