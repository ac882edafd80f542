//! The comic page: metadata beside a paged chapter list. Paging moves one
//! page at a time within bounds; the visible slice is recomputed from the
//! page number, and a page that would show nothing is never entered.

use vstd::prelude::*;
use crate::app::{effects_view, ApplyOutcome, Effect, EffectView, LoadingKind, NikaAction, Page, SourceId};
use crate::comic::{chapters_view, Chapter, ChapterView, Comic, ComicInfo, ComicInfoView, ComicView};
use crate::config::{config_wf, Config};
use crate::event_handler::{KeyCode, KeyEvent};
use crate::helpers::{get_new_selection_index, moved_selection, ListDirection};

verus! {

/// What the contracts see of the comic page.
pub struct ComicPageView {
    pub comic: ComicView,
    pub info: ComicInfoView,
    pub selected: Option<usize>,
    pub page_number: int,
    pub page_size: int,
    pub source: SourceId,
}

#[derive(Debug)]
pub struct ComicPage {
    pub comic: Comic,
    pub info: ComicInfo,
    pub selected: Option<usize>,
    pub page_number: usize,
    pub source: SourceId,
    pub config: Config,
}

impl View for ComicPage {
    type V = ComicPageView;

    open spec fn view(&self) -> ComicPageView {
        ComicPageView {
            comic: self.comic@,
            info: self.info@,
            selected: self.selected,
            page_number: self.page_number as int,
            page_size: self.config.spec_page_size(),
            source: self.source,
        }
    }
}

/// How many pages a list of `chapters` entries fills at `size` per page:
/// the division rounded up.
pub open spec fn total_pages(chapters: int, size: int) -> int
    recommends
        size >= 1,
{
    (chapters + size - 1) / size
}

/// A comic page is well formed when its page size is positive and its page
/// number lies between 1 and the page count (or 1, when there are no
/// chapters at all).
pub open spec fn comic_wf(v: ComicPageView) -> bool {
    &&& v.page_size >= 1
    &&& 1 <= v.page_number
    &&& v.page_number <= vstd::math::max(1, total_pages(v.comic.chapters.len() as int, v.page_size))
}

/// Where the visible slice starts.
pub open spec fn shown_start(v: ComicPageView) -> int {
    (v.page_number - 1) * v.page_size
}

/// The chapters the current page shows: one page-size slice of the list.
pub open spec fn shown_of(v: ComicPageView) -> Seq<ChapterView> {
    let len = v.comic.chapters.len() as int;
    let start = shown_start(v);
    if start >= len {
        Seq::empty()
    } else if start + v.page_size <= len {
        v.comic.chapters.subrange(start, start + v.page_size)
    } else {
        v.comic.chapters.subrange(start, len)
    }
}

/// The page after one navigation step: forward or back by one, clamped at
/// the last and the first page; a step onto a page that would show nothing
/// changes nothing, the cursor resets to the top on a real move.
pub open spec fn paginate(v: ComicPageView, forward: bool) -> ComicPageView {
    let tp = total_pages(v.comic.chapters.len() as int, v.page_size);
    let cand = if forward {
        if v.page_number == tp {
            v.page_number
        } else {
            v.page_number + 1
        }
    } else {
        if v.page_number == 1 {
            v.page_number
        } else {
            v.page_number - 1
        }
    };
    let v2 = ComicPageView { page_number: cand, selected: Some(0usize), ..v };
    if shown_of(v2).len() == 0 {
        v
    } else {
        v2
    }
}

/// The comic page's state after one key: only cursor moves change it.
pub open spec fn comic_key_state(v: ComicPageView, k: KeyEvent) -> ComicPageView {
    if k.code == KeyCode::Up {
        ComicPageView {
            selected: moved_selection(v.selected, shown_of(v).len() as int, ListDirection::BottomToTop),
            ..v
        }
    } else if k.code == KeyCode::Down {
        ComicPageView {
            selected: moved_selection(v.selected, shown_of(v).len() as int, ListDirection::TopToBottom),
            ..v
        }
    } else {
        v
    }
}

/// What the comic page answers to a key: quit, page changes, paging
/// requests, and the download of the chapter under the cursor.
pub open spec fn comic_key_action_ok(v: ComicPageView, k: KeyEvent, r: Option<NikaAction>) -> bool {
    if k.code == KeyCode::Char('q') {
        r == Some(NikaAction::Quit)
    } else if k.code == KeyCode::Char('s') || k.code == KeyCode::Esc {
        r == Some(NikaAction::ChangePage(Page::Search))
    } else if k.code == KeyCode::Char('h') {
        r == Some(NikaAction::ChangePage(Page::Home))
    } else if k.code == KeyCode::Right {
        r == Some(NikaAction::FetchNewChapters(true))
    } else if k.code == KeyCode::Left {
        r == Some(NikaAction::FetchNewChapters(false))
    } else if k.code == KeyCode::Enter {
        match v.selected {
            Some(i) => if i < shown_of(v).len() {
                r matches Some(NikaAction::FetchChapter(c)) && c@ == shown_of(v)[i as int]
            } else {
                r is None
            },
            None => r is None,
        }
    } else {
        r is None
    }
}

/// The comic page's state after one action: paging moves within bounds; a
/// fresh chapter list replaces the old one, the page number clamped back
/// into range; a download request only spawns work.
pub open spec fn comic_apply(v: ComicPageView, a: NikaAction) -> ComicPageView {
    match a {
        NikaAction::FetchNewChapters(forward) => paginate(v, forward),
        NikaAction::SetChapters(ch) => {
            let chapters = chapters_view(ch@);
            let bound = vstd::math::max(1, total_pages(chapters.len() as int, v.page_size));
            ComicPageView {
                comic: ComicView { chapters, ..v.comic },
                page_number: vstd::math::min(v.page_number, bound),
                ..v
            }
        },
        _ => v,
    }
}

/// What the comic page spawns for one action: a download task for the
/// requested chapter.
pub open spec fn comic_effects(v: ComicPageView, a: NikaAction) -> Seq<EffectView> {
    match a {
        NikaAction::FetchChapter(c) => seq![
            EffectView::SpawnDownload { chapter: c@, source: v.source },
        ],
        _ => Seq::empty(),
    }
}

/// What the comic page sends back through the bus: a download request
/// shows the loading screen with a gauge.
pub open spec fn comic_emit(v: ComicPageView, a: NikaAction) -> Seq<NikaAction> {
    match a {
        NikaAction::FetchChapter(_) => seq![
            NikaAction::ShowLoadingScreen(LoadingKind::Downloading),
        ],
        _ => Seq::empty(),
    }
}

/// The ceiling division written without overflow: quotient plus one when
/// there is a remainder.
proof fn lemma_ceil_div(len: int, size: int)
    requires
        len >= 0,
        size >= 1,
    ensures
        total_pages(len, size) == len / size + if len % size == 0 {
            0int
        } else {
            1int
        },
        len > 0 ==> total_pages(len, size) == (len - 1) / size + 1,
        total_pages(len, size) >= 0,
        len > 0 ==> total_pages(len, size) >= 1,
        total_pages(len, size) <= len,
{
    if len > 0 {
        vstd::arithmetic::div_mod::lemma_div_nonincreasing(len - 1, size);
    }
    vstd::arithmetic::div_mod::lemma_fundamental_div_mod(len, size);
    let q = len / size;
    let r = len % size;
    assert(0 <= r < size) by {
        vstd::arithmetic::div_mod::lemma_mod_division_less_than_divisor(len, size);
    }
    assert(len == q * size + r);
    assert(q >= 0) by {
        vstd::arithmetic::div_mod::lemma_div_pos_is_pos(len, size);
    }
    if r == 0 {
        assert(len + size - 1 == size * q + (size - 1)) by (nonlinear_arith)
            requires
                len == q * size,
        ;
        assert((size * q + (size - 1)) / size == q) by {
            vstd::arithmetic::div_mod::lemma_div_multiples_vanish_fancy(q, size - 1, size);
        }
        if len > 0 {
            assert(q >= 1) by (nonlinear_arith)
                requires
                    len == q * size,
                    len > 0,
                    size >= 1,
                    q >= 0,
            ;
            assert(len - 1 == size * (q - 1) + (size - 1)) by (nonlinear_arith)
                requires
                    len == q * size,
                    size >= 1,
            ;
            assert((size * (q - 1) + (size - 1)) / size == q - 1) by {
                vstd::arithmetic::div_mod::lemma_div_multiples_vanish_fancy(q - 1, size - 1, size);
            }
        }
    } else {
        assert(len + size - 1 == size * (q + 1) + (r - 1)) by (nonlinear_arith)
            requires
                len == q * size + r,
        ;
        assert((size * (q + 1) + (r - 1)) / size == q + 1) by {
            vstd::arithmetic::div_mod::lemma_div_multiples_vanish_fancy(q + 1, r - 1, size);
        }
        assert(len - 1 == size * q + (r - 1)) by (nonlinear_arith)
            requires
                len == q * size + r,
        ;
        assert((size * q + (r - 1)) / size == q) by {
            vstd::arithmetic::div_mod::lemma_div_multiples_vanish_fancy(q, r - 1, size);
        }
    }
}

/// A page within the count starts its slice inside the list.
proof fn lemma_start_in_range(len: int, size: int, page: int)
    requires
        size >= 1,
        len >= 1,
        1 <= page <= total_pages(len, size),
    ensures
        (page - 1) * size <= len - 1,
{
    lemma_ceil_div(len, size);
    assert(page - 1 <= (len - 1) / size);
    assert((page - 1) * size <= ((len - 1) / size) * size) by (nonlinear_arith)
        requires
            page - 1 <= (len - 1) / size,
            size >= 1,
    ;
    assert(((len - 1) / size) * size <= len - 1) by {
        vstd::arithmetic::div_mod::lemma_fundamental_div_mod(len - 1, size);
        vstd::arithmetic::div_mod::lemma_mod_division_less_than_divisor(len - 1, size);
    }
}

/// A nonempty slice pins its page under the count.
proof fn lemma_nonempty_page_in_bound(len: int, size: int, page: int)
    requires
        size >= 1,
        page >= 1,
        (page - 1) * size <= len - 1,
    ensures
        len >= 1,
        page <= total_pages(len, size),
{
    lemma_ceil_div(len, size);
    assert(page - 1 <= (len - 1) / size) by {
        vstd::arithmetic::div_mod::lemma_div_is_ordered((page - 1) * size, len - 1, size);
        assert(((page - 1) * size) / size == page - 1) by {
            vstd::arithmetic::div_mod::lemma_div_by_multiple(page - 1, size);
        }
    }
}

/// On a well-formed page the visible slice starts inside the list (or at
/// zero, when the list is empty).
proof fn lemma_wf_start_bound(v: ComicPageView)
    requires
        comic_wf(v),
    ensures
        0 <= shown_start(v),
        shown_start(v) <= vstd::math::max(v.comic.chapters.len() as int - 1, 0),
{
    let len = v.comic.chapters.len() as int;
    lemma_ceil_div(len, v.page_size);
    assert((v.page_number - 1) * v.page_size >= 0) by (nonlinear_arith)
        requires
            v.page_number >= 1,
            v.page_size >= 1,
    ;
    if len > 0 {
        assert(total_pages(len, v.page_size) >= 1);
        assert(v.page_number <= total_pages(len, v.page_size));
        lemma_start_in_range(len, v.page_size, v.page_number);
        assert(shown_start(v) <= len - 1);
    } else {
        assert(v.page_number == 1);
        assert(shown_start(v) == 0) by (nonlinear_arith)
            requires
                v.page_number == 1,
        ;
    }
}

/// One navigation step preserves well-formedness and never moves the page
/// outside [1, page count]; the chapters themselves stay untouched.
pub proof fn lemma_paginate_preserves_wf(v: ComicPageView, forward: bool)
    requires
        comic_wf(v),
    ensures
        comic_wf(paginate(v, forward)),
        paginate(v, forward).comic == v.comic,
        paginate(v, forward).page_size == v.page_size,
{
    let len = v.comic.chapters.len() as int;
    let tp = total_pages(len, v.page_size);
    lemma_ceil_div(len, v.page_size);
    let p = paginate(v, forward);
    if p != v {
        let cand = p.page_number;
        assert(shown_of(p).len() > 0);
        assert(shown_start(p) <= len - 1);
        lemma_nonempty_page_in_bound(len, v.page_size, cand);
    }
}

/// The page after a whole run of navigation steps.
pub open spec fn paginate_all(v: ComicPageView, dirs: Seq<bool>) -> ComicPageView
    decreases dirs.len(),
{
    if dirs.len() == 0 {
        v
    } else {
        paginate_all(paginate(v, dirs.first()), dirs.drop_first())
    }
}

/// Law: pagination is bounded. From any well-formed comic page, any run of
/// navigation steps, however long, keeps the page number between 1 and the
/// page count: going forward past the last page and back past the first
/// are no-ops, and the chapters themselves never change.
pub proof fn lemma_pagination_bounds(v: ComicPageView, dirs: Seq<bool>)
    requires
        comic_wf(v),
    ensures
        1 <= paginate_all(v, dirs).page_number,
        paginate_all(v, dirs).page_number <= vstd::math::max(
            1,
            total_pages(v.comic.chapters.len() as int, v.page_size),
        ),
        paginate_all(v, dirs).comic == v.comic,
    decreases dirs.len(),
{
    if dirs.len() > 0 {
        lemma_paginate_preserves_wf(v, dirs.first());
        lemma_pagination_bounds(paginate(v, dirs.first()), dirs.drop_first());
    }
}

impl ComicPage {
    pub fn new(comic: Comic, source: SourceId, info: ComicInfo, config: Config) -> (r: Self)
        requires
            config_wf(config),
        ensures
            r@.comic == comic@,
            r@.info == info@,
            r@.selected == Some(0usize),
            r@.page_number == 1,
            r@.page_size == config.spec_page_size(),
            r@.source == source,
            comic_wf(r@),
    {
        Self { comic, info, selected: Some(0), page_number: 1, source, config }
    }

    /// The number of pages the chapter list fills.
    pub fn page_count(&self) -> (r: usize)
        requires
            self@.page_size >= 1,
        ensures
            r as int == total_pages(self@.comic.chapters.len() as int, self@.page_size),
    {
        let len = self.comic.chapters.len();
        let size = self.config.chapter_page_size() as usize;
        proof {
            lemma_ceil_div(len as int, size as int);
        }
        len / size + if len % size == 0 {
            0
        } else {
            1
        }
    }

    /// How many chapters the current page shows.
    pub fn shown_len(&self) -> (r: usize)
        requires
            comic_wf(self@),
        ensures
            r as int == shown_of(self@).len(),
    {
        let len = self.comic.chapters.len();
        let size = self.config.chapter_page_size() as usize;
        proof {
            lemma_wf_start_bound(self@);
        }
        let start = (self.page_number - 1) * size;
        if start >= len {
            0
        } else if len - start < size {
            len - start
        } else {
            size
        }
    }

    /// The chapters the current page shows, in order.
    pub fn shown_chapters(&self) -> (r: Vec<Chapter>)
        requires
            comic_wf(self@),
        ensures
            chapters_view(r@) == shown_of(self@),
    {
        let len = self.comic.chapters.len();
        let size = self.config.chapter_page_size() as usize;
        proof {
            lemma_wf_start_bound(self@);
        }
        let start = (self.page_number - 1) * size;
        let mut r: Vec<Chapter> = Vec::new();
        if start >= len {
            proof {
                assert(chapters_view(r@) =~= shown_of(self@));
            }
            return r;
        }
        let end = if len - start < size {
            len
        } else {
            start + size
        };
        let mut i = start;
        while i < end
            invariant
                start <= i <= end <= self.comic.chapters@.len(),
                r@.len() == i - start,
                forall|k: int| 0 <= k < r@.len() ==> r@[k] == self.comic.chapters@[start + k],
            decreases end - i,
        {
            r.push(self.comic.chapters[i].duplicate());
            i = i + 1;
        }
        proof {
            assert(chapters_view(r@) =~= shown_of(self@));
        }
        r
    }

    pub fn handle_key_events(&mut self, key: KeyEvent) -> (r: Option<NikaAction>)
        requires
            comic_wf(old(self)@),
        ensures
            final(self)@ == comic_key_state(old(self)@, key),
            comic_key_action_ok(old(self)@, key, r),
            comic_wf(final(self)@),
    {
        match key.code {
            KeyCode::Char(c) => {
                if c == 'q' {
                    Some(NikaAction::Quit)
                } else if c == 's' {
                    Some(NikaAction::ChangePage(Page::Search))
                } else if c == 'h' {
                    Some(NikaAction::ChangePage(Page::Home))
                } else {
                    None
                }
            },
            KeyCode::Esc => Some(NikaAction::ChangePage(Page::Search)),
            KeyCode::Up => {
                self.move_selection(ListDirection::BottomToTop);
                None
            },
            KeyCode::Down => {
                self.move_selection(ListDirection::TopToBottom);
                None
            },
            KeyCode::Right => Some(NikaAction::FetchNewChapters(true)),
            KeyCode::Left => Some(NikaAction::FetchNewChapters(false)),
            KeyCode::Enter => {
                match self.selected {
                    Some(i) => {
                        let shown = self.shown_chapters();
                        if i < shown.len() {
                            let chapter = shown[i].duplicate();
                            proof {
                                let ii = i as int;
                                assert(chapters_view(shown@)[ii] == shown@[ii]@);
                            }
                            Some(NikaAction::FetchChapter(chapter))
                        } else {
                            None
                        }
                    },
                    None => None,
                }
            },
            _ => None,
        }
    }

    /// Moves the chapter-list cursor one step, clamped at both ends.
    fn move_selection(&mut self, direction: ListDirection)
        requires
            comic_wf(old(self)@),
        ensures
            final(self)@ == (ComicPageView {
                selected: moved_selection(
                    old(self)@.selected,
                    shown_of(old(self)@).len() as int,
                    direction,
                ),
                ..old(self)@
            }),
    {
        let len = self.shown_len();
        if len == 0 {
            return ;
        }
        let cur = match self.selected {
            Some(i) => if i < len {
                i
            } else {
                len - 1
            },
            None => 0,
        };
        self.selected = Some(get_new_selection_index(cur, len, direction));
    }

    pub fn update(&mut self, action: NikaAction) -> (out: ApplyOutcome)
        requires
            comic_wf(old(self)@),
        ensures
            final(self)@ == comic_apply(old(self)@, action),
            out.emit@ == comic_emit(old(self)@, action),
            effects_view(out.effects@) == comic_effects(old(self)@, action),
            comic_wf(final(self)@),
    {
        match action {
            NikaAction::FetchNewChapters(forward) => {
                self.navigate(forward);
                let out = ApplyOutcome { emit: Vec::new(), effects: Vec::new() };
                proof {
                    lemma_paginate_preserves_wf(old(self)@, forward);
                    assert(effects_view(out.effects@) =~= Seq::<EffectView>::empty());
                }
                out
            },
            NikaAction::SetChapters(chapters) => {
                self.comic.chapters = chapters;
                let bound = if self.comic.chapters.len() == 0 {
                    1
                } else {
                    self.page_count()
                };
                proof {
                    lemma_ceil_div(self.comic.chapters@.len() as int, self@.page_size);
                }
                if self.page_number > bound {
                    self.page_number = bound;
                }
                let out = ApplyOutcome { emit: Vec::new(), effects: Vec::new() };
                proof {
                    assert(effects_view(out.effects@) =~= Seq::<EffectView>::empty());
                    assert(final(self)@.comic.chapters =~= comic_apply(
                        old(self)@,
                        action,
                    ).comic.chapters);
                }
                out
            },
            NikaAction::FetchChapter(chapter) => {
                let out = ApplyOutcome {
                    emit: vec![NikaAction::ShowLoadingScreen(LoadingKind::Downloading)],
                    effects: vec![Effect::SpawnDownload { chapter, source: self.source }],
                };
                proof {
                    assert(effects_view(out.effects@) =~= comic_effects(
                        old(self)@,
                        action,
                    ));
                }
                out
            },
            _ => {
                let out = ApplyOutcome { emit: Vec::new(), effects: Vec::new() };
                proof {
                    assert(effects_view(out.effects@) =~= Seq::<EffectView>::empty());
                }
                out
            },
        }
    }

    /// One paging step: forward or back, clamped, never onto an empty page.
    fn navigate(&mut self, forward: bool)
        requires
            comic_wf(old(self)@),
        ensures
            final(self)@ == paginate(old(self)@, forward),
    {
        let len = self.comic.chapters.len();
        let size = self.config.chapter_page_size() as usize;
        let tp = self.page_count();
        proof {
            lemma_ceil_div(len as int, size as int);
        }
        let cand = if forward {
            if self.page_number == tp {
                self.page_number
            } else {
                self.page_number + 1
            }
        } else {
            if self.page_number == 1 {
                self.page_number
            } else {
                self.page_number - 1
            }
        };
        proof {
            assert((cand - 1) * size >= 0) by (nonlinear_arith)
                requires
                    cand >= 1,
                    size >= 1,
            ;
            if 1 <= cand as int <= total_pages(len as int, size as int) {
                lemma_start_in_range(len as int, size as int, cand as int);
            } else {
                assert(len == 0 && cand <= 2);
                assert((cand - 1) * size <= size) by (nonlinear_arith)
                    requires
                        1 <= cand <= 2,
                        size >= 1,
                ;
            }
        }
        let start = (cand - 1) * size;
        if start >= len {
            return ;
        }
        self.page_number = cand;
        self.selected = Some(0);
    }
}

} // verus!
