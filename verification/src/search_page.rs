//! The search page: a live query buffer, a result list with a clamped
//! selection cursor, and a switchable source. In Normal mode keys navigate;
//! in Editing mode every keystroke feeds the buffer and immediately
//! re-issues the search.

use vstd::prelude::*;
use crate::app::{effects_view, ApplyOutcome, Effect, EffectView, InputMode, LoadingKind, NikaAction, Page, SourceId};
use crate::comic::{comics_view, Comic, ComicView};
use crate::event_handler::{KeyCode, KeyEvent};
use crate::helpers::{get_new_selection_index, moved_selection, ListDirection};
use crate::text::{pop_char, push_char};

verus! {

/// What the contracts see of the search page.
pub struct SearchPageView {
    pub results: Seq<ComicView>,
    pub query: Seq<char>,
    pub mode: InputMode,
    pub selected: Option<usize>,
    pub sources: Seq<SourceId>,
    pub source_index: int,
}

#[derive(Debug)]
pub struct SearchPage {
    pub results: Vec<Comic>,
    pub query: String,
    pub mode: InputMode,
    pub selected: Option<usize>,
    pub sources: Vec<SourceId>,
    pub selected_source_index: usize,
}

impl View for SearchPage {
    type V = SearchPageView;

    open spec fn view(&self) -> SearchPageView {
        SearchPageView {
            results: comics_view(self.results@),
            query: self.query@,
            mode: self.mode,
            selected: self.selected,
            sources: self.sources@,
            source_index: self.selected_source_index as int,
        }
    }
}

/// A search page is well formed when it has at least one source and its
/// source cursor points at one of them.
pub open spec fn search_wf(v: SearchPageView) -> bool {
    &&& v.sources.len() >= 1
    &&& 0 <= v.source_index < v.sources.len()
}

/// A fresh search page: no results, empty query, Normal mode, nothing
/// selected, one registered source.
pub open spec fn search_initial() -> SearchPageView {
    SearchPageView {
        results: Seq::empty(),
        query: Seq::empty(),
        mode: InputMode::Normal,
        selected: None,
        sources: seq![SourceId::Mangapill],
        source_index: 0,
    }
}

/// The search page's state after one key, mode by mode.
pub open spec fn search_key_state(v: SearchPageView, k: KeyEvent) -> SearchPageView {
    match v.mode {
        InputMode::Normal => {
            if k.code == KeyCode::Char('/') {
                SearchPageView { mode: InputMode::Editing, selected: None, ..v }
            } else if k.code == KeyCode::Char('s') {
                let next = v.source_index + 1;
                SearchPageView {
                    source_index: if next == v.sources.len() {
                        0
                    } else {
                        next
                    },
                    ..v
                }
            } else if k.code == KeyCode::Up {
                SearchPageView {
                    selected: moved_selection(
                        v.selected,
                        v.results.len() as int,
                        ListDirection::BottomToTop,
                    ),
                    ..v
                }
            } else if k.code == KeyCode::Down {
                SearchPageView {
                    selected: moved_selection(
                        v.selected,
                        v.results.len() as int,
                        ListDirection::TopToBottom,
                    ),
                    ..v
                }
            } else {
                v
            }
        },
        InputMode::Editing => {
            if !k.is_press {
                v
            } else if k.code == KeyCode::Enter {
                SearchPageView { mode: InputMode::Normal, selected: Some(0usize), ..v }
            } else {
                match k.code {
                    KeyCode::Char(c) => SearchPageView { query: v.query.push(c), ..v },
                    KeyCode::Backspace => SearchPageView {
                        query: if v.query.len() > 0 {
                            v.query.drop_last()
                        } else {
                            v.query
                        },
                        ..v
                    },
                    _ => v,
                }
            }
        },
    }
}

/// What the search page answers to a key. In Normal mode `h` asks for the
/// home page, `q` to quit, and Enter selects the comic under the cursor
/// when the cursor points at one; in Editing mode every press except Enter
/// re-issues the search with the buffer as it stands after the key.
pub open spec fn search_key_action_ok(
    v: SearchPageView,
    k: KeyEvent,
    r: Option<NikaAction>,
) -> bool {
    match v.mode {
        InputMode::Normal => {
            if k.code == KeyCode::Char('h') {
                r == Some(NikaAction::ChangePage(Page::Home))
            } else if k.code == KeyCode::Char('q') {
                r == Some(NikaAction::Quit)
            } else if k.code == KeyCode::Enter {
                match v.selected {
                    Some(i) => if i < v.results.len() {
                        r matches Some(NikaAction::SelectComic(c)) && c@ == v.results[i as int]
                    } else {
                        r is None
                    },
                    None => r is None,
                }
            } else {
                r is None
            }
        },
        InputMode::Editing => {
            if !k.is_press || k.code == KeyCode::Enter {
                r is None
            } else {
                r matches Some(NikaAction::SearchComic(q)) && q@ == search_key_state(v, k).query
            }
        },
    }
}

/// The search page's state after one action: new results replace the list;
/// search requests and comic selections only spawn work.
pub open spec fn search_apply(v: SearchPageView, a: NikaAction) -> SearchPageView {
    match a {
        NikaAction::SetSearchResults(r) => SearchPageView {
            results: comics_view(r@),
            ..v
        },
        _ => v,
    }
}

/// What the search page spawns for one action: a search task for a search
/// request, a comic-load task for a selection.
pub open spec fn search_effects(v: SearchPageView, a: NikaAction) -> Seq<EffectView> {
    match a {
        NikaAction::SearchComic(q) => seq![
            EffectView::SpawnSearch { query: q@, source: v.sources[v.source_index] },
        ],
        NikaAction::SelectComic(c) => seq![
            EffectView::SpawnComicLoad { comic: c@, source: v.sources[v.source_index] },
        ],
        _ => Seq::empty(),
    }
}

/// What the search page sends back through the bus for one action: a comic
/// selection shows the loading screen before its data arrives.
pub open spec fn search_emit(v: SearchPageView, a: NikaAction) -> Seq<NikaAction> {
    match a {
        NikaAction::SelectComic(_) => seq![
            NikaAction::ShowLoadingScreen(LoadingKind::ComicsLoading),
        ],
        _ => Seq::empty(),
    }
}

impl SearchPage {
    pub fn handle_key_events(&mut self, key: KeyEvent) -> (r: Option<NikaAction>)
        requires
            search_wf(old(self)@),
        ensures
            final(self)@ == search_key_state(old(self)@, key),
            search_key_action_ok(old(self)@, key, r),
            search_wf(final(self)@),
    {
        match self.mode {
            InputMode::Normal => {
                match key.code {
                    KeyCode::Char(c) => {
                        if c == 'h' {
                            Some(NikaAction::ChangePage(Page::Home))
                        } else if c == 'q' {
                            Some(NikaAction::Quit)
                        } else if c == '/' {
                            self.mode = InputMode::Editing;
                            self.selected = None;
                            None
                        } else if c == 's' {
                            let n = self.sources.len();
                            self.selected_source_index = self.selected_source_index + 1;
                            if self.selected_source_index == n {
                                self.selected_source_index = 0;
                            }
                            None
                        } else {
                            None
                        }
                    },
                    KeyCode::Up => {
                        self.move_selection(ListDirection::BottomToTop);
                        None
                    },
                    KeyCode::Down => {
                        self.move_selection(ListDirection::TopToBottom);
                        None
                    },
                    KeyCode::Enter => {
                        match self.selected {
                            Some(i) => {
                                if i < self.results.len() {
                                    Some(NikaAction::SelectComic(self.results[i].duplicate()))
                                } else {
                                    None
                                }
                            },
                            None => None,
                        }
                    },
                    _ => None,
                }
            },
            InputMode::Editing => {
                if !key.is_press {
                    return None;
                }
                match key.code {
                    KeyCode::Enter => {
                        self.mode = InputMode::Normal;
                        self.selected = Some(0);
                        None
                    },
                    KeyCode::Char(c) => {
                        push_char(&mut self.query, c);
                        Some(NikaAction::SearchComic(self.query.clone()))
                    },
                    KeyCode::Backspace => {
                        pop_char(&mut self.query);
                        Some(NikaAction::SearchComic(self.query.clone()))
                    },
                    _ => Some(NikaAction::SearchComic(self.query.clone())),
                }
            },
        }
    }

    /// Moves the result-list cursor one step, clamped at both ends.
    fn move_selection(&mut self, direction: ListDirection)
        ensures
            final(self)@ == (SearchPageView {
                selected: moved_selection(
                    old(self)@.selected,
                    old(self)@.results.len() as int,
                    direction,
                ),
                ..old(self)@
            }),
    {
        let len = self.results.len();
        if len == 0 {
            return ;
        }
        let cur = match self.selected {
            Some(i) => if i < len {
                i
            } else {
                len - 1
            },
            None => 0,
        };
        self.selected = Some(get_new_selection_index(cur, len, direction));
    }

    pub fn update(&mut self, action: NikaAction) -> (out: ApplyOutcome)
        requires
            search_wf(old(self)@),
        ensures
            final(self)@ == search_apply(old(self)@, action),
            out.emit@ == search_emit(old(self)@, action),
            effects_view(out.effects@) == search_effects(old(self)@, action),
            search_wf(final(self)@),
    {
        match action {
            NikaAction::SearchComic(query) => {
                let source = self.sources[self.selected_source_index];
                let out = ApplyOutcome {
                    emit: Vec::new(),
                    effects: vec![Effect::SpawnSearch { query, source }],
                };
                proof {
                    assert(effects_view(out.effects@) =~= search_effects(
                        old(self)@,
                        action,
                    ));
                }
                out
            },
            NikaAction::SetSearchResults(r) => {
                self.results = r;
                let out = ApplyOutcome { emit: Vec::new(), effects: Vec::new() };
                proof {
                    assert(effects_view(out.effects@) =~= Seq::<EffectView>::empty());
                }
                out
            },
            NikaAction::SelectComic(c) => {
                let source = self.sources[self.selected_source_index];
                let out = ApplyOutcome {
                    emit: vec![NikaAction::ShowLoadingScreen(LoadingKind::ComicsLoading)],
                    effects: vec![Effect::SpawnComicLoad { comic: c, source }],
                };
                proof {
                    assert(effects_view(out.effects@) =~= search_effects(
                        old(self)@,
                        action,
                    ));
                }
                out
            },
            _ => {
                let out = ApplyOutcome { emit: Vec::new(), effects: Vec::new() };
                proof {
                    assert(effects_view(out.effects@) =~= Seq::<EffectView>::empty());
                }
                out
            },
        }
    }
}

impl Default for SearchPage {
    /// A fresh search page.
    fn default() -> (r: Self)
        ensures
            r@ == search_initial(),
            search_wf(r@),
    {
        let r = SearchPage {
            results: Vec::new(),
            query: String::new(),
            mode: InputMode::Normal,
            selected: None,
            sources: vec![SourceId::Mangapill],
            selected_source_index: 0,
        };
        proof {
            assert(r@.results =~= search_initial().results);
            assert(r@.sources =~= search_initial().sources);
        }
        r
    }
}

} // verus!
