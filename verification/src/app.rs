//! The control loop's heart: the typed actions, the single action bus, and
//! the page state machine that consumes them. One drain cycle applies every
//! queued action in enqueue order, collects what the pages want spawned or
//! redrawn, and hands both back to the thin runtime around the library.

use vstd::prelude::*;
use crate::comic::{chapters_view, Chapter, ChapterView, Comic, ComicInfo, ComicInfoView, ComicView};
use crate::comic_page::{comic_apply, comic_effects, comic_emit, comic_key_action_ok, comic_key_state, comic_wf, ComicPage, ComicPageView};
use crate::config::{config_wf, Config};
use crate::event_handler::{KeyEvent, NikaEvent};
use crate::loading_screen::{loading_apply, LoadingScreen, LoadingScreenView};
use crate::main_page::{home_key_action, HomePage};
use crate::progress::{ProgressAmount, ProgressDelta};
use crate::search_page::{search_apply, search_effects, search_emit, search_initial, search_key_action_ok, search_key_state, search_wf, SearchPage, SearchPageView};

verus! {

/// Whether the search page is navigating or editing its query.
#[derive(Debug, Clone, Copy, PartialEq, Eq, Structural)]
pub enum InputMode {
    Normal,
    Editing,
}

impl Default for InputMode {
    fn default() -> (r: Self)
        ensures
            r == InputMode::Normal,
    {
        InputMode::Normal
    }
}

/// Which content source a request goes to.
#[derive(Debug, Clone, Copy, PartialEq, Eq, Structural)]
pub enum SourceId {
    Mangapill,
    Mangareader,
    Mangasee,
}

/// What a freshly shown loading screen announces.
#[derive(Debug, Clone, Copy, PartialEq, Eq, Structural)]
pub enum LoadingKind {
    ComicsLoading,
    Downloading,
}

/// The label a loading screen of this kind shows.
pub open spec fn loading_label(k: LoadingKind) -> Seq<char> {
    match k {
        LoadingKind::ComicsLoading => "Loading Comics..."@,
        LoadingKind::Downloading => "Downloading manga..."@,
    }
}

/// Whether a loading screen of this kind draws a gauge.
pub open spec fn loading_gauge(k: LoadingKind) -> bool {
    k == LoadingKind::Downloading
}

/// A freshly shown loading screen: its kind's label, no operation yet,
/// progress reset to zero.
pub open spec fn loading_shown(k: LoadingKind) -> LoadingScreenView {
    LoadingScreenView {
        percentage: Some(ProgressAmount { done: 0, total: 0 }),
        text: loading_label(k),
        operation: Seq::empty(),
        show_gauge: loading_gauge(k),
    }
}

/// A page the control loop can be asked to switch to.
#[derive(Debug, Clone)]
pub enum Page {
    Home,
    Search,
    Options,
    Comic(Comic, SourceId, ComicInfo),
    LoadingScreen(String, Option<ProgressAmount>),
}

/// The actions the control loop understands. Each is created once, sent
/// once, and consumed once by the loop.
#[derive(Debug, Clone)]
pub enum NikaAction {
    Error,
    Key(KeyEvent),
    Quit,
    Render,
    ChangePage(Page),
    SearchComic(String),
    SetSearchResults(Vec<Comic>),
    SelectComic(Comic),
    FetchNewChapters(bool),
    SetChapters(Vec<Chapter>),
    FetchChapter(Chapter),
    UpdateLoadingScreen(String, ProgressDelta),
    ShowLoadingScreen(LoadingKind),
    LiftLoadingScreen,
}

/// A failure of an outside operation, as the background tasks report it.
#[derive(Debug, Clone, Copy, PartialEq, Eq, Structural)]
pub enum SourceError {
    Network,
}

/// What the control loop asks the runtime around it to do: redraw, or
/// spawn one kind of background task.
#[derive(Debug)]
pub enum Effect {
    Render,
    SpawnSearch { query: String, source: SourceId },
    SpawnComicLoad { comic: Comic, source: SourceId },
    SpawnDownload { chapter: Chapter, source: SourceId },
}

/// What the contracts see of an effect.
pub enum EffectView {
    Render,
    SpawnSearch { query: Seq<char>, source: SourceId },
    SpawnComicLoad { comic: ComicView, source: SourceId },
    SpawnDownload { chapter: ChapterView, source: SourceId },
}

impl View for Effect {
    type V = EffectView;

    open spec fn view(&self) -> EffectView {
        match self {
            Effect::Render => EffectView::Render,
            Effect::SpawnSearch { query, source } => EffectView::SpawnSearch {
                query: query@,
                source: *source,
            },
            Effect::SpawnComicLoad { comic, source } => EffectView::SpawnComicLoad {
                comic: comic@,
                source: *source,
            },
            Effect::SpawnDownload { chapter, source } => EffectView::SpawnDownload {
                chapter: chapter@,
                source: *source,
            },
        }
    }
}

/// An effect list as the contracts see it.
pub open spec fn effects_view(es: Seq<Effect>) -> Seq<EffectView> {
    es.map_values(|e: Effect| e@)
}

/// What applying actions hands back: actions to re-enqueue, and effects
/// for the runtime.
#[derive(Debug)]
pub struct ApplyOutcome {
    pub emit: Vec<NikaAction>,
    pub effects: Vec<Effect>,
}

/// The active page's component, a closed set.
#[derive(Debug)]
pub enum PageComponent {
    Home(HomePage),
    Search(SearchPage),
    Comic(ComicPage),
    Loading(LoadingScreen),
}

/// What the contracts see of the active page.
pub enum ActivePageView {
    Home,
    Search(SearchPageView),
    Comic(ComicPageView),
    Loading(LoadingScreenView),
}

impl View for PageComponent {
    type V = ActivePageView;

    open spec fn view(&self) -> ActivePageView {
        match self {
            PageComponent::Home(_) => ActivePageView::Home,
            PageComponent::Search(p) => ActivePageView::Search(p@),
            PageComponent::Comic(p) => ActivePageView::Comic(p@),
            PageComponent::Loading(p) => ActivePageView::Loading(p@),
        }
    }
}

/// What the contracts see of the whole application.
pub struct AppView {
    pub page: ActivePageView,
    pub quit: bool,
    pub page_size: int,
}

/// The application: the active page's component, the quit flag, and the
/// configuration.
#[derive(Debug)]
pub struct App {
    pub component: PageComponent,
    pub quit: bool,
    pub config: Config,
}

impl View for App {
    type V = AppView;

    open spec fn view(&self) -> AppView {
        AppView { page: self.component@, quit: self.quit, page_size: self.config.spec_page_size() }
    }
}

/// The application is well formed when its page size is positive and the
/// active page's own invariant holds.
pub open spec fn app_wf(v: AppView) -> bool {
    &&& v.page_size >= 1
    &&& match v.page {
        ActivePageView::Search(sv) => search_wf(sv),
        ActivePageView::Comic(cv) => comic_wf(cv) && cv.page_size == v.page_size,
        _ => true,
    }
}

/// The page a change request builds: each page starts in its initial
/// state; the previous page's transient state is discarded. The options
/// page has no component, so a change to it is never requested.
pub open spec fn page_component_view(p: Page, page_size: int) -> ActivePageView {
    match p {
        Page::Home => ActivePageView::Home,
        Page::Search => ActivePageView::Search(search_initial()),
        Page::Options => ActivePageView::Home,
        Page::Comic(c, s, i) => ActivePageView::Comic(
            ComicPageView {
                comic: c@,
                info: i@,
                selected: Some(0usize),
                page_number: 1,
                page_size,
                source: s,
            },
        ),
        Page::LoadingScreen(t, pr) => ActivePageView::Loading(
            LoadingScreenView {
                percentage: pr,
                text: t@,
                operation: Seq::empty(),
                show_gauge: pr is Some,
            },
        ),
    }
}

/// The active page after one action is dispatched to it.
pub open spec fn page_apply(p: ActivePageView, a: NikaAction) -> ActivePageView {
    match p {
        ActivePageView::Home => ActivePageView::Home,
        ActivePageView::Search(sv) => ActivePageView::Search(search_apply(sv, a)),
        ActivePageView::Comic(cv) => ActivePageView::Comic(comic_apply(cv, a)),
        ActivePageView::Loading(lv) => ActivePageView::Loading(loading_apply(lv, a)),
    }
}

/// What the active page spawns for one action.
pub open spec fn page_effects(p: ActivePageView, a: NikaAction) -> Seq<EffectView> {
    match p {
        ActivePageView::Search(sv) => search_effects(sv, a),
        ActivePageView::Comic(cv) => comic_effects(cv, a),
        _ => Seq::empty(),
    }
}

/// What the active page sends back through the bus for one action.
pub open spec fn page_emit(p: ActivePageView, a: NikaAction) -> Seq<NikaAction> {
    match p {
        ActivePageView::Search(sv) => search_emit(sv, a),
        ActivePageView::Comic(cv) => comic_emit(cv, a),
        _ => Seq::empty(),
    }
}

/// An action the control loop accepts: everything but a change to the
/// options page, which has no component.
pub open spec fn action_ok(a: NikaAction) -> bool {
    !(a matches NikaAction::ChangePage(Page::Options))
}

/// The application after one action: quit raises the flag, a page change
/// swaps the component, showing or lifting the loading screen swaps it
/// too, and everything else is dispatched to the active page.
pub open spec fn step_state(v: AppView, a: NikaAction) -> AppView {
    match a {
        NikaAction::Quit => AppView { quit: true, ..v },
        NikaAction::ChangePage(p) => AppView { page: page_component_view(p, v.page_size), ..v },
        NikaAction::ShowLoadingScreen(k) => AppView {
            page: ActivePageView::Loading(loading_shown(k)),
            ..v
        },
        NikaAction::LiftLoadingScreen => AppView { page: ActivePageView::Home, ..v },
        _ => AppView { page: page_apply(v.page, a), ..v },
    }
}

/// What one action makes the runtime do: a render request asks for one
/// redraw; everything else is the active page's business.
pub open spec fn step_effects(v: AppView, a: NikaAction) -> Seq<EffectView> {
    match a {
        NikaAction::Render => seq![EffectView::Render],
        NikaAction::Quit => Seq::empty(),
        NikaAction::ChangePage(_) => Seq::empty(),
        NikaAction::ShowLoadingScreen(_) => Seq::empty(),
        NikaAction::LiftLoadingScreen => Seq::empty(),
        _ => page_effects(v.page, a),
    }
}

/// What one action sends back through the bus.
pub open spec fn step_emit(v: AppView, a: NikaAction) -> Seq<NikaAction> {
    match a {
        NikaAction::Render => Seq::empty(),
        NikaAction::Quit => Seq::empty(),
        NikaAction::ChangePage(_) => Seq::empty(),
        NikaAction::ShowLoadingScreen(_) => Seq::empty(),
        NikaAction::LiftLoadingScreen => Seq::empty(),
        _ => page_emit(v.page, a),
    }
}

/// The application after a whole batch of actions, first to last.
pub open spec fn run_batch(v: AppView, actions: Seq<NikaAction>) -> AppView
    decreases actions.len(),
{
    if actions.len() == 0 {
        v
    } else {
        run_batch(step_state(v, actions.first()), actions.drop_first())
    }
}

/// Everything a batch sends back through the bus, in batch order.
pub open spec fn batch_emits(v: AppView, actions: Seq<NikaAction>) -> Seq<NikaAction>
    decreases actions.len(),
{
    if actions.len() == 0 {
        Seq::empty()
    } else {
        step_emit(v, actions.first()) + batch_emits(
            step_state(v, actions.first()),
            actions.drop_first(),
        )
    }
}

/// Everything a batch asks the runtime to do, in batch order.
pub open spec fn batch_effects(v: AppView, actions: Seq<NikaAction>) -> Seq<EffectView>
    decreases actions.len(),
{
    if actions.len() == 0 {
        Seq::empty()
    } else {
        step_effects(v, actions.first()) + batch_effects(
            step_state(v, actions.first()),
            actions.drop_first(),
        )
    }
}

/// Every action of a batch is acceptable.
pub open spec fn batch_ok(actions: Seq<NikaAction>) -> bool {
    forall|i: int| 0 <= i < actions.len() ==> action_ok(#[trigger] actions[i])
}

/// Extending a batch by one action appends that action's step at the end.
proof fn lemma_batch_snoc(v: AppView, actions: Seq<NikaAction>, k: int)
    requires
        0 <= k < actions.len(),
    ensures
        run_batch(v, actions.take(k + 1)) == step_state(run_batch(v, actions.take(k)), actions[k]),
        batch_emits(v, actions.take(k + 1)) == batch_emits(v, actions.take(k)) + step_emit(
            run_batch(v, actions.take(k)),
            actions[k],
        ),
        batch_effects(v, actions.take(k + 1)) == batch_effects(v, actions.take(k)) + step_effects(
            run_batch(v, actions.take(k)),
            actions[k],
        ),
    decreases k,
{
    if k == 0 {
        let v1 = step_state(v, actions[0]);
        assert(actions.take(1).first() == actions[0]);
        assert(actions.take(1).drop_first() =~= Seq::<NikaAction>::empty());
        assert(actions.take(0) =~= Seq::<NikaAction>::empty());
        assert(run_batch(v1, Seq::<NikaAction>::empty()) == v1);
        assert(batch_emits(v1, Seq::<NikaAction>::empty()) == Seq::<NikaAction>::empty());
        assert(batch_effects(v1, Seq::<NikaAction>::empty()) == Seq::<EffectView>::empty());
        assert(run_batch(v, Seq::<NikaAction>::empty()) == v);
        assert(batch_emits(v, Seq::<NikaAction>::empty()) == Seq::<NikaAction>::empty());
        assert(batch_effects(v, Seq::<NikaAction>::empty()) == Seq::<EffectView>::empty());
        assert(batch_emits(v, actions.take(1)) =~= step_emit(v, actions[0]));
        assert(batch_effects(v, actions.take(1)) =~= step_effects(v, actions[0]));
        assert(batch_emits(v, actions.take(0)) + step_emit(v, actions[0]) =~= step_emit(
            v,
            actions[0],
        ));
        assert(batch_effects(v, actions.take(0)) + step_effects(v, actions[0]) =~= step_effects(
            v,
            actions[0],
        ));
    } else {
        let v1 = step_state(v, actions.first());
        let rest = actions.drop_first();
        assert(actions.take(k + 1).first() == actions.first());
        assert(actions.take(k + 1).drop_first() =~= rest.take(k));
        assert(actions.take(k).first() == actions.first());
        assert(actions.take(k).drop_first() =~= rest.take(k - 1));
        lemma_batch_snoc(v1, rest, k - 1);
        assert(rest[k - 1] == actions[k]);
        let e0 = step_emit(v, actions.first());
        let emid = batch_emits(v1, rest.take(k - 1));
        let elast = step_emit(run_batch(v1, rest.take(k - 1)), actions[k]);
        assert(e0 + (emid + elast) =~= (e0 + emid) + elast);
        let f0 = step_effects(v, actions.first());
        let fmid = batch_effects(v1, rest.take(k - 1));
        let flast = step_effects(run_batch(v1, rest.take(k - 1)), actions[k]);
        assert(f0 + (fmid + flast) =~= (f0 + fmid) + flast);
    }
}

/// Law: batches compose. Applying two batches one after the other is the
/// same as applying their concatenation — so a drain cycle applies every
/// action exactly as if each had been applied alone, in enqueue order,
/// with no reordering between or within batches.
pub proof fn lemma_batch_composition(v: AppView, first: Seq<NikaAction>, second: Seq<NikaAction>)
    ensures
        run_batch(v, first + second) == run_batch(run_batch(v, first), second),
    decreases first.len(),
{
    if first.len() == 0 {
        assert(first + second =~= second);
        assert(run_batch(v, first) == v);
    } else {
        assert((first + second).first() == first.first());
        assert((first + second).drop_first() =~= first.drop_first() + second);
        lemma_batch_composition(step_state(v, first.first()), first.drop_first(), second);
    }
}

/// The action bus: an ordered queue of actions, appended by anyone,
/// drained whole by the control loop.
#[derive(Debug)]
pub struct ActionBus {
    pub queue: Vec<NikaAction>,
}

impl View for ActionBus {
    type V = Seq<NikaAction>;

    open spec fn view(&self) -> Seq<NikaAction> {
        self.queue@
    }
}

impl ActionBus {
    pub fn new() -> (r: Self)
        ensures
            r@ == Seq::<NikaAction>::empty(),
    {
        ActionBus { queue: Vec::new() }
    }

    /// Appends one action at the tail of the queue.
    pub fn send(&mut self, action: NikaAction)
        ensures
            final(self)@ == old(self)@.push(action),
    {
        self.queue.push(action);
    }

    /// Takes every queued action out, in the order it was enqueued.
    pub fn drain(&mut self) -> (r: Vec<NikaAction>)
        ensures
            r@ == old(self)@,
            final(self)@ == Seq::<NikaAction>::empty(),
    {
        let mut taken: Vec<NikaAction> = Vec::new();
        core::mem::swap(&mut self.queue, &mut taken);
        taken
    }

    pub fn len(&self) -> (r: usize)
        ensures
            r == self@.len(),
    {
        self.queue.len()
    }
}

impl App {
    pub fn new(config: Config) -> (r: Self)
        requires
            config_wf(config),
        ensures
            r@.page == ActivePageView::Home,
            r@.quit == false,
            r@.page_size == config.spec_page_size(),
            app_wf(r@),
    {
        Self { component: PageComponent::Home(HomePage), quit: false, config }
    }

    pub fn should_quit(&self) -> (r: bool)
        ensures
            r == self@.quit,
    {
        self.quit
    }

    /// The component a page change swaps in.
    fn component_for(page: Page, config: &Config) -> (r: PageComponent)
        requires
            config_wf(*config),
            !(page matches Page::Options),
        ensures
            r@ == page_component_view(page, config.spec_page_size()),
    {
        match page {
            Page::Home => PageComponent::Home(HomePage),
            Page::Search => PageComponent::Search(SearchPage::default()),
            Page::Options => vstd::pervasive::unreached(),
            Page::Comic(c, s, i) => PageComponent::Comic(
                ComicPage::new(c, s, i, config.duplicate()),
            ),
            Page::LoadingScreen(t, pr) => {
                let gauge = pr.is_some();
                PageComponent::Loading(LoadingScreen::new(pr, t.as_str(), gauge))
            },
        }
    }

    /// Routes one event: a key goes to the active page, a render tick
    /// becomes a render request, everything else is dropped.
    pub fn handle_event(&mut self, event: Option<NikaEvent>) -> (r: Option<NikaAction>)
        requires
            app_wf(old(self)@),
        ensures
            final(self)@ == handle_event_state(old(self)@, event),
            handle_event_action_ok(old(self)@, event, r),
            app_wf(final(self)@),
    {
        match event {
            Some(NikaEvent::Key(k)) => {
                match &mut self.component {
                    PageComponent::Home(p) => p.handle_key_events(k),
                    PageComponent::Search(p) => p.handle_key_events(k),
                    PageComponent::Comic(p) => p.handle_key_events(k),
                    PageComponent::Loading(p) => p.handle_key_events(k),
                }
            },
            Some(NikaEvent::Render) => Some(NikaAction::Render),
            _ => None,
        }
    }

    /// Applies one action: the special ones (quit, page swaps) are the
    /// loop's own; the rest goes to the active page.
    pub fn apply(&mut self, action: NikaAction) -> (out: ApplyOutcome)
        requires
            app_wf(old(self)@),
            action_ok(action),
        ensures
            final(self)@ == step_state(old(self)@, action),
            out.emit@ == step_emit(old(self)@, action),
            effects_view(out.effects@) == step_effects(old(self)@, action),
            app_wf(final(self)@),
    {
        match action {
            NikaAction::Quit => {
                self.quit = true;
                let out = ApplyOutcome { emit: Vec::new(), effects: Vec::new() };
                proof {
                    assert(effects_view(out.effects@) =~= Seq::<EffectView>::empty());
                }
                out
            },
            NikaAction::Render => {
                let out = ApplyOutcome { emit: Vec::new(), effects: vec![Effect::Render] };
                proof {
                    assert(effects_view(out.effects@) =~= seq![EffectView::Render]);
                }
                out
            },
            NikaAction::ChangePage(page) => {
                self.component = Self::component_for(page, &self.config);
                let out = ApplyOutcome { emit: Vec::new(), effects: Vec::new() };
                proof {
                    assert(effects_view(out.effects@) =~= Seq::<EffectView>::empty());
                }
                out
            },
            NikaAction::ShowLoadingScreen(k) => {
                self.component = PageComponent::Loading(LoadingScreen::from_kind(k));
                let out = ApplyOutcome { emit: Vec::new(), effects: Vec::new() };
                proof {
                    assert(effects_view(out.effects@) =~= Seq::<EffectView>::empty());
                }
                out
            },
            NikaAction::LiftLoadingScreen => {
                self.component = PageComponent::Home(HomePage);
                let out = ApplyOutcome { emit: Vec::new(), effects: Vec::new() };
                proof {
                    assert(effects_view(out.effects@) =~= Seq::<EffectView>::empty());
                }
                out
            },
            _ => {
                match &mut self.component {
                    PageComponent::Home(p) => {
                        p.update(&action);
                        let out = ApplyOutcome { emit: Vec::new(), effects: Vec::new() };
                        proof {
                            assert(effects_view(out.effects@) =~= Seq::<
                                EffectView,
                            >::empty());
                        }
                        out
                    },
                    PageComponent::Search(p) => p.update(action),
                    PageComponent::Comic(p) => p.update(action),
                    PageComponent::Loading(p) => {
                        p.update(action);
                        let out = ApplyOutcome { emit: Vec::new(), effects: Vec::new() };
                        proof {
                            assert(effects_view(out.effects@) =~= Seq::<
                                EffectView,
                            >::empty());
                        }
                        out
                    },
                }
            },
        }
    }

    /// One drain cycle. The actions of a batch are applied first to last —
    /// exactly the order they were enqueued in, the bus keeping and the
    /// loop honouring FIFO order — and what they emit and spawn is
    /// collected in that same order.
    pub fn process_batch(&mut self, actions: Vec<NikaAction>) -> (out: ApplyOutcome)
        requires
            app_wf(old(self)@),
            batch_ok(actions@),
        ensures
            final(self)@ == run_batch(old(self)@, actions@),
            out.emit@ == batch_emits(old(self)@, actions@),
            effects_view(out.effects@) == batch_effects(old(self)@, actions@),
            app_wf(final(self)@),
    {
        let ghost v0 = self@;
        let ghost all = actions@;
        let n = actions.len();
        let mut acts = actions;
        let mut emit: Vec<NikaAction> = Vec::new();
        let mut effects: Vec<Effect> = Vec::new();
        let mut k: usize = 0;
        proof {
            assert(all.take(0) =~= Seq::<NikaAction>::empty());
        }
        while acts.len() > 0
        invariant
            all.len() == n,
            k == all.len() - acts@.len(),
            0 <= k <= all.len(),
            acts@ == all.skip(k as int),
            batch_ok(all),
            self@ == run_batch(v0, all.take(k as int)),
            emit@ == batch_emits(v0, all.take(k as int)),
            effects_view(effects@) == batch_effects(v0, all.take(k as int)),
            app_wf(self@),
        decreases acts@.len(),
        {
            let a = acts.remove(0);
            proof {
                assert(all.skip(k as int)[0] == all[k as int]);
                assert(all.skip(k as int).remove(0) =~= all.skip(k as int + 1));
                assert(action_ok(all[k as int]));
            }
            let mut out = self.apply(a);
            proof {
                lemma_batch_snoc(v0, all, k as int);
            }
            let ghost emit_pre = emit@;
            let ghost effects_pre = effects_view(effects@);
            let ghost out_effects = effects_view(out.effects@);
            emit.append(&mut out.emit);
            effects.append(&mut out.effects);
            proof {
                assert(effects_view(effects@) =~= effects_pre + out_effects);
                assert(k < all.len());
            }
            k = k + 1;
        }
        proof {
            assert(all.take(all.len() as int) =~= all);
        }
        ApplyOutcome { emit, effects }
    }
}

/// The application after one routed event: only a key can change it.
pub open spec fn handle_event_state(v: AppView, e: Option<NikaEvent>) -> AppView {
    match e {
        Some(NikaEvent::Key(k)) => AppView { page: page_key_state(v.page, k), ..v },
        _ => v,
    }
}

/// The active page after one key.
pub open spec fn page_key_state(p: ActivePageView, k: KeyEvent) -> ActivePageView {
    match p {
        ActivePageView::Home => ActivePageView::Home,
        ActivePageView::Search(sv) => ActivePageView::Search(search_key_state(sv, k)),
        ActivePageView::Comic(cv) => ActivePageView::Comic(comic_key_state(cv, k)),
        ActivePageView::Loading(lv) => ActivePageView::Loading(lv),
    }
}

/// What one routed event answers: the active page's answer for a key, a
/// render request for a tick, nothing otherwise.
pub open spec fn handle_event_action_ok(
    v: AppView,
    e: Option<NikaEvent>,
    r: Option<NikaAction>,
) -> bool {
    match e {
        Some(NikaEvent::Key(k)) => match v.page {
            ActivePageView::Home => r == home_key_action(k),
            ActivePageView::Search(sv) => search_key_action_ok(sv, k, r),
            ActivePageView::Comic(cv) => comic_key_action_ok(cv, k, r),
            ActivePageView::Loading(_) => r is None,
        },
        Some(NikaEvent::Render) => r == Some(NikaAction::Render),
        _ => r is None,
    }
}

/// What a finished search task sends back: the results on success — an
/// empty list is a result, not an error — and an error action on failure.
pub fn search_followup(results: Result<Vec<Comic>, SourceError>) -> (r: NikaAction)
    ensures
        results matches Ok(v) ==> r == NikaAction::SetSearchResults(v),
        results is Err ==> r == NikaAction::Error,
{
    match results {
        Ok(v) => NikaAction::SetSearchResults(v),
        Err(_) => NikaAction::Error,
    }
}

/// What a finished comic-load task sends back: the comic page with the
/// fetched chapters and metadata when both arrived, an error action when
/// either did not.
pub fn comic_load_followup(
    comic: Comic,
    source: SourceId,
    chapters: Result<Vec<Chapter>, SourceError>,
    info: Result<Option<ComicInfo>, SourceError>,
) -> (r: NikaAction)
    ensures
        (match (chapters, info) {
            (Ok(ch), Ok(Some(i))) => r matches NikaAction::ChangePage(Page::Comic(c2, s2, i2))
                && c2@ == (ComicView { chapters: chapters_view(ch@), ..comic@ }) && s2 == source
                && i2 == i,
            _ => r == NikaAction::Error,
        }),
{
    match (chapters, info) {
        (Ok(ch), Ok(Some(i))) => {
            let mut c = comic;
            c.chapters = ch;
            proof {
                assert(c@.chapters =~= chapters_view(c.chapters@));
            }
            NikaAction::ChangePage(Page::Comic(c, source, i))
        },
        _ => NikaAction::Error,
    }
}

/// What a finished download task sends back, and what it shows afterwards:
/// on success the loading screen is lifted and the downloaded directory is
/// opened in the viewer; on failure an error action, and nothing to open.
pub fn download_followup(outcome: Result<String, SourceError>) -> (r: (NikaAction, Option<String>))
    ensures
        outcome matches Ok(p) ==> r.0 == NikaAction::LiftLoadingScreen && r.1 == Some(p),
        outcome is Err ==> r.0 == NikaAction::Error && r.1 is None,
{
    match outcome {
        Ok(p) => (NikaAction::LiftLoadingScreen, Some(p)),
        Err(_) => (NikaAction::Error, None),
    }
}

} // verus!
