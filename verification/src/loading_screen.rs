//! The loading screen: a label plus an optional gauge fed by progress
//! reports. It accumulates the incremental deltas the downloader emits
//! into an absolute amount; it never clamps, so the gauge reaches one
//! exactly when the deltas sum to the operation's total.

use vstd::prelude::*;
use crate::app::{loading_shown, LoadingKind, NikaAction};
use crate::event_handler::KeyEvent;
use crate::progress::{sum_u64, ProgressAmount, ProgressDelta};

verus! {

/// What the contracts see of a loading screen.
pub struct LoadingScreenView {
    pub percentage: Option<ProgressAmount>,
    pub text: Seq<char>,
    pub operation: Seq<char>,
    pub show_gauge: bool,
}

#[derive(Debug, Clone)]
pub struct LoadingScreen {
    pub percentage: Option<ProgressAmount>,
    pub text: String,
    pub operation: String,
    pub show_gauge: bool,
}

impl View for LoadingScreen {
    type V = LoadingScreenView;

    open spec fn view(&self) -> LoadingScreenView {
        LoadingScreenView {
            percentage: self.percentage,
            text: self.text@,
            operation: self.operation@,
            show_gauge: self.show_gauge,
        }
    }
}

/// Accumulated progress after one report: what was done before, plus the
/// chunk the report carries, against the report's total. A screen that had
/// no progress yet counts from zero. The sum does not clamp below the
/// machine limit, as the callers guarantee that deltas sum to the total.
pub open spec fn progress_after(p: Option<ProgressAmount>, d: ProgressDelta) -> ProgressAmount {
    let done0 = match p {
        Some(pa) => pa.done,
        None => 0u64,
    };
    if done0 + d.bytes <= u64::MAX {
        ProgressAmount { done: (done0 + d.bytes) as u64, total: d.total }
    } else {
        ProgressAmount { done: u64::MAX, total: d.total }
    }
}

/// Accumulated progress after a whole sequence of reports, in order.
pub open spec fn progress_after_all(p: Option<ProgressAmount>, ds: Seq<ProgressDelta>) -> Option<
    ProgressAmount,
>
    decreases ds.len(),
{
    if ds.len() == 0 {
        p
    } else {
        progress_after_all(Some(progress_after(p, ds.first())), ds.drop_first())
    }
}

/// The screen after applying one action: a progress update accumulates its
/// delta and takes over the operation label; every other action leaves the
/// screen unchanged.
pub open spec fn loading_apply(v: LoadingScreenView, a: NikaAction) -> LoadingScreenView {
    match a {
        NikaAction::UpdateLoadingScreen(op, d) => LoadingScreenView {
            percentage: Some(progress_after(v.percentage, d)),
            operation: op@,
            ..v
        },
        _ => v,
    }
}

impl LoadingScreen {
    pub fn new(progress: Option<ProgressAmount>, text: &str, gauge: bool) -> (r: Self)
        ensures
            r@.percentage == progress,
            r@.text == text@,
            r@.operation == Seq::<char>::empty(),
            r@.show_gauge == gauge,
    {
        Self {
            percentage: progress,
            text: text.to_owned(),
            operation: String::new(),
            show_gauge: gauge,
        }
    }

    /// The loading screen a show request of this kind puts up: its label,
    /// progress reset to zero.
    pub fn from_kind(kind: LoadingKind) -> (r: Self)
        ensures
            r@ == loading_shown(kind),
    {
        let text = match kind {
            LoadingKind::ComicsLoading => "Loading Comics...",
            LoadingKind::Downloading => "Downloading manga...",
        };
        let gauge = match kind {
            LoadingKind::ComicsLoading => false,
            LoadingKind::Downloading => true,
        };
        Self {
            percentage: Some(ProgressAmount { done: 0, total: 0 }),
            text: text.to_owned(),
            operation: String::new(),
            show_gauge: gauge,
        }
    }

    /// The loading screen swallows every key.
    pub fn handle_key_events(&mut self, key: KeyEvent) -> (r: Option<NikaAction>)
        ensures
            *final(self) == *old(self),
            r is None,
    {
        let _ = key;
        None
    }

    pub fn update(&mut self, action: NikaAction)
        ensures
            final(self)@ == loading_apply(old(self)@, action),
    {
        match action {
            NikaAction::UpdateLoadingScreen(operation, d) => {
                let done0 = match self.percentage {
                    Some(pa) => pa.done,
                    None => 0,
                };
                let done = if d.bytes <= u64::MAX - done0 {
                    done0 + d.bytes
                } else {
                    u64::MAX
                };
                self.percentage = Some(ProgressAmount { done, total: d.total });
                self.operation = operation;
            },
            _ => {},
        }
    }

    /// The ratio the gauge draws, in thousandths: done over total, zero
    /// while there is no progress or the total is unknown.
    pub fn ratio_per_mille(&self) -> (r: u64)
        ensures
            r == ratio_per_mille_spec(self@.percentage),
    {
        match self.percentage {
            Some(pa) => {
                if pa.total > 0 {
                    ((pa.done as u128) * 1000 / (pa.total as u128)) as u64
                } else {
                    0
                }
            },
            None => 0,
        }
    }

    pub fn text(&self) -> (r: &str)
        ensures
            r@ == self@.text,
    {
        self.text.as_str()
    }

    pub fn operation(&self) -> (r: &str)
        ensures
            r@ == self@.operation,
    {
        self.operation.as_str()
    }

    pub fn show_gauge(&self) -> (r: bool)
        ensures
            r == self@.show_gauge,
    {
        self.show_gauge
    }
}

/// Done over total in thousandths, zero without progress or total.
pub open spec fn ratio_per_mille_spec(p: Option<ProgressAmount>) -> u64 {
    match p {
        Some(pa) => if pa.total > 0 {
            ((pa.done as int) * 1000 / (pa.total as int)) as u64
        } else {
            0
        },
        None => 0,
    }
}

/// Law: the loading screen accumulates exactly. Feeding it any sequence of
/// progress reports moves the done count up by precisely the sum of the
/// chunks they carry, as long as that sum stays below the machine limit.
pub proof fn lemma_accumulation(p: ProgressAmount, ds: Seq<ProgressDelta>)
    requires
        ds.len() > 0,
        p.done + sum_u64(ds.map_values(|d: ProgressDelta| d.bytes)) <= u64::MAX,
    ensures
        progress_after_all(Some(p), ds) == Some(
            ProgressAmount {
                done: (p.done + sum_u64(ds.map_values(|d: ProgressDelta| d.bytes))) as u64,
                total: ds.last().total,
            },
        ),
    decreases ds.len(),
{
    let bytes = ds.map_values(|d: ProgressDelta| d.bytes);
    assert(bytes.first() == ds.first().bytes);
    assert(bytes.drop_first() =~= ds.drop_first().map_values(|d: ProgressDelta| d.bytes));
    assert(sum_u64(bytes) == ds.first().bytes + sum_u64(bytes.drop_first()));
    let p1 = progress_after(Some(p), ds.first());
    assert(p.done + ds.first().bytes <= u64::MAX);
    assert(p1.done == p.done + ds.first().bytes);
    if ds.len() == 1 {
        assert(ds.drop_first().len() == 0);
        assert(sum_u64(bytes.drop_first()) == 0);
        assert(ds.last() == ds.first());
        assert(progress_after_all(Some(p1), ds.drop_first()) == Some(p1));
        assert(progress_after_all(Some(p), ds) == Some(p1));
    } else {
        lemma_accumulation(p1, ds.drop_first());
        assert(ds.drop_first().last() == ds.last());
    }
}

} // verus!
