//! Planning of a chapter download. A plan fixes, before anything is
//! spawned, where every asset lands and what progress each chunk is worth:
//! a directory named by a random token under a base directory, one
//! deterministically numbered file per asset, and per-chunk deltas against
//! the summed total. Fetching bytes and writing files happen outside; the
//! plan is what keeps concurrent downloads out of each other's way.

use vstd::prelude::*;
use rand::Rng;
use crate::loading_screen::progress_after_all;
use crate::progress::{lemma_chunks_cover_sizes, lemma_sum_flatten, lemma_sum_permutation, lemma_sum_prefix_bound, lemma_sum_take_snoc, sum_u64, ProgressAmount, ProgressDelta};
use crate::text::{dec_of, lemma_dec_of_injective, lemma_dec_of_len_pos, push_dec};

verus! {

use vstd::string::StringExecFns;

/// A character a directory token may hold: an ASCII letter or digit, so
/// never a path separator.
pub open spec fn is_token_char(c: char) -> bool {
    ('0' <= c && c <= '9') || ('a' <= c && c <= 'z') || ('A' <= c && c <= 'Z')
}

/// A well-formed directory token: eight letters or digits.
pub open spec fn token_wf(t: Seq<char>) -> bool {
    &&& t.len() == 8
    &&& forall|i: int| 0 <= i < t.len() ==> is_token_char(#[trigger] t[i])
}

/// Relies on rand's `thread_rng` and the `Alphanumeric` distribution:
/// eight characters drawn from ASCII letters and digits. Which eight is up
/// to the generator; nothing more is assumed.
#[verifier::external_body]
pub fn random_token() -> (r: String)
    ensures
        token_wf(r@),
{
    rand::thread_rng().sample_iter(&rand::distributions::Alphanumeric).take(8).map(
        char::from,
    ).collect()
}

/// Asset sizes as reported by the initial requests, a missing length
/// falling back to zero so the plan can still be made.
pub fn normalize_sizes(reported: Vec<Option<u64>>) -> (r: Vec<u64>)
    ensures
        r@.len() == reported@.len(),
        forall|k: int|
            0 <= k < r@.len() ==> r@[k] == (match reported@[k] {
                Some(s) => s,
                None => 0u64,
            }),
{
    let mut r: Vec<u64> = Vec::new();
    let mut i: usize = 0;
    while i < reported.len()
        invariant
            i <= reported@.len(),
            r@.len() == i,
            forall|k: int|
                0 <= k < i ==> r@[k] == (match reported@[k] {
                    Some(s) => s,
                    None => 0u64,
                }),
        decreases reported@.len() - i,
    {
        match reported[i] {
            Some(s) => r.push(s),
            None => r.push(0),
        }
        i = i + 1;
    }
    r
}

/// The name of the asset file at `index`: its number between a fixed stem
/// and extension, so order is preserved and names never collide.
pub open spec fn file_name_spec(index: nat) -> Seq<char> {
    "page-"@ + dec_of(index) + ".jpeg"@
}

/// The directory one download owns: its token under the base directory.
pub open spec fn dir_path_spec(base: Seq<char>, token: Seq<char>) -> Seq<char> {
    base + "/"@ + token
}

/// Where the asset at `index` lands: its file inside the plan's directory.
pub open spec fn asset_path_spec(base: Seq<char>, token: Seq<char>, index: nat) -> Seq<char> {
    dir_path_spec(base, token) + "/"@ + file_name_spec(index)
}

/// A download plan: the directory it owns and the declared asset sizes,
/// with their sum as the operation's total.
#[derive(Debug)]
pub struct DownloadPlan {
    pub base: String,
    pub token: String,
    pub sizes: Vec<u64>,
    pub total: u64,
}

/// A plan is well formed when its token is one the generator hands out and
/// its total is the sum of its asset sizes.
pub open spec fn plan_wf(p: DownloadPlan) -> bool {
    &&& token_wf(p.token@)
    &&& p.total == sum_u64(p.sizes@)
}

impl DownloadPlan {
    /// Builds a plan from a base directory, a fresh token, and the asset
    /// sizes. The sizes must sum within the machine limit — declared
    /// lengths of files to be written to one disk do.
    pub fn new(base: String, token: String, sizes: Vec<u64>) -> (r: Self)
        requires
            token_wf(token@),
            sum_u64(sizes@) <= u64::MAX,
        ensures
            r.base@ == base@,
            r.token@ == token@,
            r.sizes == sizes,
            r.total == sum_u64(sizes@),
            plan_wf(r),
    {
        let mut total: u64 = 0;
        let mut i: usize = 0;
        proof {
            assert(sizes@.take(0) =~= Seq::<u64>::empty());
        }
        while i < sizes.len()
            invariant
                i <= sizes@.len(),
                sum_u64(sizes@) <= u64::MAX,
                total == sum_u64(sizes@.take(i as int)),
            decreases sizes@.len() - i,
        {
            proof {
                lemma_sum_take_snoc(sizes@, i as int);
                lemma_sum_prefix_bound(sizes@, i as int + 1);
            }
            total = total + sizes[i];
            i = i + 1;
        }
        proof {
            assert(sizes@.take(sizes@.len() as int) =~= sizes@);
        }
        DownloadPlan { base, token, sizes, total }
    }

    /// A plan under a freshly drawn directory token.
    pub fn fresh(base: String, sizes: Vec<u64>) -> (r: Self)
        requires
            sum_u64(sizes@) <= u64::MAX,
        ensures
            r.base@ == base@,
            r.sizes == sizes,
            r.total == sum_u64(sizes@),
            plan_wf(r),
    {
        let token = random_token();
        Self::new(base, token, sizes)
    }

    pub fn asset_count(&self) -> (r: usize)
        ensures
            r == self.sizes@.len(),
    {
        self.sizes.len()
    }

    /// Whether progress is reported at all: never when the total is zero,
    /// so no delta ever divides by it.
    pub fn should_emit(&self) -> (r: bool)
        ensures
            r == (self.total > 0),
    {
        self.total > 0
    }

    /// The progress report one chunk of `chunk` bytes is worth.
    pub fn delta_for(&self, chunk: u64) -> (r: ProgressDelta)
        ensures
            r == (ProgressDelta { bytes: chunk, total: self.total }),
    {
        ProgressDelta { bytes: chunk, total: self.total }
    }

    /// The name of the asset file at `index`.
    pub fn file_name(&self, index: usize) -> (r: String)
        ensures
            r@ == file_name_spec(index as nat),
    {
        let mut s = "page-".to_owned();
        push_dec(&mut s, index as u64);
        let r = s.concat(".jpeg");
        proof {
            assert(r@ =~= file_name_spec(index as nat));
        }
        r
    }

    /// The directory this plan owns.
    pub fn dir_path(&self) -> (r: String)
        ensures
            r@ == dir_path_spec(self.base@, self.token@),
    {
        let r = self.base.clone().concat("/").concat(self.token.as_str());
        proof {
            assert(r@ =~= dir_path_spec(self.base@, self.token@));
        }
        r
    }

    /// The full path of the asset file at `index`: always inside the
    /// plan's own directory.
    pub fn asset_path(&self, index: usize) -> (r: String)
        ensures
            r@ == asset_path_spec(self.base@, self.token@, index as nat),
    {
        let name = self.file_name(index);
        let r = self.dir_path().concat("/").concat(name.as_str());
        proof {
            assert(r@ =~= asset_path_spec(self.base@, self.token@, index as nat));
        }
        r
    }
}

/// Two equal asset file names carry the same index.
proof fn lemma_file_name_injective(i: nat, j: nat)
    requires
        file_name_spec(i) == file_name_spec(j),
    ensures
        i == j,
{
    reveal_strlit("page-");
    reveal_strlit(".jpeg");
    lemma_dec_of_len_pos(i);
    lemma_dec_of_len_pos(j);
    let di = dec_of(i);
    let dj = dec_of(j);
    assert(file_name_spec(i).len() == 5 + di.len() + 5);
    assert(file_name_spec(j).len() == 5 + dj.len() + 5);
    assert(di.len() == dj.len());
    assert forall|k: int| 0 <= k < di.len() implies di[k] == dj[k] by {
        assert(file_name_spec(i)[5 + k] == di[k]);
        assert(file_name_spec(j)[5 + k] == dj[k]);
    }
    assert(di =~= dj);
    lemma_dec_of_injective(i, j);
}

/// Law: file isolation. Two downloads under the same base directory but
/// different tokens never write to the same path, and within one download
/// two different assets never share a file. Every asset path also begins
/// with the plan's own directory, so a download's files land only there.
pub proof fn lemma_file_isolation(
    base: Seq<char>,
    t1: Seq<char>,
    t2: Seq<char>,
    i: nat,
    j: nat,
)
    requires
        token_wf(t1),
        token_wf(t2),
        t1 != t2 || i != j,
    ensures
        asset_path_spec(base, t1, i) != asset_path_spec(base, t2, j),
{
    reveal_strlit("/");
    let p1 = asset_path_spec(base, t1, i);
    let p2 = asset_path_spec(base, t2, j);
    if p1 == p2 {
        assert forall|k: int| 0 <= k < 8 implies t1[k] == t2[k] by {
            assert(p1[base.len() + 1 + k] == t1[k]);
            assert(p2[base.len() + 1 + k] == t2[k]);
        }
        assert(t1 =~= t2);
        let n1 = file_name_spec(i);
        let n2 = file_name_spec(j);
        assert(p1.len() == base.len() + 1 + 8 + 1 + n1.len());
        assert(p2.len() == base.len() + 1 + 8 + 1 + n2.len());
        assert forall|k: int| 0 <= k < n1.len() implies n1[k] == n2[k] by {
            assert(p1[base.len() + 10 + k] == n1[k]);
            assert(p2[base.len() + 10 + k] == n2[k]);
        }
        assert(n1 =~= n2);
        lemma_file_name_injective(i, j);
        assert(false);
    }
}

/// Law: progress convergence. Take a chapter whose assets have the given
/// sizes, summing within the machine limit; let each asset arrive in any
/// chunking whose pieces sum to its size; and let the per-chunk progress
/// reports, each against the plan's total, reach the loading screen in any
/// interleaving that carries every chunk exactly once. Then the reported
/// bytes sum to the total, and a loading screen that started at zero ends
/// with exactly that total done: the drawn ratio is one.
pub proof fn lemma_progress_convergence(
    sizes: Seq<u64>,
    chunks: Seq<Seq<u64>>,
    reports: Seq<ProgressDelta>,
    total: u64,
)
    requires
        chunks.len() == sizes.len(),
        forall|i: int| 0 <= i < chunks.len() ==> sum_u64(#[trigger] chunks[i]) == sizes[i],
        sum_u64(sizes) <= u64::MAX,
        total == sum_u64(sizes),
        reports.map_values(|d: ProgressDelta| d.bytes).to_multiset() == chunks.flatten().to_multiset(),
        forall|k: int| 0 <= k < reports.len() ==> (#[trigger] reports[k]).total == total,
    ensures
        sum_u64(reports.map_values(|d: ProgressDelta| d.bytes)) == sum_u64(sizes),
        reports.len() > 0 ==> progress_after_all(
            Some(ProgressAmount { done: 0, total }),
            reports,
        ) == Some(ProgressAmount { done: total, total }),
{
    let bytes = reports.map_values(|d: ProgressDelta| d.bytes);
    lemma_sum_permutation(bytes, chunks.flatten());
    lemma_sum_flatten(chunks);
    lemma_chunks_cover_sizes(chunks, sizes);
    if reports.len() > 0 {
        crate::loading_screen::lemma_accumulation(ProgressAmount { done: 0, total }, reports);
        assert(reports.last().total == total);
    }
}

} // verus!
