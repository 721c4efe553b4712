//! Replacing a displayed mesh by a rebuilt one.
//!
//! The renderer compiles a new mesh some time after it was handed over.
//! Until it reports the mesh as ready, the display keeps the old one; in the
//! step that sees the report the display is repointed, and only then is the
//! old mesh released.

use vstd::prelude::*;

verus! {

/// How far a swap has come.
#[derive(Clone, Copy, Debug, PartialEq, Eq, Structural)]
pub enum SwapState {
    /// The new mesh was handed to the renderer; the display shows the old.
    Requested,
    /// The renderer reported the new mesh.
    Ready,
    /// Every display entry that showed the old mesh shows the new one.
    Applied,
    /// The old mesh was released.
    Retired,
}

/// A swap of the mesh `old_mesh` for the mesh `new_mesh`, each named by the
/// identity the renderer gave it.
#[derive(Clone, Copy, Debug, PartialEq, Eq, Structural)]
pub struct PendingSwap {
    pub old_mesh: u64,
    pub new_mesh: u64,
    pub state: SwapState,
}

/// The swaps that wait for their new mesh, in the order they were requested.
#[derive(Debug)]
pub struct MeshSwapCoordinator {
    pub pending: Vec<PendingSwap>,
}

/// The swap `swap` on reaching `state`.
pub open spec fn reached(swap: PendingSwap, state: SwapState) -> PendingSwap {
    PendingSwap { old_mesh: swap.old_mesh, new_mesh: swap.new_mesh, state }
}

/// `id` is among the first `m` reports.
pub open spec fn is_ready(ready: Seq<u64>, m: int, id: u64) -> bool {
    exists|i: int| 0 <= i < m && #[trigger] ready[i] == id
}

/// The display with every entry that shows `old_mesh` showing `new_mesh`.
pub open spec fn repoint(display: Seq<u64>, old_mesh: u64, new_mesh: u64) -> Seq<u64> {
    Seq::new(
        display.len(),
        |i: int|
            if display[i] == old_mesh {
                new_mesh
            } else {
                display[i]
            },
    )
}

/// The display after the report `id` was held against the first `n` swaps,
/// in their order.
pub open spec fn display_after_swaps(
    display: Seq<u64>,
    pending: Seq<PendingSwap>,
    id: u64,
    n: nat,
) -> Seq<u64>
    decreases n,
{
    if n == 0 {
        display
    } else {
        let before = display_after_swaps(display, pending, id, (n - 1) as nat);
        if pending[n - 1].new_mesh == id {
            repoint(before, pending[n - 1].old_mesh, id)
        } else {
            before
        }
    }
}

/// The display after the first `m` reports, each held against every swap.
pub open spec fn display_after_reports(
    display: Seq<u64>,
    pending: Seq<PendingSwap>,
    ready: Seq<u64>,
    m: nat,
) -> Seq<u64>
    decreases m,
{
    if m == 0 {
        display
    } else {
        display_after_swaps(
            display_after_reports(display, pending, ready, (m - 1) as nat),
            pending,
            ready[m - 1],
            pending.len(),
        )
    }
}

/// What the report `id` does to the first `n` swaps: each swap whose new mesh
/// it names becomes ready and is applied at once.
pub open spec fn log_of_swaps(pending: Seq<PendingSwap>, id: u64, n: nat) -> Seq<PendingSwap>
    decreases n,
{
    if n == 0 {
        Seq::empty()
    } else {
        let before = log_of_swaps(pending, id, (n - 1) as nat);
        if pending[n - 1].new_mesh == id {
            before.push(reached(pending[n - 1], SwapState::Ready)).push(
                reached(pending[n - 1], SwapState::Applied),
            )
        } else {
            before
        }
    }
}

/// What the first `m` reports do, one report after the other.
pub open spec fn log_of_reports(pending: Seq<PendingSwap>, ready: Seq<u64>, m: nat) -> Seq<
    PendingSwap,
>
    decreases m,
{
    if m == 0 {
        Seq::empty()
    } else {
        log_of_reports(pending, ready, (m - 1) as nat) + log_of_swaps(
            pending,
            ready[m - 1],
            pending.len(),
        )
    }
}

/// The releases among the first `n` swaps: one for each swap whose new mesh
/// was reported.
pub open spec fn log_of_releases(pending: Seq<PendingSwap>, ready: Seq<u64>, n: nat) -> Seq<
    PendingSwap,
>
    decreases n,
{
    if n == 0 {
        Seq::empty()
    } else {
        let before = log_of_releases(pending, ready, (n - 1) as nat);
        if is_ready(ready, ready.len() as int, pending[n - 1].new_mesh) {
            before.push(reached(pending[n - 1], SwapState::Retired))
        } else {
            before
        }
    }
}

/// Those of the first `n` swaps whose new mesh was not reported, in order.
pub open spec fn still_pending(pending: Seq<PendingSwap>, ready: Seq<u64>, n: nat) -> Seq<
    PendingSwap,
>
    decreases n,
{
    if n == 0 {
        Seq::empty()
    } else {
        let before = still_pending(pending, ready, (n - 1) as nat);
        if is_ready(ready, ready.len() as int, pending[n - 1].new_mesh) {
            before
        } else {
            before.push(pending[n - 1])
        }
    }
}

/// Everything one processing step does, in the order it does it: first what
/// the reports do, then the releases.
pub open spec fn log_of_step(pending: Seq<PendingSwap>, ready: Seq<u64>) -> Seq<PendingSwap> {
    log_of_reports(pending, ready, ready.len()) + log_of_releases(pending, ready, pending.len())
}

impl MeshSwapCoordinator {
    /// Between two processing steps every swap waits for its report.
    pub open spec fn wf(self) -> bool {
        forall|k: int|
            0 <= k < self.pending@.len() ==> (#[trigger] self.pending@[k]).state
                == SwapState::Requested
    }

    pub fn new() -> (r: Self)
        ensures
            r.wf(),
            r.pending@ == Seq::<PendingSwap>::empty(),
    {
        Self { pending: Vec::new() }
    }

    /// Records that `new_mesh` was handed to the renderer to take the place
    /// of `old_mesh`.
    pub fn request(&mut self, old_mesh: u64, new_mesh: u64)
        requires
            old(self).wf(),
        ensures
            final(self).wf(),
            final(self).pending@ == old(self).pending@.push(
                PendingSwap { old_mesh, new_mesh, state: SwapState::Requested },
            ),
    {
        self.pending.push(PendingSwap { old_mesh, new_mesh, state: SwapState::Requested });
    }

    /// One processing step.  `ready` holds the identities of the meshes that
    /// the renderer reported since the last step, `display` the mesh that
    /// each display entry shows.  Every report is held against every waiting
    /// swap, by identity: a swap whose new mesh it names is applied, which
    /// repoints each display entry that shows its old mesh.  A report that
    /// names no waiting swap does nothing.  After all reports the old mesh of
    /// each applied swap is released and the swap is dropped; the others go
    /// on waiting.  The result is the log of the step.
    pub fn replace_meshes(&mut self, ready: &Vec<u64>, display: &mut Vec<u64>) -> (log: Vec<
        PendingSwap,
    >)
        requires
            old(self).wf(),
        ensures
            final(self).wf(),
            final(display)@ == display_after_reports(
                old(display)@,
                old(self).pending@,
                ready@,
                ready@.len(),
            ),
            final(display)@.len() == old(display)@.len(),
            log@ == log_of_step(old(self).pending@, ready@),
            final(self).pending@ == still_pending(
                old(self).pending@,
                ready@,
                old(self).pending@.len(),
            ),
    {
        let ghost pending0 = self.pending@;
        let ghost display0 = display@;
        let mut log: Vec<PendingSwap> = Vec::new();
        let mut e: usize = 0;
        while e < ready.len()
            invariant
                0 <= e <= ready@.len(),
                self.pending@.len() == pending0.len(),
                display@.len() == display0.len(),
                forall|k: int|
                    0 <= k < pending0.len() ==> (#[trigger] self.pending@[k]) == reached(
                        pending0[k],
                        if is_ready(ready@, e as int, pending0[k].new_mesh) {
                            SwapState::Applied
                        } else {
                            SwapState::Requested
                        },
                    ),
                forall|k: int|
                    0 <= k < pending0.len() ==> (#[trigger] pending0[k]).state
                        == SwapState::Requested,
                display@ == display_after_reports(display0, pending0, ready@, e as nat),
                log@ == log_of_reports(pending0, ready@, e as nat),
            decreases ready@.len() - e,
        {
            let id: u64 = ready[e];
            let ghost display1 = display@;
            let ghost log1 = log@;
            let mut k: usize = 0;
            while k < self.pending.len()
                invariant
                    0 <= e < ready@.len(),
                    id == ready@[e as int],
                    0 <= k <= pending0.len(),
                    self.pending@.len() == pending0.len(),
                    display@.len() == display0.len(),
                    forall|j: int|
                        0 <= j < pending0.len() ==> (#[trigger] self.pending@[j]) == reached(
                            pending0[j],
                            if is_ready(ready@, e as int, pending0[j].new_mesh) || (j < k
                                && pending0[j].new_mesh == id) {
                                SwapState::Applied
                            } else {
                                SwapState::Requested
                            },
                        ),
                    display@ == display_after_swaps(display1, pending0, id, k as nat),
                    log@ == log1 + log_of_swaps(pending0, id, k as nat),
                decreases pending0.len() - k,
            {
                let swap = self.pending[k];
                if swap.new_mesh == id {
                    repoint_all(display, swap.old_mesh, swap.new_mesh);
                    self.pending.set(
                        k,
                        PendingSwap {
                            old_mesh: swap.old_mesh,
                            new_mesh: swap.new_mesh,
                            state: SwapState::Applied,
                        },
                    );
                    log.push(
                        PendingSwap {
                            old_mesh: swap.old_mesh,
                            new_mesh: swap.new_mesh,
                            state: SwapState::Ready,
                        },
                    );
                    log.push(
                        PendingSwap {
                            old_mesh: swap.old_mesh,
                            new_mesh: swap.new_mesh,
                            state: SwapState::Applied,
                        },
                    );
                }
                k = k + 1;
                assert(log@ =~= log1 + log_of_swaps(pending0, id, k as nat));
            }
            e = e + 1;
        }
        let ghost log2 = log@;
        let mut keep: Vec<PendingSwap> = Vec::new();
        let mut k: usize = 0;
        while k < self.pending.len()
            invariant
                0 <= k <= pending0.len(),
                self.pending@.len() == pending0.len(),
                forall|j: int|
                    0 <= j < pending0.len() ==> (#[trigger] self.pending@[j]) == reached(
                        pending0[j],
                        if is_ready(ready@, ready@.len() as int, pending0[j].new_mesh) {
                            SwapState::Applied
                        } else {
                            SwapState::Requested
                        },
                    ),
                forall|j: int|
                    0 <= j < pending0.len() ==> (#[trigger] pending0[j]).state
                        == SwapState::Requested,
                forall|j: int|
                    0 <= j < keep@.len() ==> (#[trigger] keep@[j]).state == SwapState::Requested,
                keep@ == still_pending(pending0, ready@, k as nat),
                log@ == log2 + log_of_releases(pending0, ready@, k as nat),
            decreases pending0.len() - k,
        {
            let swap = self.pending[k];
            match swap.state {
                SwapState::Applied => {
                    log.push(
                        PendingSwap {
                            old_mesh: swap.old_mesh,
                            new_mesh: swap.new_mesh,
                            state: SwapState::Retired,
                        },
                    );
                },
                _ => {
                    keep.push(swap);
                },
            }
            k = k + 1;
            assert(log@ =~= log2 + log_of_releases(pending0, ready@, k as nat));
        }
        self.pending = keep;
        log
    }
}

/// Repoints every display entry that shows `old_mesh` to `new_mesh`.
fn repoint_all(display: &mut Vec<u64>, old_mesh: u64, new_mesh: u64)
    ensures
        final(display)@ == repoint(old(display)@, old_mesh, new_mesh),
{
    let ghost display0 = display@;
    let mut i: usize = 0;
    while i < display.len()
        invariant
            0 <= i <= display0.len(),
            display@.len() == display0.len(),
            forall|j: int| 0 <= j < i ==> #[trigger] display@[j] == repoint(display0, old_mesh, new_mesh)[j],
            forall|j: int| i <= j < display0.len() ==> #[trigger] display@[j] == display0[j],
        decreases display0.len() - i,
    {
        if display[i] == old_mesh {
            display.set(i, new_mesh);
        }
        i = i + 1;
    }
    assert(display@ =~= repoint(display0, old_mesh, new_mesh));
}

/// Entries `i - 1` and `i` of `log` record that `swap` became ready and was
/// applied.
pub open spec fn applied_at(log: Seq<PendingSwap>, swap: PendingSwap, i: int) -> bool {
    &&& 1 <= i < log.len()
    &&& log[i - 1] == reached(swap, SwapState::Ready)
    &&& log[i] == reached(swap, SwapState::Applied)
}

/// No release comes before its swap was applied, and no swap is applied
/// before its new mesh was reported: in the log of a step, every entry that
/// records a release has before it the entry that records the same swap
/// being applied, right after the one that records it becoming ready, and
/// the new mesh of the swap is among the reports.  The result is the place of
/// the applied entry.
pub proof fn lemma_retired_after_applied(pending: Seq<PendingSwap>, ready: Seq<u64>, j: int) -> (i:
    int)
    requires
        0 <= j < log_of_step(pending, ready).len(),
        log_of_step(pending, ready)[j].state == SwapState::Retired,
    ensures
        i < j,
        applied_at(log_of_step(pending, ready), log_of_step(pending, ready)[j], i),
        is_ready(ready, ready.len() as int, log_of_step(pending, ready)[j].new_mesh),
{
    let reports = log_of_reports(pending, ready, ready.len());
    let releases = log_of_releases(pending, ready, pending.len());
    if j < reports.len() {
        // An entry among the reports records no release.
        lemma_reports_log_states(pending, ready, ready.len(), j);
    }
    assert(j >= reports.len());
    let k = lemma_release_source(pending, ready, pending.len(), j - reports.len());
    let e = choose|e: int| 0 <= e < ready.len() && #[trigger] ready[e] == pending[k].new_mesh;
    let i = lemma_reports_log_applies(pending, ready, ready.len(), e, k);
    i
}

/// A report that names the new mesh of no waiting swap does nothing: where
/// no swap waits for any of the reported meshes, the step leaves the display
/// and the waiting swaps as they were, and its log is empty.
pub proof fn lemma_unmatched_reports_do_nothing(
    display: Seq<u64>,
    pending: Seq<PendingSwap>,
    ready: Seq<u64>,
)
    requires
        forall|k: int|
            0 <= k < pending.len() ==> !is_ready(
                ready,
                ready.len() as int,
                (#[trigger] pending[k]).new_mesh,
            ),
    ensures
        display_after_reports(display, pending, ready, ready.len()) == display,
        still_pending(pending, ready, pending.len()) == pending,
        log_of_step(pending, ready) == Seq::<PendingSwap>::empty(),
{
    lemma_unmatched_reports(display, pending, ready, ready.len());
    lemma_unmatched_swaps(pending, ready, pending.len());
    assert(still_pending(pending, ready, pending.len()) =~= pending);
    assert(log_of_step(pending, ready) =~= Seq::<PendingSwap>::empty());
}

proof fn lemma_unmatched_report(display: Seq<u64>, pending: Seq<PendingSwap>, id: u64, n: nat)
    requires
        n <= pending.len(),
        forall|k: int| 0 <= k < pending.len() ==> (#[trigger] pending[k]).new_mesh != id,
    ensures
        display_after_swaps(display, pending, id, n) == display,
        log_of_swaps(pending, id, n) == Seq::<PendingSwap>::empty(),
    decreases n,
{
    if n > 0 {
        lemma_unmatched_report(display, pending, id, (n - 1) as nat);
    }
}

proof fn lemma_unmatched_reports(
    display: Seq<u64>,
    pending: Seq<PendingSwap>,
    ready: Seq<u64>,
    m: nat,
)
    requires
        m <= ready.len(),
        forall|k: int|
            0 <= k < pending.len() ==> !is_ready(
                ready,
                ready.len() as int,
                (#[trigger] pending[k]).new_mesh,
            ),
    ensures
        display_after_reports(display, pending, ready, m) == display,
        log_of_reports(pending, ready, m) == Seq::<PendingSwap>::empty(),
    decreases m,
{
    if m > 0 {
        lemma_unmatched_reports(display, pending, ready, (m - 1) as nat);
        let id = ready[m - 1];
        assert forall|k: int| 0 <= k < pending.len() implies (#[trigger] pending[k]).new_mesh
            != id by {
            if pending[k].new_mesh == id {
                assert(is_ready(ready, ready.len() as int, pending[k].new_mesh));
            }
        }
        lemma_unmatched_report(display, pending, id, pending.len());
        assert(log_of_reports(pending, ready, m) =~= Seq::<PendingSwap>::empty());
    }
}

proof fn lemma_unmatched_swaps(pending: Seq<PendingSwap>, ready: Seq<u64>, n: nat)
    requires
        n <= pending.len(),
        forall|k: int|
            0 <= k < pending.len() ==> !is_ready(
                ready,
                ready.len() as int,
                (#[trigger] pending[k]).new_mesh,
            ),
    ensures
        still_pending(pending, ready, n) == pending.subrange(0, n as int),
        log_of_releases(pending, ready, n) == Seq::<PendingSwap>::empty(),
    decreases n,
{
    if n > 0 {
        lemma_unmatched_swaps(pending, ready, (n - 1) as nat);
        assert(pending[n - 1].new_mesh == pending[n - 1].new_mesh);
        assert(still_pending(pending, ready, n) =~= pending.subrange(0, n as int));
    } else {
        assert(still_pending(pending, ready, n) =~= pending.subrange(0, n as int));
    }
}

/// Every entry that a report leaves in the log records a swap becoming ready
/// or being applied.
proof fn lemma_swaps_log_states(pending: Seq<PendingSwap>, id: u64, n: nat, i: int)
    requires
        n <= pending.len(),
        0 <= i < log_of_swaps(pending, id, n).len(),
    ensures
        log_of_swaps(pending, id, n)[i].state != SwapState::Retired,
    decreases n,
{
    if n > 0 {
        let before = log_of_swaps(pending, id, (n - 1) as nat);
        if i < before.len() {
            lemma_swaps_log_states(pending, id, (n - 1) as nat, i);
        }
    }
}

proof fn lemma_reports_log_states(pending: Seq<PendingSwap>, ready: Seq<u64>, m: nat, i: int)
    requires
        m <= ready.len(),
        0 <= i < log_of_reports(pending, ready, m).len(),
    ensures
        log_of_reports(pending, ready, m)[i].state != SwapState::Retired,
    decreases m,
{
    if m > 0 {
        let before = log_of_reports(pending, ready, (m - 1) as nat);
        if i < before.len() {
            lemma_reports_log_states(pending, ready, (m - 1) as nat, i);
        } else {
            lemma_swaps_log_states(pending, ready[m - 1], pending.len(), i - before.len());
        }
    }
}

/// The swap that a release in the log belongs to.
proof fn lemma_release_source(pending: Seq<PendingSwap>, ready: Seq<u64>, n: nat, j: int) -> (k:
    int)
    requires
        n <= pending.len(),
        0 <= j < log_of_releases(pending, ready, n).len(),
    ensures
        0 <= k < n,
        log_of_releases(pending, ready, n)[j] == reached(pending[k], SwapState::Retired),
        is_ready(ready, ready.len() as int, pending[k].new_mesh),
    decreases n,
{
    let before = log_of_releases(pending, ready, (n - 1) as nat);
    if j < before.len() {
        lemma_release_source(pending, ready, (n - 1) as nat, j)
    } else {
        n as int - 1
    }
}

/// Where the report `id` names the new mesh of swap `k`, its log holds the
/// swap becoming ready and being applied.
proof fn lemma_swaps_log_applies(pending: Seq<PendingSwap>, id: u64, n: nat, k: int) -> (i: int)
    requires
        0 <= k < n <= pending.len(),
        pending[k].new_mesh == id,
    ensures
        applied_at(log_of_swaps(pending, id, n), pending[k], i),
    decreases n,
{
    let before = log_of_swaps(pending, id, (n - 1) as nat);
    if k == n - 1 {
        before.len() as int + 1
    } else {
        lemma_swaps_log_applies(pending, id, (n - 1) as nat, k)
    }
}

proof fn lemma_reports_log_applies(
    pending: Seq<PendingSwap>,
    ready: Seq<u64>,
    m: nat,
    e: int,
    k: int,
) -> (i: int)
    requires
        0 <= e < m <= ready.len(),
        0 <= k < pending.len(),
        pending[k].new_mesh == ready[e],
    ensures
        applied_at(log_of_reports(pending, ready, m), pending[k], i),
    decreases m,
{
    let before = log_of_reports(pending, ready, (m - 1) as nat);
    if e == m - 1 {
        let i = lemma_swaps_log_applies(pending, ready[e], pending.len(), k);
        before.len() as int + i
    } else {
        lemma_reports_log_applies(pending, ready, (m - 1) as nat, e, k)
    }
}

} // verus!
