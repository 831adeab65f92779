use vstd::prelude::*;
use crate::completion::{
    CellModel, CompletionCell, PollStatus, observe_model, poll_model, poll_status_model,
    publish_model,
};
use crate::fifo::fifo_pop;

verus! {

/// What a block request asks for.
#[derive(Debug, Clone, Copy, PartialEq, Eq)]
pub enum BlockOp {
    Read,
    Write,
}

/// Outcome of a block operation, as published by its completer.
pub type ReqResult = i32;

/// One in-flight unit of block work: an identifier (assigned at submission,
/// monotonically increasing, never reused), the operation, the target block
/// range, and the caller's buffer. The descriptor owns the buffer for the
/// whole life of the operation: the completer reads or fills it, and the
/// issuer gets it back only by reclaiming the completed descriptor.
pub struct BlockRequest {
    pub id: u64,
    pub op: BlockOp,
    pub lba: u64,
    pub blocks: u32,
    pub buf: Vec<u8>,
}

/// Mathematical state of a block request.
pub struct BlockRequestModel {
    pub id: u64,
    pub op: BlockOp,
    pub lba: u64,
    pub blocks: u32,
    pub buf: Seq<u8>,
}

impl View for BlockRequest {
    type V = BlockRequestModel;

    open spec fn view(&self) -> BlockRequestModel {
        BlockRequestModel {
            id: self.id,
            op: self.op,
            lba: self.lba,
            blocks: self.blocks,
            buf: self.buf@,
        }
    }
}

impl BlockRequest {
    /// A fresh descriptor over the caller's buffer. The identifier is
    /// assigned when the descriptor is submitted; until then it is zero.
    pub fn new(op: BlockOp, lba: u64, blocks: u32, buf: Vec<u8>) -> (req: Self)
        ensures
            req@ == (BlockRequestModel { id: 0u64, op, lba, blocks, buf: buf@ }),
    {
        BlockRequest { id: 0, op, lba, blocks, buf }
    }
}

/// An option of descriptors as an option of their models.
pub open spec fn opt_req_model(r: Option<BlockRequest>) -> Option<BlockRequestModel> {
    match r {
        Some(req) => Some(req@),
        None => None,
    }
}

/// Whether some descriptor in `s` carries `id`.
pub open spec fn holds_id(s: Seq<BlockRequestModel>, id: u64) -> bool {
    exists|i: int| 0 <= i < s.len() && (#[trigger] s[i]).id == id
}

/// No two descriptors in `s` share an identifier.
pub open spec fn distinct_ids(s: Seq<BlockRequestModel>) -> bool {
    forall|i: int, j: int| 0 <= i < j < s.len() ==> (#[trigger] s[i]).id != (#[trigger] s[j]).id
}

/// The pending-request ledger and completion table, the handoff surface
/// between issuers and completers.
///
/// Submission appends a descriptor to the FIFO ledger and opens a completion
/// cell for its identifier; a completer takes descriptors out (oldest first,
/// or all at once), performs the work, and publishes each result into the
/// matching cell; the issuer polls through its future and finally reclaims
/// the completed descriptor, buffer included. Cells are indexed by the
/// identifier, so identifiers are never reused.
pub struct RequestQueue<W> {
    pending: Vec<BlockRequest>,
    cells: Vec<CompletionCell<W>>,
    done: Vec<BlockRequest>,
}

impl<W> RequestQueue<W> {
    /// The FIFO ledger of submitted, not-yet-taken descriptors.
    pub closed spec fn pending_view(self) -> Seq<BlockRequestModel> {
        self.pending@.map_values(|r: BlockRequest| r@)
    }

    /// Completed descriptors awaiting reclamation.
    pub closed spec fn done_view(self) -> Seq<BlockRequestModel> {
        self.done@.map_values(|r: BlockRequest| r@)
    }

    /// One completion cell per identifier ever issued.
    pub closed spec fn cells_view(self) -> Seq<CellModel<W>> {
        self.cells@.map_values(|c: CompletionCell<W>| c@)
    }

    /// How many identifiers have been issued; the next submission gets this
    /// value.
    pub open spec fn issued(self) -> int {
        self.cells_view().len() as int
    }

    /// The completion cell of `id` (meaningful for issued identifiers).
    pub open spec fn cell_of(self, id: u64) -> CellModel<W> {
        self.cells_view()[id as int]
    }

    /// Well-formedness: every tracked descriptor has an issued identifier and
    /// its own cell; identifiers are unique across the ledger and the
    /// completed list; ledger descriptors are not yet completed, reclaimable
    /// ones are.
    pub open spec fn wf(self) -> bool {
        &&& forall|i: int|
            0 <= i < self.pending_view().len() ==> ((#[trigger] self.pending_view()[i]).id as int) < self.issued()
        &&& forall|i: int|
            0 <= i < self.done_view().len() ==> ((#[trigger] self.done_view()[i]).id as int) < self.issued()
        &&& distinct_ids(self.pending_view())
        &&& distinct_ids(self.done_view())
        &&& forall|i: int|
            0 <= i < self.pending_view().len() ==> !holds_id(
                self.done_view(),
                (#[trigger] self.pending_view()[i]).id,
            )
        &&& forall|i: int|
            0 <= i < self.pending_view().len() ==> !self.cells_view()[(
            #[trigger] self.pending_view()[i]).id as int].completed
        &&& forall|i: int|
            0 <= i < self.done_view().len() ==> self.cells_view()[(
            #[trigger] self.done_view()[i]).id as int].completed
    }

    /// An empty ledger: nothing pending, nothing completed, no identifier
    /// issued yet.
    pub fn new() -> (q: Self)
        ensures
            q.wf(),
            q.pending_view() == Seq::<BlockRequestModel>::empty(),
            q.done_view() == Seq::<BlockRequestModel>::empty(),
            q.cells_view() == Seq::<CellModel<W>>::empty(),
    {
        let q = RequestQueue { pending: Vec::new(), cells: Vec::new(), done: Vec::new() };
        proof {
            assert(q.pending_view() =~= Seq::<BlockRequestModel>::empty());
            assert(q.done_view() =~= Seq::<BlockRequestModel>::empty());
            assert(q.cells_view() =~= Seq::<CellModel<W>>::empty());
        }
        q
    }

    /// Append `req` to the tail of the ledger under a fresh identifier, open
    /// its completion cell, and hand back the future that awaits it.
    pub fn submit(&mut self, req: BlockRequest) -> (fut: RequestFuture)
        requires
            old(self).wf(),
        ensures
            final(self).wf(),
            fut.id_spec() as int == old(self).issued(),
            final(self).issued() == old(self).issued() + 1,
            final(self).cells_view() == old(self).cells_view().push(
                CellModel { completed: false, result: -1i32, waker: None::<W> },
            ),
            final(self).pending_view() == old(self).pending_view().push(
                BlockRequestModel {
                    id: fut.id_spec(),
                    op: req.op,
                    lba: req.lba,
                    blocks: req.blocks,
                    buf: req.buf@,
                },
            ),
            final(self).done_view() == old(self).done_view(),
    {
        let id = self.cells.len() as u64;
        let mut entry = req;
        entry.id = id;
        let ghost entry_model = entry@;
        self.cells.push(CompletionCell::new());
        self.pending.push(entry);
        proof {
            assert(self.cells_view() =~= old(self).cells_view().push(
                CellModel { completed: false, result: -1i32, waker: None::<W> },
            ));
            assert(self.pending_view() =~= old(self).pending_view().push(entry_model));
            assert(self.done_view() =~= old(self).done_view());
        }
        RequestFuture { id }
    }

    /// Remove and return the oldest ledger entry, if any; an empty ledger is
    /// left untouched. The returned descriptor is ready for completion: its
    /// cell is still pending and no tracked descriptor shares its identifier.
    pub fn pop_one(&mut self) -> (r: Option<BlockRequest>)
        requires
            old(self).wf(),
        ensures
            final(self).wf(),
            final(self).cells_view() == old(self).cells_view(),
            final(self).done_view() == old(self).done_view(),
            final(self).pending_view() == fifo_pop(old(self).pending_view()).0,
            opt_req_model(r) == fifo_pop(old(self).pending_view()).1,
            r is Some ==> {
                &&& (r.unwrap()@.id as int) < old(self).issued()
                &&& !old(self).cell_of(r.unwrap()@.id).completed
                &&& !holds_id(final(self).pending_view(), r.unwrap()@.id)
                &&& !holds_id(final(self).done_view(), r.unwrap()@.id)
            },
    {
        if self.pending.is_empty() {
            return None;
        }
        let req = self.pending.remove(0);
        proof {
            assert(self.pending_view() =~= old(self).pending_view().drop_first());
            assert(req@ == old(self).pending_view()[0]);
            assert forall|i: int| 0 <= i < self.pending_view().len() implies (
            #[trigger] self.pending_view()[i]).id != req@.id by {
                assert(self.pending_view()[i] == old(self).pending_view()[i + 1]);
            }
        }
        Some(req)
    }

    /// Remove and return every ledger entry at once, oldest first, leaving
    /// the ledger empty. Each returned descriptor is ready for completion.
    pub fn drain_all(&mut self) -> (out: Vec<BlockRequest>)
        requires
            old(self).wf(),
        ensures
            final(self).wf(),
            final(self).cells_view() == old(self).cells_view(),
            final(self).done_view() == old(self).done_view(),
            final(self).pending_view() == Seq::<BlockRequestModel>::empty(),
            out@.map_values(|r: BlockRequest| r@) == old(self).pending_view(),
            forall|i: int|
                0 <= i < out@.len() ==> {
                    &&& ((#[trigger] out@[i])@.id as int) < old(self).issued()
                    &&& !old(self).cell_of(out@[i]@.id).completed
                    &&& !holds_id(old(self).done_view(), out@[i]@.id)
                },
            distinct_ids(out@.map_values(|r: BlockRequest| r@)),
    {
        let mut out: Vec<BlockRequest> = Vec::new();
        core::mem::swap(&mut out, &mut self.pending);
        proof {
            assert(self.pending_view() =~= Seq::<BlockRequestModel>::empty());
            assert(out@.map_values(|r: BlockRequest| r@) =~= old(self).pending_view());
            assert forall|i: int| 0 <= i < out@.len() implies {
                &&& (((#[trigger] out@[i])@.id) as int) < old(self).issued()
                &&& !old(self).cell_of(out@[i]@.id).completed
                &&& !holds_id(old(self).done_view(), out@[i]@.id)
            } by {
                assert(out@[i]@ == old(self).pending_view()[i]);
            }
        }
        out
    }

    /// Publish `res` for the descriptor `req`, which the caller took from
    /// this ledger: its result becomes observable, the descriptor (with
    /// whatever the completer wrote into its buffer) becomes reclaimable,
    /// and the registered waiter, if any, is handed back for notification.
    pub fn complete(&mut self, req: BlockRequest, res: ReqResult) -> (wake: Option<W>)
        requires
            old(self).wf(),
            (req.id as int) < old(self).issued(),
            !old(self).cell_of(req.id).completed,
            !holds_id(old(self).pending_view(), req.id),
            !holds_id(old(self).done_view(), req.id),
        ensures
            final(self).wf(),
            final(self).issued() == old(self).issued(),
            final(self).pending_view() == old(self).pending_view(),
            final(self).cells_view() == old(self).cells_view().update(
                req.id as int,
                publish_model(old(self).cell_of(req.id), res).0,
            ),
            wake == publish_model(old(self).cell_of(req.id), res).1,
            final(self).done_view() == old(self).done_view().push(req@),
    {
        let n = self.cells.len();
        assert(req.id < n);
        let idx = req.id as usize;
        let wake = self.cells[idx].complete(res);
        let ghost req_model = req@;
        self.done.push(req);
        proof {
            assert(self.cells_view() =~= old(self).cells_view().update(
                req_model.id as int,
                publish_model(old(self).cell_of(req_model.id), res).0,
            ));
            assert(self.done_view() =~= old(self).done_view().push(req_model));
            assert(self.pending_view() =~= old(self).pending_view());
            let s = old(self).done_view();
            let t = self.done_view();
            assert forall|i: int| 0 <= i < self.pending_view().len() implies !holds_id(
                t,
                (#[trigger] self.pending_view()[i]).id,
            ) by {
                let pid = self.pending_view()[i].id;
                assert(!holds_id(s, pid));
                assert(pid != req_model.id);
                if holds_id(t, pid) {
                    let k = choose|k: int| 0 <= k < t.len() && (#[trigger] t[k]).id == pid;
                    assert(k < s.len() ==> s[k].id == pid);
                }
            }
        }
        wake
    }

    /// How many identifiers have been issued so far; exactly those below the
    /// count are tracked.
    pub fn issued_count(&self) -> (n: usize)
        ensures
            n as int == self.issued(),
    {
        self.cells.len()
    }

    /// Non-blocking observation of an issued identifier: the published
    /// result once its completion is visible, nothing before.
    pub fn try_result(&self, id: u64) -> (r: Option<ReqResult>)
        requires
            (id as int) < self.issued(),
        ensures
            r == observe_model(self.cell_of(id)),
    {
        let n = self.cells.len();
        assert(id < n);
        let idx = id as usize;
        self.cells[idx].try_result()
    }

    /// Take back the completed descriptor carrying `id`, buffer and all, if
    /// its completion has been published; otherwise nothing changes. Asking
    /// again for an identifier already reclaimed (or never issued) yields
    /// nothing.
    pub fn reclaim(&mut self, id: u64) -> (r: Option<BlockRequest>)
        requires
            old(self).wf(),
        ensures
            final(self).wf(),
            final(self).pending_view() == old(self).pending_view(),
            final(self).cells_view() == old(self).cells_view(),
            !holds_id(old(self).done_view(), id) ==> r is None && final(self).done_view() == old(
                self,
            ).done_view(),
            holds_id(old(self).done_view(), id) ==> exists|i: int|
                {
                    &&& 0 <= i < old(self).done_view().len()
                    &&& (#[trigger] old(self).done_view()[i]).id == id
                    &&& opt_req_model(r) == Some(old(self).done_view()[i])
                    &&& final(self).done_view() == old(self).done_view().remove(i)
                },
    {
        let mut i: usize = 0;
        while i < self.done.len()
            invariant
                i <= self.done.len(),
                old(self).wf(),
                *self == *old(self),
                forall|j: int| 0 <= j < i ==> (#[trigger] self.done_view()[j]).id != id,
            decreases self.done.len() - i,
        {
            if self.done[i].id == id {
                let ghost hit = i as int;
                let ghost s = old(self).done_view();
                let req = self.done.remove(i);
                proof {
                    assert(req@ == s[hit]);
                    assert(self.done_view() =~= s.remove(hit));
                    lemma_remove_keeps_distinct(s, hit);
                    let t = self.done_view();
                    assert forall|k: int|
                        0 <= k < self.pending_view().len() implies !holds_id(
                        t,
                        (#[trigger] self.pending_view()[k]).id,
                    ) by {
                        let pid = self.pending_view()[k].id;
                        assert(!holds_id(s, pid));
                        if holds_id(t, pid) {
                            let j = choose|j: int| 0 <= j < t.len() && (#[trigger] t[j]).id == pid;
                            assert(j < hit ==> s[j].id == pid);
                            assert(j >= hit ==> s[j + 1].id == pid);
                        }
                    }
                    assert(0 <= hit < s.len() && s[hit].id == id && opt_req_model(Some(req))
                        == Some(s[hit]) && self.done_view() == s.remove(hit));
                }
                return Some(req);
            }
            i = i + 1;
        }
        proof {
            assert(!holds_id(self.done_view(), id));
        }
        None
    }
}

/// Removing one descriptor keeps the rest's identifiers distinct, and every
/// survivor is one of the original entries, shifted past the gap.
proof fn lemma_remove_keeps_distinct(s: Seq<BlockRequestModel>, at: int)
    requires
        0 <= at < s.len(),
        distinct_ids(s),
    ensures
        distinct_ids(s.remove(at)),
        forall|i: int| 0 <= i < at ==> #[trigger] s.remove(at)[i] == s[i],
        forall|i: int| at <= i < s.len() - 1 ==> #[trigger] s.remove(at)[i] == s[i + 1],
{
    s.remove_ensures(at);
    assert forall|i: int, j: int| 0 <= i < j < s.remove(at).len() implies (
    #[trigger] s.remove(at)[i]).id != (#[trigger] s.remove(at)[j]).id by {
        let i0 = if i < at {
            i
        } else {
            i + 1
        };
        let j0 = if j < at {
            j
        } else {
            j + 1
        };
        assert(s.remove(at)[i] == s[i0]);
        assert(s.remove(at)[j] == s[j0]);
    }
}

/// Single-waiter future over one submitted descriptor: the issuer's handle
/// for polling the operation to completion through the ledger that tracks it.
pub struct RequestFuture {
    id: u64,
}

impl RequestFuture {
    /// The identifier of the awaited descriptor.
    pub closed spec fn id_spec(self) -> u64 {
        self.id
    }

    /// A future awaiting the descriptor with identifier `id`.
    pub fn new(id: u64) -> (fut: Self)
        ensures
            fut.id_spec() == id,
    {
        RequestFuture { id }
    }

    /// The identifier of the awaited descriptor.
    pub fn id(&self) -> (id: u64)
        ensures
            id == self.id_spec(),
    {
        self.id
    }

    /// One poll step against the ledger tracking the awaited descriptor:
    /// check, register the caller's waker, check again (the re-check closes
    /// the race with a completer publishing between check and registration),
    /// and report the result or the need to suspend.
    pub fn poll<W>(&self, q: &mut RequestQueue<W>, w: W) -> (r: PollStatus<ReqResult>)
        requires
            old(q).wf(),
            (self.id_spec() as int) < old(q).issued(),
        ensures
            final(q).wf(),
            final(q).issued() == old(q).issued(),
            final(q).pending_view() == old(q).pending_view(),
            final(q).done_view() == old(q).done_view(),
            final(q).cells_view() == old(q).cells_view().update(
                self.id_spec() as int,
                poll_model(old(q).cell_of(self.id_spec()), w).0,
            ),
            poll_status_model(r) == poll_model(old(q).cell_of(self.id_spec()), w).1,
    {
        let n = q.cells.len();
        assert(self.id < n);
        let idx = self.id as usize;
        let res = q.cells[idx].poll(w);
        proof {
            assert(q.cells_view() =~= old(q).cells_view().update(
                self.id_spec() as int,
                poll_model(old(q).cell_of(self.id_spec()), w).0,
            ));
            assert(q.pending_view() =~= old(q).pending_view());
            assert(q.done_view() =~= old(q).done_view());
        }
        match res {
            Some(v) => PollStatus::Ready(v),
            None => PollStatus::Pending,
        }
    }
}

} // verus!
