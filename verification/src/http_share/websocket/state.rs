//! Uploads waiting for the user's answer, and the count of uploads in
//! progress; both are bounded.

use vstd::prelude::*;
use crate::keyed::KeyedList;
use crate::http_share::websocket::messages::{MAX_ACTIVE_UPLOADS, MAX_PENDING_UPLOADS};

verus! {

/// tokio's one-shot channel sender, carried as an opaque value.
#[verifier::external_type_specification]
#[verifier::external_body]
#[verifier::reject_recursive_types(T)]
pub struct ExOneshotSender<T>(tokio::sync::oneshot::Sender<T>);

/// An upload waiting for the user's answer.
pub struct PendingUpload {
    pub response_tx: tokio::sync::oneshot::Sender<bool>,
}

/// Shared state of the upload handling.
pub struct UploadState {
    pending: KeyedList<PendingUpload>,
    active_count: usize,
}

impl UploadState {
    /// The waiting uploads, by request id.
    pub closed spec fn pending(&self) -> Map<Seq<char>, PendingUpload> {
        self.pending@
    }

    /// The number of uploads in progress.
    pub closed spec fn active(&self) -> nat {
        self.active_count as nat
    }

    /// The table is well formed and both bounds hold.
    pub closed spec fn wf(&self) -> bool {
        &&& self.pending.wf()
        &&& self.pending@.len() <= MAX_PENDING_UPLOADS
        &&& self.active_count <= MAX_ACTIVE_UPLOADS
    }

    /// Both bounds hold in a well-formed state.
    pub proof fn lemma_bounds(&self)
        requires
            self.wf(),
        ensures
            self.pending().dom().finite(),
            self.pending().len() <= MAX_PENDING_UPLOADS,
            self.active() <= MAX_ACTIVE_UPLOADS,
    {
        self.pending.lemma_finite();
    }

    /// Nothing waiting, nothing in progress.
    pub fn new() -> (r: UploadState)
        ensures
            r.wf(),
            r.pending() == Map::<Seq<char>, PendingUpload>::empty(),
            r.active() == 0,
    {
        UploadState { pending: KeyedList::new(), active_count: 0 }
    }

    /// Number of uploads waiting for an answer.
    pub fn pending_count(&self) -> (n: usize)
        requires
            self.wf(),
        ensures
            n == self.pending().len(),
    {
        self.pending.len()
    }

    /// Number of uploads in progress.
    pub fn active_count(&self) -> (n: usize)
        ensures
            n == self.active(),
    {
        self.active_count
    }

    /// Record an upload waiting for an answer, unless `MAX_PENDING_UPLOADS`
    /// are already waiting.
    pub fn try_add_request(
        &mut self,
        request_id: String,
        response_tx: tokio::sync::oneshot::Sender<bool>,
    ) -> (r: bool)
        requires
            old(self).wf(),
        ensures
            final(self).wf(),
            final(self).active() == old(self).active(),
            r == (old(self).pending().len() < MAX_PENDING_UPLOADS),
            r ==> final(self).pending() == old(self).pending().insert(
                request_id@,
                (PendingUpload { response_tx }),
            ),
            !r ==> final(self).pending() == old(self).pending(),
    {
        if self.pending.len() >= MAX_PENDING_UPLOADS {
            return false;
        }
        let ghost before = self.pending@;
        self.pending.insert(request_id, PendingUpload { response_tx });
        proof {
            self.pending.lemma_finite();
            assert(self.pending@.dom() =~= before.dom().insert(request_id@));
            vstd::set_lib::lemma_len_subset(before.dom(), before.dom().insert(request_id@));
        }
        true
    }

    /// Take an upload slot, unless `MAX_ACTIVE_UPLOADS` uploads are in
    /// progress.
    pub fn try_acquire_active_slot(&mut self) -> (r: bool)
        requires
            old(self).wf(),
        ensures
            final(self).wf(),
            final(self).pending() == old(self).pending(),
            r == (old(self).active() < MAX_ACTIVE_UPLOADS),
            r ==> final(self).active() == old(self).active() + 1,
            !r ==> final(self).active() == old(self).active(),
    {
        if self.active_count < MAX_ACTIVE_UPLOADS {
            self.active_count = self.active_count + 1;
            true
        } else {
            false
        }
    }

    /// Give an upload slot back when the upload ends.
    pub fn release_active_slot(&mut self)
        requires
            old(self).wf(),
            old(self).active() > 0,
        ensures
            final(self).wf(),
            final(self).pending() == old(self).pending(),
            final(self).active() == old(self).active() - 1,
    {
        self.active_count = self.active_count - 1;
    }
}

/// Forget a waiting upload (it timed out or the browser left).
pub fn cleanup_pending(state: &mut UploadState, request_id: &str)
    requires
        old(state).wf(),
    ensures
        final(state).wf(),
        final(state).active() == old(state).active(),
        final(state).pending() == old(state).pending().remove(request_id@),
{
    let ghost before = state.pending@;
    proof {
        state.pending.lemma_finite();
    }
    let _ = state.pending.remove(request_id);
    proof {
        state.pending.lemma_finite();
        vstd::set_lib::lemma_len_subset(state.pending@.dom(), before.dom());
    }
}

/// Take the upload waiting under `request_id` out of the table, with the
/// answer to hand it: its channel and `accepted`, which the caller then
/// sends. An unknown id gives `None` and changes nothing.
pub fn respond_to_upload(state: &mut UploadState, request_id: &str, accepted: bool) -> (r: Option<
    (tokio::sync::oneshot::Sender<bool>, bool),
>)
    requires
        old(state).wf(),
    ensures
        final(state).wf(),
        final(state).active() == old(state).active(),
        final(state).pending() == old(state).pending().remove(request_id@),
        r is Some <==> old(state).pending().contains_key(request_id@),
        r matches Some((tx, a)) ==> tx == old(state).pending()[request_id@].response_tx && a
            == accepted,
{
    let ghost before = state.pending@;
    proof {
        state.pending.lemma_finite();
    }
    let taken = state.pending.remove(request_id);
    proof {
        state.pending.lemma_finite();
        vstd::set_lib::lemma_len_subset(state.pending@.dom(), before.dom());
    }
    match taken {
        Some(upload) => Some((upload.response_tx, accepted)),
        None => None,
    }
}

/// Answering (or dropping) a waiting upload makes room in a full table: a
/// request refused because `MAX_PENDING_UPLOADS` were waiting is accepted
/// once one of them has been answered.
pub proof fn answering_frees_a_place(m: Map<Seq<char>, PendingUpload>, request_id: Seq<char>)
    requires
        m.dom().finite(),
        m.len() == MAX_PENDING_UPLOADS,
        m.contains_key(request_id),
    ensures
        m.remove(request_id).len() < MAX_PENDING_UPLOADS,
{
}

} // verus!
