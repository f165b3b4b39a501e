//! The state that the image data set shares with its background loader: the
//! queue of requested images, the flag that asks for a redraw, and the mark
//! that a worker run is under way.
//!
//! The owner keeps one `LoaderState` behind one lock. The render thread
//! reaches it through the image data set; a worker reaches it only through
//! [`LoaderState::worker_next`] and [`LoaderState::worker_fill`], taking the
//! lock for each call and doing the slow work in between without it.

use vstd::prelude::*;

verus! {

/// A queue entry as contracts see it: the image id and, once the worker has
/// dealt with it, the pixels it found. Empty pixels say that it found none.
pub type Pending = (u64, Option<Seq<u16>>);

/// Some entry of the queue is for `id`.
pub open spec fn tracks(queue: Seq<Pending>, id: u64) -> bool {
    exists|i: int| 0 <= i < queue.len() && (#[trigger] queue[i]).0 == id
}

/// Entry `i` is the first one for `id`.
pub open spec fn is_first(queue: Seq<Pending>, id: u64, i: int) -> bool {
    &&& 0 <= i < queue.len()
    &&& queue[i].0 == id
    &&& forall|j: int| 0 <= j < i ==> (#[trigger] queue[j]).0 != id
}

/// Entry `i` is the first one that the worker has not dealt with yet.
pub open spec fn is_first_unfilled(queue: Seq<Pending>, i: int) -> bool {
    &&& 0 <= i < queue.len()
    &&& queue[i].1 is None
    &&& forall|j: int| 0 <= j < i ==> (#[trigger] queue[j]).1 is Some
}

/// The worker has dealt with every entry.
pub open spec fn all_filled(queue: Seq<Pending>) -> bool {
    forall|i: int| 0 <= i < queue.len() ==> (#[trigger] queue[i]).1 is Some
}

/// `post` is `pre` without its first entry for `id`; where `pre` has no
/// entry for `id`, the two are the same.
pub open spec fn forgets(pre: Seq<Pending>, id: u64, post: Seq<Pending>) -> bool {
    &&& forall|i: int| #[trigger] is_first(pre, id, i) ==> post == pre.remove(i)
    &&& !tracks(pre, id) ==> post == pre
}

/// No image id is queued twice.
pub open spec fn no_duplicate_ids(queue: Seq<Pending>) -> bool {
    forall|i: int, j: int|
        0 <= i < j < queue.len() ==> (#[trigger] queue[i]).0 != (#[trigger] queue[j]).0
}

/// `post` is `pre` after the worker's answer `pixels` for `id` went into the
/// first entry for it; where `pre` has no entry for `id`, the two are the
/// same.
pub open spec fn filled(pre: Seq<Pending>, id: u64, pixels: Seq<u16>, post: Seq<Pending>) -> bool {
    &&& forall|i: int| #[trigger] is_first(pre, id, i) ==> post == pre.update(i, (id, Some(pixels)))
    &&& !tracks(pre, id) ==> post == pre
}

/// A worker run is wanted: none is under way and something is queued.
pub open spec fn wants_worker(state: LoaderView) -> bool {
    !state.worker_active && state.pending.len() > 0
}

/// The state after the owner asked whether to start a worker run.
pub open spec fn worker_asked(state: LoaderView) -> LoaderView {
    LoaderView { worker_active: state.worker_active || wants_worker(state), ..state }
}

/// How many entries of the queue are for `id`.
pub open spec fn count_of(queue: Seq<Pending>, id: u64) -> nat
    decreases queue.len(),
{
    if queue.len() == 0 {
        0
    } else {
        count_of(queue.drop_last(), id) + if queue.last().0 == id {
            1nat
        } else {
            0nat
        }
    }
}

/// What a `LoaderState` holds.
pub ghost struct LoaderView {
    /// The requested images, oldest request first.
    pub pending: Seq<Pending>,
    /// The worker has filled an entry since the renderer last asked.
    pub need_update: bool,
    /// A worker run has been asked for and has not ended yet.
    pub worker_active: bool,
}

struct PendingEntry {
    id: u64,
    buf: Option<Vec<u16>>,
}

impl PendingEntry {
    spec fn view(&self) -> Pending {
        (
            self.id,
            match self.buf {
                Some(b) => Some(b@),
                None => None,
            },
        )
    }
}

/// The pending queue with its two flags.
pub struct LoaderState {
    pending: Vec<PendingEntry>,
    need_update: bool,
    worker_active: bool,
}

impl View for LoaderState {
    type V = LoaderView;

    closed spec fn view(&self) -> LoaderView {
        LoaderView {
            pending: Seq::new(self.pending@.len(), |i: int| self.pending@[i].view()),
            need_update: self.need_update,
            worker_active: self.worker_active,
        }
    }
}

impl LoaderState {
    /// Nothing requested, no redraw asked for, no worker running.
    pub fn new() -> (state: Self)
        ensures
            state@ == (LoaderView {
                pending: Seq::<Pending>::empty(),
                need_update: false,
                worker_active: false,
            }),
    {
        let state = LoaderState { pending: Vec::new(), need_update: false, worker_active: false };
        assert(state@.pending =~= Seq::<Pending>::empty());
        state
    }

    /// The number of queued requests.
    pub fn pending_len(&self) -> (n: usize)
        ensures
            n == self@.pending.len(),
    {
        self.pending.len()
    }

    /// Whether a worker run is under way.
    pub fn worker_active(&self) -> (active: bool)
        ensures
            active == self@.worker_active,
    {
        self.worker_active
    }

    /// Whether a redraw is asked for; the flag stays as it is.
    pub fn needs_update(&self) -> (raised: bool)
        ensures
            raised == self@.need_update,
    {
        self.need_update
    }

    /// The place of the first entry for `id`.
    pub fn position(&self, id: u64) -> (found: Option<usize>)
        ensures
            match found {
                Some(i) => is_first(self@.pending, id, i as int),
                None => !tracks(self@.pending, id),
            },
    {
        let mut i: usize = 0;
        while i < self.pending.len()
            invariant
                i <= self.pending@.len(),
                forall|j: int| 0 <= j < i ==> (#[trigger] self@.pending[j]).0 != id,
            decreases self.pending@.len() - i,
        {
            if self.pending[i].id == id {
                return Some(i);
            }
            i = i + 1;
        }
        None
    }

    /// Whether `id` is queued.
    pub fn is_pending(&self, id: u64) -> (queued: bool)
        ensures
            queued == tracks(self@.pending, id),
    {
        self.position(id).is_some()
    }

    /// Whether the worker has dealt with entry `idx`, and with what.
    pub fn buffer_at(&self, idx: usize) -> (buf: &Option<Vec<u16>>)
        requires
            idx < self@.pending.len(),
        ensures
            match *buf {
                Some(b) => self@.pending[idx as int].1 == Some(b@),
                None => self@.pending[idx as int].1 is None,
            },
    {
        &self.pending[idx].buf
    }

    /// Queues a request for `id`, behind the others.
    pub(crate) fn request(&mut self, id: u64)
        ensures
            final(self)@ == (LoaderView {
                pending: old(self)@.pending.push((id, None)),
                ..old(self)@
            }),
    {
        self.pending.push(PendingEntry { id, buf: None });
        assert(self@.pending =~= old(self)@.pending.push((id, None)));
    }

    /// Takes entry `idx` out of the queue.
    pub(crate) fn remove_at(&mut self, idx: usize)
        requires
            idx < old(self)@.pending.len(),
        ensures
            final(self)@ == (LoaderView {
                pending: old(self)@.pending.remove(idx as int),
                ..old(self)@
            }),
    {
        let _ = self.pending.remove(idx);
        assert(self@.pending =~= old(self)@.pending.remove(idx as int));
    }

    /// Takes the first entry for `id`, if there is one, out of the queue.
    pub(crate) fn forget(&mut self, id: u64)
        ensures
            forgets(old(self)@.pending, id, final(self)@.pending),
            final(self)@.need_update == old(self)@.need_update,
            final(self)@.worker_active == old(self)@.worker_active,
    {
        match self.position(id) {
            Some(idx) => {
                self.remove_at(idx);
            },
            None => {},
        }
    }

    /// Reads the redraw flag and lowers it.
    pub(crate) fn take_update(&mut self) -> (raised: bool)
        ensures
            raised == old(self)@.need_update,
            final(self)@ == (LoaderView { need_update: false, ..old(self)@ }),
    {
        let raised = self.need_update;
        self.need_update = false;
        raised
    }

    /// Marks a worker run as under way where one is wanted: none is running
    /// and something is queued. Says whether it did.
    pub(crate) fn start_worker(&mut self) -> (start: bool)
        ensures
            start == wants_worker(old(self)@),
            final(self)@ == worker_asked(old(self)@),
    {
        if self.worker_active || self.pending.len() == 0 {
            return false;
        }
        self.worker_active = true;
        true
    }

    /// The worker's question: which image next? The answer is the id of the
    /// first entry not dealt with yet. `None` says that there is none, and
    /// ends the run: the state is marked as having no worker.
    pub fn worker_next(&mut self) -> (next: Option<u64>)
        ensures
            match next {
                Some(id) => exists|i: int|
                    is_first_unfilled(old(self)@.pending, i) && (
                    #[trigger] old(self)@.pending[i]).0 == id,
                None => all_filled(old(self)@.pending),
            },
            final(self)@ == (LoaderView {
                worker_active: old(self)@.worker_active && next is Some,
                ..old(self)@
            }),
    {
        let mut i: usize = 0;
        while i < self.pending.len()
            invariant
                i <= self.pending@.len(),
                *self == *old(self),
                forall|j: int| 0 <= j < i ==> (#[trigger] self@.pending[j]).1 is Some,
            decreases self.pending@.len() - i,
        {
            if self.pending[i].buf.is_none() {
                assert(is_first_unfilled(self@.pending, i as int));
                return Some(self.pending[i].id);
            }
            i = i + 1;
        }
        self.worker_active = false;
        None
    }

    /// The worker's answer for `id`: `buf` goes into the first entry for it,
    /// whatever that entry held, and the redraw flag is raised. Empty pixels
    /// say that the image could not be had. Where no entry is for `id` the
    /// queue stays as it is; the flag is raised all the same.
    pub fn worker_fill(&mut self, id: u64, buf: Vec<u16>)
        ensures
            filled(old(self)@.pending, id, buf@, final(self)@.pending),
            final(self)@.need_update,
            final(self)@.worker_active == old(self)@.worker_active,
    {
        self.need_update = true;
        match self.position(id) {
            Some(idx) => {
                self.pending.set(idx, PendingEntry { id, buf: Some(buf) });
                assert(self@.pending =~= old(self)@.pending.update(idx as int, (id, Some(buf@))));
            },
            None => {},
        }
    }
}

} // verus!
