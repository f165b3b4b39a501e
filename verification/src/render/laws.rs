//! What holds of the image data set over more than one call.

use crate::render::image_data_set::image_looked_up;
use crate::render::image_data_set::qrcode_looked_up;
use crate::render::image_data_set::loads;
use crate::render::image_data_set::qrcodes_released;
use crate::render::image_data_set::tracked_once;
use crate::render::image_data_set::ImageDataSetView;
use crate::render::image_data_set::Store;
use crate::render::loader::count_of;
use crate::render::loader::filled;
use crate::render::loader::forgets;
use crate::render::loader::is_first;
use crate::render::loader::no_duplicate_ids;
use crate::render::loader::tracks;
use crate::render::loader::wants_worker;
use crate::render::loader::worker_asked;
use crate::render::loader::LoaderView;
use crate::render::loader::Pending;
use std::rc::Rc;
use vstd::prelude::*;

verus! {

/// A queue that does not track `id` holds no entry for it.
pub proof fn lemma_untracked_counts_zero(queue: Seq<Pending>, id: u64)
    requires
        !tracks(queue, id),
    ensures
        count_of(queue, id) == 0,
    decreases queue.len(),
{
    if queue.len() > 0 {
        let rest = queue.drop_last();
        assert(queue[queue.len() - 1].0 != id);
        assert forall|i: int| 0 <= i < rest.len() implies (#[trigger] rest[i]).0 != id by {
            assert(queue[i].0 != id);
        }
        lemma_untracked_counts_zero(rest, id);
    }
}

/// Taking an entry out of a queue brings no id into it, and keeps the ids
/// apart where they were; the id of the entry is gone where it was there
/// once.
proof fn lemma_remove(queue: Seq<Pending>, i: int)
    requires
        0 <= i < queue.len(),
    ensures
        forall|id: u64| tracks(queue.remove(i), id) ==> tracks(queue, id),
        no_duplicate_ids(queue) ==> no_duplicate_ids(queue.remove(i)),
        no_duplicate_ids(queue) ==> !tracks(queue.remove(i), queue[i].0),
{
    let rest = queue.remove(i);
    assert forall|id: u64| tracks(rest, id) implies tracks(queue, id) by {
        let k = choose|k: int| 0 <= k < rest.len() && (#[trigger] rest[k]).0 == id;
        if k < i {
            assert(queue[k].0 == id);
        } else {
            assert(queue[k + 1].0 == id);
        }
    }
    if no_duplicate_ids(queue) {
        assert forall|a: int, b: int| 0 <= a < b < rest.len() implies (#[trigger] rest[a]).0 != (
        #[trigger] rest[b]).0 by {
            let a0 = if a < i { a } else { a + 1 };
            let b0 = if b < i { b } else { b + 1 };
            assert(queue[a0].0 != queue[b0].0);
        }
        if tracks(rest, queue[i].0) {
            let k = choose|k: int| 0 <= k < rest.len() && (#[trigger] rest[k]).0 == queue[i].0;
            let k0 = if k < i { k } else { k + 1 };
            if k0 < i {
                assert(queue[k0].0 != queue[i].0);
            } else {
                assert(queue[i].0 != queue[k0].0);
            }
        }
    }
}

/// A queue that tracks `id` has a first entry for it.
proof fn lemma_first_exists(queue: Seq<Pending>, id: u64) -> (i: int)
    requires
        tracks(queue, id),
    ensures
        is_first(queue, id, i),
{
    let k = choose|k: int| 0 <= k < queue.len() && (#[trigger] queue[k]).0 == id;
    lemma_first_below(queue, id, k)
}

proof fn lemma_first_below(queue: Seq<Pending>, id: u64, k: int) -> (i: int)
    requires
        0 <= k < queue.len(),
        queue[k].0 == id,
    ensures
        is_first(queue, id, i),
        i <= k,
    decreases k,
{
    if exists|j: int| 0 <= j < k && (#[trigger] queue[j]).0 == id {
        let j = choose|j: int| 0 <= j < k && (#[trigger] queue[j]).0 == id;
        lemma_first_below(queue, id, j)
    } else {
        k
    }
}

/// A lookup keeps every id tracked in one place at most.
pub proof fn law_lookup_tracks_once<H, F: Fn(&Vec<u16>) -> H>(
    decode: F,
    pre: Store<H>,
    id: u64,
    post: Store<H>,
    image: Option<Rc<H>>,
)
    requires
        tracked_once(pre),
        image_looked_up(decode, pre, id, post, image),
    ensures
        tracked_once(post),
{
    if pre.images.contains_key(id) {
    } else if tracks(pre.pending, id) {
        let i = lemma_first_exists(pre.pending, id);
        lemma_remove(pre.pending, i);
        if pre.registry.contains_key(id) || pre.pending[i].1 is Some {
            assert(post.pending == pre.pending.remove(i));
            assert(post.images == pre.images.insert(id, image));
            assert forall|m: u64| post.images.contains_key(m) implies !tracks(post.pending, m) by {
                if m != id {
                    assert(pre.images.contains_key(m));
                    assert(!tracks(pre.pending, m));
                    assert(tracks(pre.pending.remove(i), m) ==> tracks(pre.pending, m));
                } else {
                    assert(pre.pending[i].0 == id);
                }
            }
        }
    } else if pre.registry.contains_key(id) {
        assert(post.pending == pre.pending);
        assert forall|m: u64| post.images.contains_key(m) implies !tracks(post.pending, m) by {
            if m != id {
                assert(pre.images.contains_key(m));
                assert(!tracks(pre.pending, m));
            }
        }
    } else {
        let grown = pre.pending.push((id, None));
        assert(post.pending == grown);
        assert forall|a: int, b: int| 0 <= a < b < grown.len() implies (#[trigger] grown[a]).0 != (
        #[trigger] grown[b]).0 by {
            assert(pre.pending[a].0 == grown[a].0);
            if b < pre.pending.len() {
                assert(pre.pending[b].0 == grown[b].0);
            }
        }
        assert forall|m: u64| post.images.contains_key(m) implies !tracks(post.pending, m) by {
            if tracks(grown, m) {
                let k = choose|k: int| 0 <= k < grown.len() && (#[trigger] grown[k]).0 == m;
                if k < pre.pending.len() {
                    assert(pre.pending[k].0 == m);
                }
            }
        }
    }
}

/// The worker's answer keeps every id tracked in one place at most: it
/// changes what an entry holds, never which ids are queued.
pub proof fn law_fill_tracks_once<H>(pre: Store<H>, id: u64, pixels: Seq<u16>, post: Store<H>)
    requires
        tracked_once(pre),
        filled(pre.pending, id, pixels, post.pending),
        post.images == pre.images,
    ensures
        tracked_once(post),
{
    if tracks(pre.pending, id) {
        let i = lemma_first_exists(pre.pending, id);
        let q = pre.pending.update(i, (id, Some(pixels)));
        assert(post.pending == q);
        assert forall|k: int| 0 <= k < q.len() implies (#[trigger] q[k]).0 == pre.pending[k].0 by {}
        assert forall|a: int, b: int| 0 <= a < b < q.len() implies (#[trigger] q[a]).0 != (
        #[trigger] q[b]).0 by {
            assert(pre.pending[a].0 != pre.pending[b].0);
        }
        assert forall|m: u64| post.images.contains_key(m) implies !tracks(q, m) by {
            assert(pre.images.contains_key(m));
            assert(!tracks(pre.pending, m));
            if tracks(q, m) {
                let k = choose|k: int| 0 <= k < q.len() && (#[trigger] q[k]).0 == m;
                assert(pre.pending[k].0 == m);
            }
        }
    }
}

/// The first lookup of an id that is neither cached, staged nor queued has
/// no answer and queues exactly one request. A second lookup, made before
/// anything came of the first, has no answer either and queues nothing.
pub proof fn law_first_lookup_queues_once<H, F: Fn(&Vec<u16>) -> H>(
    decode: F,
    pre: Store<H>,
    id: u64,
    mid: Store<H>,
    first: Option<Rc<H>>,
    post: Store<H>,
    second: Option<Rc<H>>,
)
    requires
        !pre.images.contains_key(id),
        !pre.registry.contains_key(id),
        !tracks(pre.pending, id),
        image_looked_up(decode, pre, id, mid, first),
        image_looked_up(decode, mid, id, post, second),
    ensures
        first is None,
        mid.pending == pre.pending.push((id, None)),
        count_of(mid.pending, id) == 1,
        second is None,
        post.pending == mid.pending,
        post.images == pre.images,
        post.registry == pre.registry,
{
    let grown = pre.pending.push((id, None));
    assert(grown.drop_last() =~= pre.pending);
    lemma_untracked_counts_zero(pre.pending, id);
    let last = grown.len() - 1;
    assert(grown[last].0 == id);
    assert(is_first(grown, id, last)) by {
        assert forall|j: int| 0 <= j < last implies (#[trigger] grown[j]).0 != id by {
            assert(pre.pending[j].0 == grown[j].0);
        }
    }
    assert(tracks(mid.pending, id));
}

/// A store with nothing cached and nothing queued tracks every id in one
/// place at most, whatever is staged.
pub proof fn law_empty_store_tracks_once<H>(store: Store<H>)
    requires
        store.images == Map::<u64, Option<Rc<H>>>::empty(),
        store.pending == Seq::<Pending>::empty(),
    ensures
        tracked_once(store),
{
}

/// Whatever is resolved is answered. An id that is not cached is answered
/// with an image as soon as a buffer is staged for it, and otherwise as soon
/// as the worker has filled its request with pixels; the image is made from
/// those very pixels.
pub proof fn law_resolved_is_answered<H, F: Fn(&Vec<u16>) -> H>(
    decode: F,
    pre: Store<H>,
    id: u64,
    post: Store<H>,
    image: Option<Rc<H>>,
)
    requires
        !pre.images.contains_key(id),
        image_looked_up(decode, pre, id, post, image),
    ensures
        pre.registry.contains_key(id) ==> image is Some && loads(
            decode,
            pre.registry[id],
            *image->0,
        ),
        forall|i: int, pixels: Seq<u16>|
            !pre.registry.contains_key(id) && #[trigger] is_first(pre.pending, id, i)
                && pre.pending[i].1 == Some(pixels) && pixels.len() > 0 ==> image is Some
                && #[trigger] loads(decode, pixels, *image->0),
        image is Some ==> post.images.contains_key(id) && post.images[id] == image,
{
    if !pre.registry.contains_key(id) && tracks(pre.pending, id) {
        let i = lemma_first_exists(pre.pending, id);
    }
}

/// An answered lookup caches its answer, and the cache is final: a lookup
/// of a cached id returns what is cached and changes nothing. So once an
/// image was returned, every later lookup returns that same image, and
/// nothing is decoded or queued again.
pub proof fn law_answer_is_stable<H, F: Fn(&Vec<u16>) -> H>(
    decode: F,
    pre: Store<H>,
    id: u64,
    mid: Store<H>,
    first: Option<Rc<H>>,
    post: Store<H>,
    second: Option<Rc<H>>,
)
    requires
        first is Some,
        image_looked_up(decode, pre, id, mid, first),
        image_looked_up(decode, mid, id, post, second),
    ensures
        mid.images.contains_key(id),
        mid.images[id] == first,
        second == first,
        post.images == mid.images,
        post.registry == mid.registry,
        post.pending == mid.pending,
{
    if !pre.images.contains_key(id) && !pre.registry.contains_key(id) {
        if tracks(pre.pending, id) {
            let i = lemma_first_exists(pre.pending, id);
        }
    }
}

/// A lookup of one id leaves the cached result of every other id alone, and
/// never takes a cached result away.
pub proof fn law_lookup_keeps_cache<H, F: Fn(&Vec<u16>) -> H>(
    decode: F,
    pre: Store<H>,
    id: u64,
    post: Store<H>,
    image: Option<Rc<H>>,
    other: u64,
)
    requires
        pre.images.contains_key(other),
        image_looked_up(decode, pre, id, post, image),
    ensures
        post.images.contains_key(other),
        post.images[other] == pre.images[other],
{
    if !pre.images.contains_key(id) && !pre.registry.contains_key(id) {
        if tracks(pre.pending, id) {
            let i = lemma_first_exists(pre.pending, id);
        }
    }
}

/// Negative caching. Where the worker answered an id with empty pixels, the
/// next lookup has no answer, records that, and takes the request out of the
/// queue. From then on a lookup of the id has no answer and changes nothing:
/// no request is queued, so the worker is not asked again, and a buffer
/// staged later is not looked at.
pub proof fn law_empty_answer_is_final<H, F: Fn(&Vec<u16>) -> H>(
    decode: F,
    pre: Store<H>,
    id: u64,
    i: int,
    mid: Store<H>,
    first: Option<Rc<H>>,
    later: Store<H>,
    post: Store<H>,
    second: Option<Rc<H>>,
)
    requires
        !pre.images.contains_key(id),
        !pre.registry.contains_key(id),
        is_first(pre.pending, id, i),
        pre.pending[i].1 == Some(Seq::<u16>::empty()),
        image_looked_up(decode, pre, id, mid, first),
        later.images.contains_key(id),
        later.images[id] == mid.images[id],
        image_looked_up(decode, later, id, post, second),
    ensures
        first is None,
        mid.images.contains_key(id),
        mid.images[id] is None,
        mid.pending == pre.pending.remove(i),
        no_duplicate_ids(pre.pending) ==> !tracks(mid.pending, id),
        second is None,
        post.images == later.images,
        post.registry == later.registry,
        post.pending == later.pending,
{
    assert(tracks(pre.pending, id));
    lemma_remove(pre.pending, i);
}

/// How many worker runs are asked for when the owner asks `n` times in a
/// row.
pub open spec fn runs_started(state: LoaderView, n: nat) -> nat
    decreases n,
{
    if n == 0 {
        0
    } else {
        runs_started(worker_asked(state), (n - 1) as nat) + if wants_worker(state) {
            1nat
        } else {
            0nat
        }
    }
}

/// However often the owner asks, at most one worker run is started, and
/// none while one is under way.
pub proof fn law_one_worker_at_a_time(state: LoaderView, n: nat)
    ensures
        runs_started(state, n) <= 1,
        state.worker_active ==> runs_started(state, n) == 0,
        worker_asked(state).pending == state.pending,
        !wants_worker(worker_asked(state)),
    decreases n,
{
    if n > 0 {
        law_one_worker_at_a_time(worker_asked(state), (n - 1) as nat);
        if wants_worker(state) {
            assert(worker_asked(state).worker_active);
        }
    }
}

/// `states` and `answers` record `answers.len()` lookups of one payload,
/// one after the other: lookup `i` leads from `states[i]` to `states[i + 1]`
/// and answers `answers[i]`.
pub open spec fn qrcode_lookups<H, F: Fn(&Vec<u8>) -> H>(
    load: F,
    payload: Seq<char>,
    states: Seq<ImageDataSetView<H>>,
    answers: Seq<Option<Rc<H>>>,
) -> bool {
    &&& states.len() == answers.len() + 1
    &&& forall|i: int|
        0 <= i < answers.len() ==> qrcode_looked_up(
            load,
            states[i],
            payload,
            states[i + 1],
            #[trigger] answers[i],
        )
}

/// Within one frame, every lookup of a payload counts once and all lookups
/// of it have the same answer: the image that the first one cached, or
/// nothing where the payload cannot be drawn.
pub proof fn law_qrcode_lookups<H, F: Fn(&Vec<u8>) -> H>(
    load: F,
    payload: Seq<char>,
    states: Seq<ImageDataSetView<H>>,
    answers: Seq<Option<Rc<H>>>,
)
    requires
        qrcode_lookups(load, payload, states, answers),
    ensures
        states.last().usage == states[0].usage + answers.len(),
        states.last().images == states[0].images,
        forall|i: int| 0 <= i < answers.len() ==> #[trigger] answers[i] == answers[0],
        answers.len() > 0 && answers[0] is Some ==> states.last().qrcodes.contains_key(payload)
            && Some(states.last().qrcodes[payload]) == answers[0],
    decreases answers.len(),
{
    let n = answers.len() as int;
    if n == 1 {
        let a = answers[0];
    } else if n > 1 {
        let shorter_states = states.drop_last();
        let shorter_answers = answers.drop_last();
        assert forall|i: int| 0 <= i < shorter_answers.len() implies qrcode_looked_up(
            load,
            shorter_states[i],
            payload,
            shorter_states[i + 1],
            #[trigger] shorter_answers[i],
        ) by {
            let a = answers[i];
        }
        law_qrcode_lookups(load, payload, shorter_states, shorter_answers);
        let a = answers[n - 1];
        let b = answers[n - 2];
        assert(shorter_states.last() == states[n - 1]);
        assert(qrcode_looked_up(load, states[n - 2], payload, states[n - 1], b));
        assert(qrcode_looked_up(load, states[n - 1], payload, states[n], a));
        assert(b == answers[0]) by {
            assert(shorter_answers[n - 2] == shorter_answers[0]);
        }
        assert forall|i: int| 0 <= i < answers.len() implies #[trigger] answers[i] == answers[0] by {
            if i < n - 1 {
                assert(shorter_answers[i] == shorter_answers[0]);
            }
        }
    }
}

/// The end-of-frame release after a frame of lookups keeps the QR cache;
/// after a frame without any it empties the cache. Either way the count
/// starts again.
pub proof fn law_release<H>(pre: ImageDataSetView<H>)
    ensures
        qrcodes_released(pre).usage == 0,
        qrcodes_released(pre).images == pre.images,
        pre.usage > 0 ==> qrcodes_released(pre).qrcodes == pre.qrcodes,
        pre.usage == 0 ==> qrcodes_released(pre).qrcodes == Map::<Seq<char>, Rc<H>>::empty(),
        qrcodes_released(qrcodes_released(pre)).qrcodes == Map::<Seq<char>, Rc<H>>::empty(),
{
}

} // verus!
