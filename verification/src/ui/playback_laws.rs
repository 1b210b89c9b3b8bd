//! Properties of the queue that span several events.
use vstd::prelude::*;

use crate::messages::Track;
use crate::ui::events::PlaybackEvent;
use crate::ui::playback_state::{
    PlaybackAction, PlaybackEnv, PlaybackModel, index_in_queue, is_permutation_of_range, pinned_index, pool, restored_from,
    scrub_position_ms, should_start_from_queue, shuffled, shuffled_queue, step, within_debounce,
};

verus! {

/// The model after each of `events` in turn, each with its own environment.
pub open spec fn run_events(m: PlaybackModel, events: Seq<(PlaybackEvent, PlaybackEnv)>) -> PlaybackModel
    decreases events.len(),
{
    if events.len() == 0 {
        m
    } else {
        run_events(step(m, events[0].0, events[0].1).0, events.drop_first())
    }
}

/// Progress reports leave the queue, the recently played list and the queue
/// index as they were.
proof fn lemma_progress_keeps_queue(m: PlaybackModel, events: Seq<(PlaybackEvent, PlaybackEnv)>)
    requires
        forall|i: int| 0 <= i < events.len() ==> #[trigger] events[i].0 is Progress,
    ensures
        run_events(m, events).queue == m.queue,
        run_events(m, events).recently_played == m.recently_played,
        run_events(m, events).current_index == m.current_index,
    decreases events.len(),
{
    if events.len() > 0 {
        assert(events[0].0 is Progress);
        let rest = events.drop_first();
        assert forall|i: int| 0 <= i < rest.len() implies #[trigger] rest[i].0 is Progress by {
            assert(rest[i] == events[i + 1]);
        }
        lemma_progress_keeps_queue(step(m, events[0].0, events[0].1).0, rest);
    }
}

/// Skipping to the next track, playing it, and going back while it is still
/// within its first three seconds (whatever progress reports came in between)
/// restores the queue and the recently played list, with the first track
/// current, and asks to play it. Skipping asks to play the next track, and
/// playing it starts at its beginning.
pub proof fn law_next_then_previous_restores_queue(
    m: PlaybackModel,
    env_next: PlaybackEnv,
    env_play: PlaybackEnv,
    progress: Seq<(PlaybackEvent, PlaybackEnv)>,
    env_prev: PlaybackEnv,
)
    requires
        m.queue.len() >= 2,
        forall|i: int| 0 <= i < progress.len() ==> #[trigger] progress[i].0 is Progress,
        ({
            let playing = step(step(m, PlaybackEvent::Next, env_next).0, PlaybackEvent::Play, env_play).0;
            let before = run_events(playing, progress);
            scrub_position_ms(before.scrub_bp, before.duration_ms) <= 3000
        }),
    ensures
        ({
            let (after_next, next_actions) = step(m, PlaybackEvent::Next, env_next);
            let playing = step(after_next, PlaybackEvent::Play, env_play).0;
            let before = run_events(playing, progress);
            let (after_prev, prev_actions) = step(before, PlaybackEvent::Previous, env_prev);
            &&& next_actions.contains(PlaybackAction::Emit(PlaybackEvent::Play))
            &&& scrub_position_ms(playing.scrub_bp, playing.duration_ms) == 0
            &&& after_prev.queue == m.queue
            &&& after_prev.recently_played == m.recently_played
            &&& after_prev.current_index == Some(0usize)
            &&& prev_actions == seq![PlaybackAction::Emit(PlaybackEvent::Play)]
        }),
{
    let (after_next, next_actions) = step(m, PlaybackEvent::Next, env_next);
    assert(next_actions[1] == PlaybackAction::Emit(PlaybackEvent::Play));
    assert(after_next.recently_played.last() == m.queue[0]);
    assert(after_next.recently_played.drop_last() =~= m.recently_played);
    let playing = step(after_next, PlaybackEvent::Play, env_play).0;
    assert(playing.scrub_bp == 0);
    assert(scrub_position_ms(0, playing.duration_ms) == 0);
    lemma_progress_keeps_queue(playing, progress);
    assert(seq![m.queue[0]] + m.queue.drop_first() =~= m.queue);
}

/// Adding tracks appends them, in order, after what was queued.
pub proof fn law_add_appends(m: PlaybackModel, tracks: Vec<Track>, env: PlaybackEnv)
    ensures
        step(m, PlaybackEvent::AddToQueue(tracks), env).0.queue == m.queue + tracks@,
        step(m, PlaybackEvent::AddToQueue(tracks), env).0.recently_played == m.recently_played,
{
}

/// Every event (a shuffle included, and a selection of an existing entry)
/// keeps the queue index, when there is one, inside the queue.
pub proof fn law_index_stays_in_queue(m: PlaybackModel, e: PlaybackEvent, env: PlaybackEnv)
    requires
        index_in_queue(m),
        e matches PlaybackEvent::SelectQueueTrack(i) ==> i < m.queue.len(),
    ensures
        !(e is ShuffleQueue) ==> index_in_queue(step(m, e, env).0),
        e is ShuffleQueue ==> forall|m2: PlaybackModel| shuffled(m, m2) ==> index_in_queue(m2),
{
    if e is ShuffleQueue {
        assert forall|m2: PlaybackModel| shuffled(m, m2) implies index_in_queue(m2) by {
            if m.queue.len() >= 2 {
                let order = choose|order: Seq<usize>| is_permutation_of_range(order,
                    if m.current_index is Some { (m.queue.len() - 1) as nat } else { m.queue.len() as nat })
                    && m2 == (PlaybackModel {
                        queue: shuffled_queue(m.queue, m.current_index, order),
                        current_index: if m.current_index is Some { Some(0usize) } else { None },
                        status: "Queue shuffled."@,
                        ..m
                    });
                assert(shuffled_queue(m.queue, m.current_index, order).len() >= 1);
            }
        }
    } else if let PlaybackEvent::SelectQueueTrack(i) = e {
        if i > 0 {
            assert(m.queue.skip(i as int).len() >= 1);
        }
    }
}

/// Arranging a sequence by a permutation of its indices keeps its elements.
pub proof fn lemma_arrangement_keeps_elements(rest: Seq<Track>, order: Seq<usize>)
    requires
        is_permutation_of_range(order, rest.len()),
    ensures
        Seq::new(order.len(), |x: int| rest[order[x] as int]).to_multiset() == rest.to_multiset(),
    decreases rest.len(),
{
    broadcast use vstd::seq_lib::group_to_multiset_ensures;
    let n = rest.len();
    let arranged = Seq::new(order.len(), |x: int| rest[order[x] as int]);
    if n == 0 {
        assert(arranged =~= rest);
    } else {
        let last: int = n - 1;
        assert(exists|k: int| 0 <= k < order.len() && order[k] as int == last) by {
            lemma_permutation_hits(order, n, last);
        }
        let k = choose|k: int| 0 <= k < order.len() && order[k] as int == last;
        let order2 = order.remove(k);
        let rest2 = rest.drop_last();
        assert(is_permutation_of_range(order2, rest2.len())) by {
            assert forall|i: int| 0 <= i < order2.len() implies (#[trigger] order2[i]) < rest2.len() by {
                let j = if i < k { i } else { i + 1 };
                assert(order2[i] == order[j]);
                assert(order[j] != order[k]);
            }
            assert forall|i: int, j: int| 0 <= i < j < order2.len() implies order2[i] != order2[j] by {
                let a = if i < k { i } else { i + 1 };
                let b = if j < k { j } else { j + 1 };
                assert(order2[i] == order[a]);
                assert(order2[j] == order[b]);
            }
        }
        lemma_arrangement_keeps_elements(rest2, order2);
        let arranged2 = Seq::new(order2.len(), |x: int| rest2[order2[x] as int]);
        assert(arranged.remove(k) =~= arranged2) by {
            assert forall|i: int| 0 <= i < arranged2.len() implies arranged.remove(k)[i] == arranged2[i] by {
                let j = if i < k { i } else { i + 1 };
                assert(order2[i] == order[j]);
                assert(order[j] < n - 1) by {
                    assert(order[j] != order[k]);
                }
            }
        }
        assert(arranged[k] == rest.last());
        assert(arranged.remove(k).to_multiset() == arranged.to_multiset().remove(arranged[k]));
        assert(arranged.to_multiset().count(arranged[k]) > 0) by {
            assert(arranged.contains(arranged[k]));
        }
        assert(arranged.to_multiset() =~= arranged.remove(k).to_multiset().insert(arranged[k]));
        assert(rest2.push(rest.last()) =~= rest);
    }
}

proof fn lemma_permutation_hits(order: Seq<usize>, n: nat, v: int)
    requires
        is_permutation_of_range(order, n),
        0 <= v < n,
    ensures
        exists|k: int| 0 <= k < order.len() && order[k] as int == v,
{
    // The values of `order` are `n` distinct numbers below `n`, so they are all of them.
    let ints = order.map_values(|x: usize| x as int);
    assert(ints.no_duplicates()) by {
        assert forall|i: int, j: int| 0 <= i < ints.len() && 0 <= j < ints.len() && i != j implies ints[i] != ints[j] by {
            if i < j {
                assert(order[i] != order[j]);
            } else {
                assert(order[j] != order[i]);
            }
        }
    }
    ints.unique_seq_to_set();
    let s = ints.to_set();
    let range = vstd::set_lib::set_int_range(0, n as int);
    vstd::set_lib::lemma_int_range(0, n as int);
    assert(s.subset_of(range)) by {
        assert forall|x: int| s.contains(x) implies range.contains(x) by {
            let i = choose|i: int| 0 <= i < ints.len() && ints[i] == x;
            assert(order[i] < n);
        }
    }
    vstd::set_lib::lemma_subset_equality(s, range);
    assert(s.contains(v));
    let i = choose|i: int| 0 <= i < ints.len() && ints[i] == v;
    assert(order[i] as int == v);
}

/// Shuffling keeps the same tracks in the queue and, when one is playing,
/// keeps it first.
pub proof fn law_shuffle_keeps_tracks(m: PlaybackModel, m2: PlaybackModel)
    requires
        shuffled(m, m2),
    ensures
        m2.queue.to_multiset() == m.queue.to_multiset(),
        m.queue.len() >= 2 ==> (m.current_index matches Some(i) ==> m2.queue[0] == pinned_track(m.queue, i)),
{
    broadcast use vstd::seq_lib::group_to_multiset_ensures;
    if m.queue.len() >= 2 {
        let order = choose|order: Seq<usize>| is_permutation_of_range(order,
            if m.current_index is Some { (m.queue.len() - 1) as nat } else { m.queue.len() as nat })
            && m2 == (PlaybackModel {
                queue: shuffled_queue(m.queue, m.current_index, order),
                current_index: if m.current_index is Some { Some(0usize) } else { None },
                status: "Queue shuffled."@,
                ..m
            });
        let pinned = pinned_index(m.queue, m.current_index);
        let rest = pool(m.queue, pinned);
        lemma_arrangement_keeps_elements(rest, order);
        let arranged = Seq::new(order.len(), |x: int| rest[order[x] as int]);
        if let Some(p) = pinned {
            assert(seq![m.queue[p as int]] + arranged =~= arranged.insert(0, m.queue[p as int]));
            assert(arranged.insert(0, m.queue[p as int]).to_multiset() == arranged.to_multiset().insert(m.queue[p as int]));
            assert(m.queue.remove(p as int).to_multiset() == m.queue.to_multiset().remove(m.queue[p as int]));
            assert(m.queue.to_multiset().count(m.queue[p as int]) > 0) by {
                assert(m.queue.contains(m.queue[p as int]));
            }
            assert(m.queue.to_multiset() =~= m.queue.remove(p as int).to_multiset().insert(m.queue[p as int]));
        }
    }
}

/// The track a shuffle keeps first: the current one, or the last if the
/// index ran past the queue.
pub open spec fn pinned_track(q: Seq<Track>, i: usize) -> Track {
    if i <= q.len() - 1 { q[i as int] } else { q.last() }
}

/// A saved queue comes back as it was saved: restoring what the queue and
/// the recently played list were gives exactly those lists again, and the
/// rest of the state is untouched but for the status line.
pub proof fn law_saved_queue_restores(m: PlaybackModel, fresh: PlaybackModel)
    ensures
        restored_from(fresh, m.queue, m.recently_played).queue == m.queue,
        restored_from(fresh, m.queue, m.recently_played).recently_played == m.recently_played,
        (PlaybackModel { status: fresh.status, ..restored_from(fresh, m.queue, m.recently_played) })
            == (PlaybackModel { queue: m.queue, recently_played: m.recently_played, ..fresh }),
{
}

/// When the local track ends (a report outside the debounce window), the
/// finished track moves to the recently played list; if another track
/// follows, it becomes current, the queue is saved and playback goes on with
/// it; if none follows, playback stops at the end of the queue. A second
/// report within the window changes nothing.
pub proof fn law_track_end_advances(m: PlaybackModel, env: PlaybackEnv)
    ensures
        ({
            let (m1, a) = step(m, PlaybackEvent::LocalTrackEnded, env);
            &&& !within_debounce(m.last_track_end_at, env.now_ms) && m.queue.len() >= 1 ==> {
                &&& m1.queue == m.queue.drop_first()
                &&& m1.recently_played == m.recently_played.push(m.queue[0])
            }
            &&& !within_debounce(m.last_track_end_at, env.now_ms) && m.queue.len() >= 2 ==> {
                &&& m1.current_index == Some(0usize)
                &&& a == seq![PlaybackAction::SaveQueue, PlaybackAction::Emit(PlaybackEvent::Play)]
            }
            &&& !within_debounce(m.last_track_end_at, env.now_ms) && m.queue.len() <= 1 ==> {
                &&& m1.current_index is None
                &&& !m1.is_playing
                &&& !a.contains(PlaybackAction::Emit(PlaybackEvent::Play))
            }
            &&& within_debounce(m.last_track_end_at, env.now_ms) ==> m1 == m && a.len() == 0
        }),
{
    let (m1, a) = step(m, PlaybackEvent::LocalTrackEnded, env);
    if !within_debounce(m.last_track_end_at, env.now_ms) && m.queue.len() <= 1 {
        assert(a == seq![PlaybackAction::SaveQueue]);
        if a.contains(PlaybackAction::Emit(PlaybackEvent::Play)) {
            let i = choose|i: int| 0 <= i < a.len() && a[i] == PlaybackAction::Emit(PlaybackEvent::Play);
            assert(a[i] == PlaybackAction::SaveQueue);
        }
    }
}

/// Toggling a paused track that is part-way through continues it where it
/// is: the toggle asks to resume (never to play from the start) and changes
/// nothing itself, and handling that resume asks the local player to resume,
/// keeping the position, the queue and the current entry. Toggling while
/// playing pauses.
pub proof fn law_toggle_resumes_paused_track(m: PlaybackModel, env: PlaybackEnv, env2: PlaybackEnv)
    ensures
        (!m.is_playing && !should_start_from_queue(m) && m.scrub_bp > 0) ==> {
            let (m1, a) = step(m, PlaybackEvent::Toggle, env);
            let (m2, b) = step(m1, PlaybackEvent::Resume, env2);
            &&& m1 == m
            &&& a == seq![PlaybackAction::Emit(PlaybackEvent::Resume)]
            &&& b == seq![PlaybackAction::ResumeLocal]
            &&& m2.is_playing
            &&& m2.scrub_bp == m.scrub_bp
            &&& m2.queue == m.queue
            &&& m2.current_index == m.current_index
        },
        m.is_playing ==> step(m, PlaybackEvent::Toggle, env)
            == (m, seq![PlaybackAction::Emit(PlaybackEvent::Pause)]),
{
}

} // verus!
