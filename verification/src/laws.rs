//! Laws of the playback state machine, stated and proved over the views
//! and spec transitions that the executable contracts use.

use vstd::prelude::*;

use crate::command::spec_apply_command;
use crate::command::spec_engine_after;
use crate::command::CommandAction;
use crate::command::EngineState;
use crate::driver::spec_stream_failed;
use crate::driver::spec_stream_opened;
use crate::message::Message;
use crate::message::MessageValueView;
use crate::playlist::spec_enqueue;
use crate::playlist::spec_init;
use crate::playlist::spec_set_vol;
use crate::playlist::PlaylistView;

verus! {

/// The state after a whole sequence of enqueues, applied front to back.
pub open spec fn spec_enqueue_all(v: PlaylistView, paths: Seq<Seq<char>>) -> PlaylistView
    decreases paths.len(),
{
    if paths.len() == 0 {
        v
    } else {
        spec_enqueue(spec_enqueue_all(v, paths.drop_last()), paths.last())
    }
}

/// Enqueueing a sequence of tracks appends exactly those paths, in order,
/// to the queue; the last one becomes the selection, and no other field
/// moves.
pub proof fn lemma_enqueue_all_appends(v: PlaylistView, paths: Seq<Seq<char>>)
    ensures
        spec_enqueue_all(v, paths).queue == v.queue + paths,
        paths.len() > 0 ==> spec_enqueue_all(v, paths).playing == Some(paths.last()),
        paths.len() == 0 ==> spec_enqueue_all(v, paths) == v,
        spec_enqueue_all(v, paths).paused == v.paused,
        spec_enqueue_all(v, paths).current_duration == v.current_duration,
        spec_enqueue_all(v, paths).current_time == v.current_time,
        spec_enqueue_all(v, paths).current_volume == v.current_volume,
        spec_enqueue_all(v, paths).session_active == v.session_active,
    decreases paths.len(),
{
    if paths.len() == 0 {
        assert(v.queue + paths =~= v.queue);
    } else {
        lemma_enqueue_all_appends(v, paths.drop_last());
        assert((v.queue + paths.drop_last()).push(paths.last()) =~= v.queue + paths);
    }
}

/// For every sequence of enqueue calls on a fresh playlist, the queue holds
/// exactly the enqueued paths in insertion order, so a snapshot of it lists
/// them all and its length equals the number of calls.
pub proof fn lemma_enqueue_order(paths: Seq<Seq<char>>)
    ensures
        spec_enqueue_all(spec_init(), paths).queue == paths,
        spec_enqueue_all(spec_init(), paths).queue.len() == paths.len(),
{
    lemma_enqueue_all_appends(spec_init(), paths);
    assert(spec_init().queue + paths =~= paths);
}

/// Once a track is selected and no session is live, the driving loop's very
/// next successful iteration populates the session, and the recorded total
/// is exactly the duration the engine reported for that track; the queue
/// and the selection survive unchanged.
pub proof fn lemma_driver_starts_selected(v: PlaylistView, duration: u64)
    requires
        !v.session_active,
        v.playing is Some,
    ensures
        spec_stream_opened(v, duration).session_active,
        spec_stream_opened(v, duration).current_duration == duration,
        spec_stream_opened(v, duration).queue == v.queue,
        spec_stream_opened(v, duration).playing == v.playing,
        spec_stream_opened(v, duration).wf(),
{
}

/// Pausing twice in a row has the observable effect of pausing once: the
/// first pause leaves the engine reporting a pause, so the second one's
/// guard fails and it changes neither the state nor the session.
pub proof fn lemma_pause_idempotent(
    v: PlaylistView,
    value: MessageValueView,
    engine: Option<EngineState>,
)
    requires
        engine is Some <==> v.session_active,
    ensures
        ({
            let (v1, a1) = spec_apply_command(v, Message::PlaybackPause, value, engine);
            let e1 = spec_engine_after(engine, a1);
            let (v2, a2) = spec_apply_command(v1, Message::PlaybackPause, value, e1);
            v2 == v1 && a2 == CommandAction::NoAction
        }),
{
}

/// Resuming twice in a row has the observable effect of resuming once,
/// symmetrically to [`lemma_pause_idempotent`].
pub proof fn lemma_resume_idempotent(
    v: PlaylistView,
    value: MessageValueView,
    engine: Option<EngineState>,
)
    requires
        engine is Some <==> v.session_active,
    ensures
        ({
            let (v1, a1) = spec_apply_command(v, Message::PlaybackResume, value, engine);
            let e1 = spec_engine_after(engine, a1);
            let (v2, a2) = spec_apply_command(v1, Message::PlaybackResume, value, e1);
            v2 == v1 && a2 == CommandAction::NoAction
        }),
{
}

/// A pause followed by a resume, processed in that order on a live session
/// that the engine reports as playing or paused, always ends with the
/// engine reporting the session as playing and the state not marked
/// paused. (A session the engine reports as stopped stays stopped: neither
/// command's guard can apply to it.)
pub proof fn lemma_pause_then_resume(
    v: PlaylistView,
    value: MessageValueView,
    engine: Option<EngineState>,
)
    requires
        engine is Some <==> v.session_active,
        v.session_active,
        engine != Some(EngineState::Stopped),
    ensures
        ({
            let (v1, a1) = spec_apply_command(v, Message::PlaybackPause, value, engine);
            let e1 = spec_engine_after(engine, a1);
            let (v2, a2) = spec_apply_command(v1, Message::PlaybackResume, value, e1);
            let e2 = spec_engine_after(e1, a2);
            e2 == Some(EngineState::Playing) && !v2.paused && v2.session_active == v.session_active
        }),
{
}

/// Setting the gain and then reading it back, with no command traffic in
/// between, returns exactly the bits that were set; nothing else in the
/// state moves.
pub proof fn lemma_set_then_get_volume(v: PlaylistView, vol: u64)
    ensures
        spec_set_vol(v, vol).current_volume == vol,
        spec_set_vol(v, vol).queue == v.queue,
        spec_set_vol(v, vol).playing == v.playing,
        spec_set_vol(v, vol).paused == v.paused,
        spec_set_vol(v, vol).current_duration == v.current_duration,
        spec_set_vol(v, vol).current_time == v.current_time,
        spec_set_vol(v, vol).session_active == v.session_active,
{
}

/// A selected track the engine cannot open never poisons the rest of the
/// state: the failure clears only the selection, and the queue, the pause
/// flag, the times and the gain all stay as they were, still queryable.
pub proof fn lemma_open_failure_preserves_state(v: PlaylistView)
    requires
        !v.session_active,
    ensures
        spec_stream_failed(v).queue == v.queue,
        spec_stream_failed(v).playing is None,
        spec_stream_failed(v).paused == v.paused,
        spec_stream_failed(v).current_duration == v.current_duration,
        spec_stream_failed(v).current_time == v.current_time,
        spec_stream_failed(v).current_volume == v.current_volume,
        !spec_stream_failed(v).session_active,
        spec_stream_failed(v).wf(),
{
}

} // verus!
