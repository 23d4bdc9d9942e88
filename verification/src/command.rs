//! The command loop's half of the state machine.
//!
//! The embedding shell runs a dedicated loop that blocks on the command
//! channel; for each received command it locks the state, observes what the
//! engine reports of the live session (if one exists), hands both to
//! [`Playlist::apply_command`], and performs the returned action on the
//! session before releasing the lock. Commands are handled strictly in
//! send order; this module decides what each one does.

use vstd::prelude::*;

use crate::message::Message;
use crate::message::MessageValue;
use crate::message::MessageValueView;
use crate::playlist::Playlist;
use crate::playlist::PlaylistView;

verus! {

/// The engine-reported state of a live session, as the command loop
/// observes it at the moment it holds the lock.
#[derive(Debug, PartialEq, Eq, Structural, Clone, Copy)]
pub enum EngineState {
    Playing,
    Paused,
    Stopped,
}

/// The side effect the command loop must perform on the live session after
/// one command has been applied to the state.
#[derive(Debug, PartialEq, Eq, Structural, Clone, Copy)]
pub enum CommandAction {
    /// Request pause with the default, effectively instantaneous,
    /// transition curve.
    PauseSession,
    /// Request resume with the default transition curve.
    ResumeSession,
    /// Forward this gain, given as its raw bit pattern, to the session.
    SetSessionVolume { bits: u64 },
    /// Nothing to do: the command carried no effect, or its guard failed.
    NoAction,
}

/// Whether a pause command takes effect: only on a live session that the
/// engine reports as playing. The guard makes a repeated pause a no-op.
pub open spec fn spec_pause_applies(v: PlaylistView, engine: Option<EngineState>) -> bool {
    v.session_active && engine == Some(EngineState::Playing)
}

/// Whether a resume command takes effect: only on a live session that the
/// engine reports as paused. The guard makes a repeated resume a no-op.
pub open spec fn spec_resume_applies(v: PlaylistView, engine: Option<EngineState>) -> bool {
    v.session_active && engine == Some(EngineState::Paused)
}

/// What one command does: the state after it and the action the loop must
/// perform on the session.
///
/// - A pause whose guard holds marks the state paused and asks the loop to
///   pause the session; otherwise it does nothing at all.
/// - A resume is symmetric, guarded on the engine reporting a pause.
/// - A volume command on a live session stores the payload's gain bits and
///   forwards exactly those bits to the session; without a session it does
///   nothing.
/// - The remaining kinds never have an effect.
pub open spec fn spec_apply_command(
    v: PlaylistView,
    kind: Message,
    value: MessageValueView,
    engine: Option<EngineState>,
) -> (PlaylistView, CommandAction) {
    match kind {
        Message::PlaybackPause => if spec_pause_applies(v, engine) {
            (PlaylistView { paused: true, ..v }, CommandAction::PauseSession)
        } else {
            (v, CommandAction::NoAction)
        },
        Message::PlaybackResume => if spec_resume_applies(v, engine) {
            (PlaylistView { paused: false, ..v }, CommandAction::ResumeSession)
        } else {
            (v, CommandAction::NoAction)
        },
        Message::EffectVolume => if v.session_active {
            (
                PlaylistView { current_volume: value.float->0, ..v },
                CommandAction::SetSessionVolume { bits: value.float->0 },
            )
        } else {
            (v, CommandAction::NoAction)
        },
        Message::Noop => (v, CommandAction::NoAction),
        Message::PlaylistUpdated => (v, CommandAction::NoAction),
    }
}

/// How the engine's reported session state looks once the loop has
/// performed an action: a commanded pause reports paused, a commanded
/// resume reports playing, and anything else leaves the report as it was.
pub open spec fn spec_engine_after(
    engine: Option<EngineState>,
    action: CommandAction,
) -> Option<EngineState> {
    match action {
        CommandAction::PauseSession => Some(EngineState::Paused),
        CommandAction::ResumeSession => Some(EngineState::Playing),
        CommandAction::SetSessionVolume { .. } => engine,
        CommandAction::NoAction => engine,
    }
}

impl Playlist {
    /// Applies one received command to the state and returns the action the
    /// command loop must perform on the live session. `engine` is what the
    /// engine reports of that session under the lock, and is given exactly
    /// when a session is live.
    ///
    /// A volume command on a live session must carry its gain; a payload
    /// without one is a programmer error that the caller fails loudly on,
    /// and is ruled out here.
    pub fn apply_command(
        &mut self,
        kind: Message,
        value: MessageValue,
        engine: Option<EngineState>,
    ) -> (action: CommandAction)
        requires
            engine is Some <==> old(self)@.session_active,
            kind == Message::EffectVolume && old(self)@.session_active ==> value@.float is Some,
        ensures
            final(self)@ == spec_apply_command(old(self)@, kind, value@, engine).0,
            action == spec_apply_command(old(self)@, kind, value@, engine).1,
            old(self)@.wf() ==> final(self)@.wf(),
    {
        let ghost pre = self@;
        match kind {
            Message::PlaybackPause => {
                let playing_now = match engine {
                    Some(EngineState::Playing) => true,
                    _ => false,
                };
                if self.session_active && playing_now {
                    self.paused = true;
                    proof {
                        assert(self@ =~= spec_apply_command(pre, kind, value@, engine).0);
                    }
                    CommandAction::PauseSession
                } else {
                    CommandAction::NoAction
                }
            },
            Message::PlaybackResume => {
                let paused_now = match engine {
                    Some(EngineState::Paused) => true,
                    _ => false,
                };
                if self.session_active && paused_now {
                    self.paused = false;
                    proof {
                        assert(self@ =~= spec_apply_command(pre, kind, value@, engine).0);
                    }
                    CommandAction::ResumeSession
                } else {
                    CommandAction::NoAction
                }
            },
            Message::EffectVolume => {
                if self.session_active {
                    let bits = value.float.unwrap();
                    self.current_volume = bits;
                    proof {
                        assert(self@ =~= spec_apply_command(pre, kind, value@, engine).0);
                    }
                    CommandAction::SetSessionVolume { bits }
                } else {
                    CommandAction::NoAction
                }
            },
            Message::Noop => CommandAction::NoAction,
            Message::PlaylistUpdated => CommandAction::NoAction,
        }
    }
}

} // verus!
