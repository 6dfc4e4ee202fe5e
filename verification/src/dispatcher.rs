//! The event dispatcher's polling rule: one thread, one loop, and on each
//! turn one event source to drain, in fixed priority order — inbound MIDI
//! first, then outbound-send failures, then the user's selection input,
//! then watch events. While the engine is broken, only watch events are
//! consumed: everything else stays queued until recovery completes, so
//! nothing is dropped, only deferred.

use vstd::prelude::*;

use crate::engine::{Engine, PhaseView};

verus! {

/// Which source the dispatcher drains on this turn of its loop, given
/// which sources have something pending; `Sleep` when none does.
#[derive(Clone, Copy, PartialEq, Eq, Structural, Debug)]
pub enum SourceChoice {
    MidiIn,
    SendFailures,
    UserInput,
    WatchEvents,
    Sleep,
}

/// The polling rule. A broken engine consumes watch events alone; a
/// running one drains the highest-priority source that has something.
pub open spec fn spec_next_source(
    phase: PhaseView,
    midi: bool,
    send_failure: bool,
    user: bool,
    watch: bool,
) -> SourceChoice {
    if phase is Broken {
        if watch {
            SourceChoice::WatchEvents
        } else {
            SourceChoice::Sleep
        }
    } else if midi {
        SourceChoice::MidiIn
    } else if send_failure {
        SourceChoice::SendFailures
    } else if user {
        SourceChoice::UserInput
    } else if watch {
        SourceChoice::WatchEvents
    } else {
        SourceChoice::Sleep
    }
}

impl Engine {
    /// Picks the source to drain on this turn, from which sources have
    /// something pending.
    pub fn next_source(&self, midi: bool, send_failure: bool, user: bool, watch: bool) -> (s:
        SourceChoice)
        ensures
            s == spec_next_source(self@.phase, midi, send_failure, user, watch),
    {
        match &self.phase {
            crate::engine::Phase::Broken { .. } => {
                if watch {
                    SourceChoice::WatchEvents
                } else {
                    SourceChoice::Sleep
                }
            },
            crate::engine::Phase::Running => {
                if midi {
                    SourceChoice::MidiIn
                } else if send_failure {
                    SourceChoice::SendFailures
                } else if user {
                    SourceChoice::UserInput
                } else if watch {
                    SourceChoice::WatchEvents
                } else {
                    SourceChoice::Sleep
                }
            },
        }
    }
}

/// While the engine is broken, the dispatcher consumes watch events and
/// nothing else: MIDI messages, send failures and selection input all
/// wait, whatever is pending.
pub proof fn lemma_recovery_consumes_only_watch(
    phase: PhaseView,
    midi: bool,
    send_failure: bool,
    user: bool,
    watch: bool,
)
    requires
        phase is Broken,
    ensures
        spec_next_source(phase, midi, send_failure, user, watch) == SourceChoice::WatchEvents
            || spec_next_source(phase, midi, send_failure, user, watch) == SourceChoice::Sleep,
{
}

} // verus!
