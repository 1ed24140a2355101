//! The life of the tunnel interface over one run, as a state machine: the
//! caller performs each action and hands back what came of it.
//!
//! Create the interface, find its index, bring it up, arm the interrupt
//! handler, configure the device, start the engine, register the peers, run
//! the engine, delete the interface. Any failure, and an interrupt, skip to
//! the deletion once the index is known, and to the end before that.

use vstd::prelude::*;
use crate::error::ErrorKind;

verus! {

#[derive(PartialEq, Eq, Structural, Clone, Copy, Debug)]
pub enum Stage {
    CreateLink,
    LookupLink,
    ActivateLink,
    ArmCleanup,
    ConfigureDevice,
    StartEngine,
    RegisterPeer(usize),
    RunEngine,
    DeleteLink,
    Finished,
}

/// What the caller is to do next.
#[derive(PartialEq, Eq, Structural, Clone, Copy, Debug)]
pub enum Action {
    /// Create the tunnel interface.
    CreateLink,
    /// Find the index of the interface just created, by its name.
    LookupLink,
    /// Bring the interface up.
    ActivateLink(u32),
    /// Install the handler that deletes the interface on an interrupt.
    ArmCleanup(u32),
    /// Push the private key and the listen port.
    ConfigureDevice(u32),
    /// Load the local keys and start the exchange engine.
    StartEngine,
    /// Register the peer at this position, with the tunnel and the engine.
    RegisterPeer(usize),
    /// Hand control to the engine until it stops.
    RunEngine,
    /// Delete the interface; on a fresh connection where the owning one may
    /// be busy.
    DeleteLink { index: u32, fresh_connection: bool },
    /// End the run: the error that decides the exit status, and whether the
    /// deletion failed after the engine had already decided it.
    Exit { error: Option<ErrorKind>, cleanup_failed: bool },
}

/// What came of the last action.
#[derive(PartialEq, Eq, Structural, Clone, Copy, Debug)]
pub enum Event {
    Done,
    /// The interface was found, with this index.
    Found(u32),
    /// A key file was missing or malformed.
    KeyMissing,
    /// The kernel, the engine or the channel refused.
    Refused,
    /// A termination signal arrived.
    Interrupted,
}

#[derive(PartialEq, Eq, Structural, Clone, Copy, Debug)]
pub struct Lifecycle {
    pub stage: Stage,
    pub peers: usize,
    pub link: Option<u32>,
    pub deleted: bool,
    pub interrupted: bool,
    pub error: Option<ErrorKind>,
    pub cleanup_failed: bool,
}

pub open spec fn initial(peers: usize) -> Lifecycle {
    Lifecycle {
        stage: Stage::CreateLink,
        peers,
        link: None,
        deleted: false,
        interrupted: false,
        error: None,
        cleanup_failed: false,
    }
}

/// The error that a refusal at a stage stands for.
pub open spec fn stage_error(stage: Stage) -> ErrorKind {
    match stage {
        Stage::CreateLink => ErrorKind::DeviceCreateError,
        Stage::LookupLink => ErrorKind::DeviceLookupError,
        Stage::ActivateLink => ErrorKind::DeviceActivateError,
        Stage::ArmCleanup => ErrorKind::SignalHandlerError,
        Stage::ConfigureDevice => ErrorKind::DeviceConfigureError,
        Stage::RegisterPeer(_) => ErrorKind::PeerRegisterError,
        Stage::DeleteLink => ErrorKind::CleanupError,
        _ => ErrorKind::EngineError,
    }
}

/// The stage after `stage` went well.
pub open spec fn stage_after(stage: Stage, peers: usize) -> Stage {
    match stage {
        Stage::CreateLink => Stage::LookupLink,
        Stage::LookupLink => Stage::ActivateLink,
        Stage::ActivateLink => Stage::ArmCleanup,
        Stage::ArmCleanup => Stage::ConfigureDevice,
        Stage::ConfigureDevice => Stage::StartEngine,
        Stage::StartEngine => if peers > 0 {
            Stage::RegisterPeer(0)
        } else {
            Stage::RunEngine
        },
        Stage::RegisterPeer(i) => if i + 1 < peers {
            Stage::RegisterPeer((i + 1) as usize)
        } else {
            Stage::RunEngine
        },
        Stage::RunEngine => Stage::DeleteLink,
        _ => Stage::Finished,
    }
}

pub open spec fn link_index(s: Lifecycle) -> u32 {
    match s.link {
        Some(i) => i,
        None => 0,
    }
}

pub open spec fn next_action_spec(s: Lifecycle) -> Action {
    match s.stage {
        Stage::CreateLink => Action::CreateLink,
        Stage::LookupLink => Action::LookupLink,
        Stage::ActivateLink => Action::ActivateLink(link_index(s)),
        Stage::ArmCleanup => Action::ArmCleanup(link_index(s)),
        Stage::ConfigureDevice => Action::ConfigureDevice(link_index(s)),
        Stage::StartEngine => Action::StartEngine,
        Stage::RegisterPeer(i) => Action::RegisterPeer(i),
        Stage::RunEngine => Action::RunEngine,
        Stage::DeleteLink => Action::DeleteLink {
            index: link_index(s),
            fresh_connection: s.interrupted,
        },
        Stage::Finished => Action::Exit { error: s.error, cleanup_failed: s.cleanup_failed },
    }
}

/// Where to go when the run is to end before the engine's own end: to the
/// deletion where the interface is known, else to the end.
pub open spec fn abort_stage(s: Lifecycle) -> Stage {
    if s.link is Some {
        Stage::DeleteLink
    } else {
        Stage::Finished
    }
}

pub open spec fn advance_spec(s: Lifecycle, e: Event) -> Lifecycle {
    match s.stage {
        Stage::Finished => s,
        Stage::DeleteLink => {
            let failed = e is KeyMissing || e is Refused;
            Lifecycle {
                stage: Stage::Finished,
                deleted: true,
                error: if failed && s.interrupted {
                    Some(ErrorKind::CleanupError)
                } else {
                    s.error
                },
                cleanup_failed: failed && !s.interrupted,
                ..s
            }
        },
        _ => match e {
            Event::Interrupted => Lifecycle {
                stage: abort_stage(s),
                interrupted: true,
                error: Some(ErrorKind::Interrupted),
                ..s
            },
            Event::KeyMissing => Lifecycle {
                stage: abort_stage(s),
                error: Some(ErrorKind::KeyLoadError),
                ..s
            },
            Event::Refused => Lifecycle {
                stage: abort_stage(s),
                error: Some(stage_error(s.stage)),
                ..s
            },
            Event::Found(i) => if s.stage == Stage::LookupLink {
                Lifecycle { stage: Stage::ActivateLink, link: Some(i), ..s }
            } else {
                Lifecycle { stage: stage_after(s.stage, s.peers), ..s }
            },
            Event::Done => if s.stage == Stage::LookupLink {
                Lifecycle {
                    stage: Stage::Finished,
                    error: Some(ErrorKind::DeviceLookupError),
                    ..s
                }
            } else {
                Lifecycle { stage: stage_after(s.stage, s.peers), ..s }
            },
        },
    }
}

impl Lifecycle {
    /// Before the interface index is known there is none, after it there is
    /// one; the interface is deleted at most once, and only at the end, and
    /// at the end exactly where its index was known.
    pub open spec fn wf(&self) -> bool {
        &&& (self.stage is CreateLink || self.stage is LookupLink) ==> self.link is None
        &&& !(self.stage is CreateLink || self.stage is LookupLink || self.stage is Finished)
            ==> self.link is Some
        &&& (self.stage matches Stage::RegisterPeer(i) ==> i < self.peers)
        &&& self.deleted ==> self.stage is Finished
        &&& self.stage is Finished ==> (self.deleted <==> self.link is Some)
    }

    /// A run with `peers` peers to register.
    pub fn new(peers: usize) -> (r: Lifecycle)
        ensures
            r == initial(peers),
            r.wf(),
    {
        Lifecycle {
            stage: Stage::CreateLink,
            peers,
            link: None,
            deleted: false,
            interrupted: false,
            error: None,
            cleanup_failed: false,
        }
    }

    pub fn is_finished(&self) -> (r: bool)
        ensures
            r == (self.stage is Finished),
    {
        matches!(self.stage, Stage::Finished)
    }

    /// The action to perform now.
    pub fn next_action(&self) -> (r: Action)
        ensures
            r == next_action_spec(*self),
    {
        let index = match self.link {
            Some(i) => i,
            None => 0,
        };
        match self.stage {
            Stage::CreateLink => Action::CreateLink,
            Stage::LookupLink => Action::LookupLink,
            Stage::ActivateLink => Action::ActivateLink(index),
            Stage::ArmCleanup => Action::ArmCleanup(index),
            Stage::ConfigureDevice => Action::ConfigureDevice(index),
            Stage::StartEngine => Action::StartEngine,
            Stage::RegisterPeer(i) => Action::RegisterPeer(i),
            Stage::RunEngine => Action::RunEngine,
            Stage::DeleteLink => Action::DeleteLink {
                index,
                fresh_connection: self.interrupted,
            },
            Stage::Finished => Action::Exit {
                error: self.error,
                cleanup_failed: self.cleanup_failed,
            },
        }
    }

    /// Takes in what came of the last action.
    pub fn advance(&mut self, e: Event)
        requires
            old(self).wf(),
        ensures
            *final(self) == advance_spec(*old(self), e),
            final(self).wf(),
    {
        let s = *self;
        let abort = if s.link.is_some() {
            Stage::DeleteLink
        } else {
            Stage::Finished
        };
        match s.stage {
            Stage::Finished => {},
            Stage::DeleteLink => {
                let failed = matches!(e, Event::KeyMissing) || matches!(e, Event::Refused);
                self.stage = Stage::Finished;
                self.deleted = true;
                if failed && s.interrupted {
                    self.error = Some(ErrorKind::CleanupError);
                }
                self.cleanup_failed = failed && !s.interrupted;
            },
            _ => match e {
                Event::Interrupted => {
                    self.stage = abort;
                    self.interrupted = true;
                    self.error = Some(ErrorKind::Interrupted);
                },
                Event::KeyMissing => {
                    self.stage = abort;
                    self.error = Some(ErrorKind::KeyLoadError);
                },
                Event::Refused => {
                    self.stage = abort;
                    self.error = Some(refusal_error(s.stage));
                },
                Event::Found(i) => {
                    if matches!(s.stage, Stage::LookupLink) {
                        self.stage = Stage::ActivateLink;
                        self.link = Some(i);
                    } else {
                        self.stage = next_stage(s.stage, s.peers);
                    }
                },
                Event::Done => {
                    if matches!(s.stage, Stage::LookupLink) {
                        self.stage = Stage::Finished;
                        self.error = Some(ErrorKind::DeviceLookupError);
                    } else {
                        self.stage = next_stage(s.stage, s.peers);
                    }
                },
            },
        }
    }
}

fn refusal_error(stage: Stage) -> (r: ErrorKind)
    ensures
        r == stage_error(stage),
{
    match stage {
        Stage::CreateLink => ErrorKind::DeviceCreateError,
        Stage::LookupLink => ErrorKind::DeviceLookupError,
        Stage::ActivateLink => ErrorKind::DeviceActivateError,
        Stage::ArmCleanup => ErrorKind::SignalHandlerError,
        Stage::ConfigureDevice => ErrorKind::DeviceConfigureError,
        Stage::RegisterPeer(_) => ErrorKind::PeerRegisterError,
        Stage::DeleteLink => ErrorKind::CleanupError,
        _ => ErrorKind::EngineError,
    }
}

fn next_stage(stage: Stage, peers: usize) -> (r: Stage)
    requires
        stage matches Stage::RegisterPeer(i) ==> i < peers,
    ensures
        r == stage_after(stage, peers),
{
    match stage {
        Stage::CreateLink => Stage::LookupLink,
        Stage::LookupLink => Stage::ActivateLink,
        Stage::ActivateLink => Stage::ArmCleanup,
        Stage::ArmCleanup => Stage::ConfigureDevice,
        Stage::ConfigureDevice => Stage::StartEngine,
        Stage::StartEngine => if peers > 0 {
            Stage::RegisterPeer(0)
        } else {
            Stage::RunEngine
        },
        Stage::RegisterPeer(i) => if i + 1 < peers {
            Stage::RegisterPeer(i + 1)
        } else {
            Stage::RunEngine
        },
        Stage::RunEngine => Stage::DeleteLink,
        _ => Stage::Finished,
    }
}

/// Exit status of a run that ended with `error`.
pub fn exit_code(error: Option<ErrorKind>) -> (r: i32)
    ensures
        r == (if error is Some { 1i32 } else { 0i32 }),
{
    if error.is_some() {
        1
    } else {
        0
    }
}

/// The actions of a run from `s` on, given the events that answer them, up
/// to the exit or to the first action that no event answers yet.
pub open spec fn trace(s: Lifecycle, events: Seq<Event>) -> Seq<Action>
    decreases events.len(),
{
    if s.stage is Finished || events.len() == 0 {
        seq![next_action_spec(s)]
    } else {
        seq![next_action_spec(s)] + trace(advance_spec(s, events[0]), events.drop_first())
    }
}

/// The state that those events lead to.
pub open spec fn outcome(s: Lifecycle, events: Seq<Event>) -> Lifecycle
    decreases events.len(),
{
    if s.stage is Finished || events.len() == 0 {
        s
    } else {
        outcome(advance_spec(s, events[0]), events.drop_first())
    }
}

/// How many deletions a sequence of actions asks for.
pub open spec fn deletions(actions: Seq<Action>) -> nat
    decreases actions.len(),
{
    if actions.len() == 0 {
        0
    } else {
        (if actions[0] is DeleteLink {
            1nat
        } else {
            0nat
        }) + deletions(actions.drop_first())
    }
}

proof fn lemma_advance_wf(s: Lifecycle, e: Event)
    requires
        s.wf(),
    ensures
        advance_spec(s, e).wf(),
        advance_spec(s, e).link is Some ==> advance_spec(s, e).link == s.link || s.stage
            is LookupLink,
{
}

proof fn lemma_deletions_from(s: Lifecycle, events: Seq<Event>)
    requires
        s.wf(),
        outcome(s, events).stage is Finished,
    ensures
        deletions(trace(s, events)) + (if s.deleted {
            1nat
        } else {
            0nat
        }) == (if outcome(s, events).link is Some {
            1nat
        } else {
            0nat
        }),
    decreases events.len(),
{
    let t = trace(s, events);
    if s.stage is Finished || events.len() == 0 {
        assert(t.drop_first() =~= Seq::<Action>::empty());
        assert(deletions(t.drop_first()) == 0);
        assert(deletions(t) == 0);
    } else {
        let s2 = advance_spec(s, events[0]);
        lemma_advance_wf(s, events[0]);
        lemma_deletions_from(s2, events.drop_first());
        assert(t.drop_first() =~= trace(s2, events.drop_first()));
        assert(t[0] == next_action_spec(s));
        assert(outcome(s, events) == outcome(s2, events.drop_first()));
        assert(!s.deleted);
        assert(s2.deleted == (s.stage is DeleteLink));
    }
}

/// A run that reaches its end has asked to delete the interface exactly
/// once where its index became known, whatever ended it (the engine's
/// return, its error, a failure during start-up, an interrupt), and never
/// where the index never became known.
pub proof fn lemma_deleted_exactly_once(peers: usize, events: Seq<Event>)
    requires
        outcome(initial(peers), events).stage is Finished,
    ensures
        deletions(trace(initial(peers), events)) == (if outcome(initial(peers), events).link
            is Some {
            1nat
        } else {
            0nat
        }),
{
    lemma_deletions_from(initial(peers), events);
}

/// Where the creation of the interface does not succeed, the run ends at
/// once: no activation, configuration, registration or deletion follows,
/// and the exit carries the failure.
pub proof fn lemma_create_failure_ends_run(peers: usize, events: Seq<Event>)
    requires
        events.len() > 0,
        !(events[0] is Done || events[0] is Found),
    ensures
        trace(initial(peers), events) == seq![
            Action::CreateLink,
            Action::Exit {
                error: Some(
                    match events[0] {
                        Event::KeyMissing => ErrorKind::KeyLoadError,
                        Event::Interrupted => ErrorKind::Interrupted,
                        _ => ErrorKind::DeviceCreateError,
                    },
                ),
                cleanup_failed: false,
            },
        ],
        outcome(initial(peers), events).link is None,
{
    let s2 = advance_spec(initial(peers), events[0]);
    assert(s2.stage is Finished);
    assert(outcome(s2, events.drop_first()) == s2);
    assert(trace(initial(peers), events) =~= seq![next_action_spec(initial(peers))]
        + trace(s2, events.drop_first()));
}

} // verus!
