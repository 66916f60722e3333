//! Platform control channel logic: the closed set of control commands with
//! their fixed wire codes, acknowledgement checking, and the bring-up
//! (bootstrap) decision machine with its connect-retry policy.
//!
//! The machine owns every decision of the bring-up: which command to issue
//! next, when to retry the whole connect-and-issue attempt, and when to give
//! up. The driver around it only connects, writes a command word, reads an
//! acknowledgement word, and reports what happened.

use vstd::prelude::*;
use crate::errors::TpmError;

verus! {

/// Control commands, a closed set with fixed numeric wire codes.
#[derive(PartialEq, Eq, Copy, Clone, Debug, Structural)]
pub enum TpmCommand {
    PowerOn,
    PowerOff,
    SendCommand,
    NvOn,
    NvOff,
}

/// The stable numeric wire code of each control command.
pub open spec fn code_of(c: TpmCommand) -> u32 {
    match c {
        TpmCommand::PowerOn => 1,
        TpmCommand::PowerOff => 2,
        TpmCommand::SendCommand => 8,
        TpmCommand::NvOn => 11,
        TpmCommand::NvOff => 12,
    }
}

impl TpmCommand {
    /// The numeric wire code of this command.
    pub fn code(self) -> (c: u32)
        ensures
            c == code_of(self),
    {
        match self {
            TpmCommand::PowerOn => 1,
            TpmCommand::PowerOff => 2,
            TpmCommand::SendCommand => 8,
            TpmCommand::NvOn => 11,
            TpmCommand::NvOff => 12,
        }
    }
}

/// A platform command succeeds exactly when the acknowledgement word is
/// zero; a nonzero word is a protocol violation carrying that code.
pub fn check_platform_ack(rc: u32) -> (r: Result<(), TpmError>)
    ensures
        r is Ok <==> rc == 0,
        rc != 0 ==> r == Err::<(), TpmError>(TpmError::ProtocolViolation { code: rc }),
{
    if rc == 0 {
        Ok(())
    } else {
        Err(TpmError::ProtocolViolation { code: rc })
    }
}

/// How many times a failed connect-and-bring-up attempt is retried after the
/// first failure.
pub const RETRY_LIMIT: u32 = 3;

/// How many commands the bring-up sequence issues.
pub const SEQUENCE_LEN: u32 = 4;

/// The fixed bring-up sequence, issued in this exact order.
pub open spec fn control_sequence() -> Seq<TpmCommand> {
    seq![TpmCommand::NvOff, TpmCommand::PowerOff, TpmCommand::PowerOn, TpmCommand::NvOn]
}

/// The control command issued at the given step of the bring-up sequence.
pub fn bootstrap_command(step: u32) -> (c: TpmCommand)
    requires
        step < SEQUENCE_LEN,
    ensures
        c == control_sequence()[step as int],
{
    if step == 0 {
        TpmCommand::NvOff
    } else if step == 1 {
        TpmCommand::PowerOff
    } else if step == 2 {
        TpmCommand::PowerOn
    } else {
        TpmCommand::NvOn
    }
}

/// State of the bring-up machine.
///
/// `attempts` counts the failed connect-and-bring-up attempts so far; once it
/// would pass [`RETRY_LIMIT`] the machine fails instead of retrying. A
/// connection failure surfaces as `IoError`: the driver that saw the real
/// connection error reports that original error to its caller.
#[derive(PartialEq, Eq, Copy, Clone, Debug, Structural)]
pub enum BootstrapState {
    Connect { attempts: u32 },
    Issue { attempts: u32, step: u32 },
    Done,
    Failed { err: TpmError },
}

/// What the driver observed while performing the requested action.
#[derive(PartialEq, Eq, Copy, Clone, Debug, Structural)]
pub enum BootstrapEvent {
    Connected,
    ConnectFailed,
    Ack { rc: u32 },
    IoFailed,
}

/// What the driver must do next in a given state.
#[derive(PartialEq, Eq, Copy, Clone, Debug, Structural)]
pub enum BootstrapAction {
    Connect { pause_first: bool },
    Issue { command: TpmCommand },
    Stop,
}

/// Well-formedness of a bring-up state: the retry counter never passes the
/// limit and the step index stays inside the sequence.
pub open spec fn bootstrap_wf(s: BootstrapState) -> bool {
    match s {
        BootstrapState::Connect { attempts } => attempts <= RETRY_LIMIT,
        BootstrapState::Issue { attempts, step } => attempts <= RETRY_LIMIT && step
            < SEQUENCE_LEN,
        BootstrapState::Done => true,
        BootstrapState::Failed { err } => true,
    }
}

/// The transition relation of the bring-up machine.
///
/// A failed attempt — whether the connect was refused, a command drew a
/// nonzero acknowledgement, or its I/O failed — retries the whole
/// connect-and-issue attempt until the retry limit is exhausted, then fails
/// with that attempt's error. A nonzero acknowledgement never advances the
/// sequence: later commands of the aborted attempt are not issued.
pub open spec fn bootstrap_step_spec(s: BootstrapState, e: BootstrapEvent) -> BootstrapState {
    match (s, e) {
        (BootstrapState::Connect { attempts }, BootstrapEvent::Connected) => BootstrapState::Issue {
            attempts,
            step: 0,
        },
        (BootstrapState::Connect { attempts }, BootstrapEvent::ConnectFailed) => if attempts
            >= RETRY_LIMIT {
            BootstrapState::Failed { err: TpmError::IoError }
        } else {
            BootstrapState::Connect { attempts: (attempts + 1) as u32 }
        },
        (BootstrapState::Issue { attempts, step }, BootstrapEvent::Ack { rc }) => if rc == 0 {
            if step + 1 >= SEQUENCE_LEN {
                BootstrapState::Done
            } else {
                BootstrapState::Issue { attempts, step: (step + 1) as u32 }
            }
        } else {
            if attempts >= RETRY_LIMIT {
                BootstrapState::Failed { err: TpmError::ProtocolViolation { code: rc } }
            } else {
                BootstrapState::Connect { attempts: (attempts + 1) as u32 }
            }
        },
        (BootstrapState::Issue { attempts, step }, BootstrapEvent::IoFailed) => if attempts
            >= RETRY_LIMIT {
            BootstrapState::Failed { err: TpmError::IoError }
        } else {
            BootstrapState::Connect { attempts: (attempts + 1) as u32 }
        },
        _ => s,
    }
}

/// The starting state of a bring-up session.
pub fn bootstrap_init() -> (s: BootstrapState)
    ensures
        s == (BootstrapState::Connect { attempts: 0u32 }),
        bootstrap_wf(s),
{
    BootstrapState::Connect { attempts: 0 }
}

/// Executable counterpart of [`bootstrap_wf`], so that an unverified driver
/// can test a state's well-formedness before asking for its action.
pub fn bootstrap_wf_check(s: BootstrapState) -> (b: bool)
    ensures
        b == bootstrap_wf(s),
{
    match s {
        BootstrapState::Connect { attempts } => attempts <= RETRY_LIMIT,
        BootstrapState::Issue { attempts, step } => attempts <= RETRY_LIMIT && step
            < SEQUENCE_LEN,
        BootstrapState::Done => true,
        BootstrapState::Failed { err: _ } => true,
    }
}

/// Advances the bring-up machine by one observed event. Well-formedness is
/// preserved: from a well-formed state every successor is well-formed again.
pub fn bootstrap_step(s: BootstrapState, e: BootstrapEvent) -> (s2: BootstrapState)
    ensures
        s2 == bootstrap_step_spec(s, e),
        bootstrap_wf(s) ==> bootstrap_wf(s2),
{
    match (s, e) {
        (BootstrapState::Connect { attempts }, BootstrapEvent::Connected) => BootstrapState::Issue {
            attempts,
            step: 0,
        },
        (BootstrapState::Connect { attempts }, BootstrapEvent::ConnectFailed) => if attempts
            >= RETRY_LIMIT {
            BootstrapState::Failed { err: TpmError::IoError }
        } else {
            BootstrapState::Connect { attempts: attempts + 1 }
        },
        (BootstrapState::Issue { attempts, step }, BootstrapEvent::Ack { rc }) => if rc == 0 {
            if step >= SEQUENCE_LEN - 1 {
                BootstrapState::Done
            } else {
                BootstrapState::Issue { attempts, step: step + 1 }
            }
        } else {
            if attempts >= RETRY_LIMIT {
                BootstrapState::Failed { err: TpmError::ProtocolViolation { code: rc } }
            } else {
                BootstrapState::Connect { attempts: attempts + 1 }
            }
        },
        (BootstrapState::Issue { attempts, step }, BootstrapEvent::IoFailed) => if attempts
            >= RETRY_LIMIT {
            BootstrapState::Failed { err: TpmError::IoError }
        } else {
            BootstrapState::Connect { attempts: attempts + 1 }
        },
        _ => s,
    }
}

/// The next action of the driver in a given state.
pub open spec fn bootstrap_action_spec(s: BootstrapState) -> BootstrapAction {
    match s {
        BootstrapState::Connect { attempts } => BootstrapAction::Connect {
            pause_first: attempts > 0,
        },
        BootstrapState::Issue { attempts, step } => BootstrapAction::Issue {
            command: control_sequence()[step as int],
        },
        BootstrapState::Done => BootstrapAction::Stop,
        BootstrapState::Failed { err } => BootstrapAction::Stop,
    }
}

/// Tells the driver what to do next: connect (pausing first on a retry),
/// issue the next command of the sequence, or stop.
pub fn bootstrap_action(s: BootstrapState) -> (a: BootstrapAction)
    requires
        bootstrap_wf(s),
    ensures
        a == bootstrap_action_spec(s),
{
    match s {
        BootstrapState::Connect { attempts } => BootstrapAction::Connect {
            pause_first: attempts > 0,
        },
        BootstrapState::Issue { attempts: _, step } => BootstrapAction::Issue {
            command: bootstrap_command(step),
        },
        BootstrapState::Done => BootstrapAction::Stop,
        BootstrapState::Failed { err: _ } => BootstrapAction::Stop,
    }
}

/// The state the machine reaches from `s` after the whole event sequence.
pub open spec fn bootstrap_run(s: BootstrapState, evs: Seq<BootstrapEvent>) -> BootstrapState
    decreases evs.len(),
{
    if evs.len() == 0 {
        s
    } else {
        bootstrap_run(bootstrap_step_spec(s, evs[0]), evs.skip(1))
    }
}

/// Well-formedness is an invariant of whole runs: from a well-formed state,
/// every event sequence leaves the machine well-formed — the retry counter
/// never passes the limit and the step index never leaves the sequence.
pub proof fn lemma_bootstrap_run_wf(s: BootstrapState, evs: Seq<BootstrapEvent>)
    requires
        bootstrap_wf(s),
    ensures
        bootstrap_wf(bootstrap_run(s, evs)),
    decreases evs.len(),
{
    if evs.len() > 0 {
        lemma_bootstrap_run_wf(bootstrap_step_spec(s, evs[0]), evs.skip(1));
    }
}

/// Against an endpoint answering only zero acknowledgements, the issue phase
/// walks the bring-up sequence NvOff, PowerOff, PowerOn, NvOn one step at a
/// time, in that exact order, and ends in `Done`.
pub proof fn lemma_bootstrap_sequence_success(attempts: u32)
    requires
        attempts <= RETRY_LIMIT,
    ensures
        ({
            let z = BootstrapEvent::Ack { rc: 0 };
            &&& bootstrap_step_spec(BootstrapState::Issue { attempts, step: 0 }, z)
                == (BootstrapState::Issue { attempts, step: 1 })
            &&& bootstrap_step_spec(BootstrapState::Issue { attempts, step: 1 }, z)
                == (BootstrapState::Issue { attempts, step: 2 })
            &&& bootstrap_step_spec(BootstrapState::Issue { attempts, step: 2 }, z)
                == (BootstrapState::Issue { attempts, step: 3 })
            &&& bootstrap_step_spec(BootstrapState::Issue { attempts, step: 3 }, z)
                == BootstrapState::Done
            &&& bootstrap_run(BootstrapState::Issue { attempts, step: 0 }, seq![z, z, z, z])
                == BootstrapState::Done
        }),
{
    let z = BootstrapEvent::Ack { rc: 0 };
    let e0 = seq![z, z, z, z];
    reveal_with_fuel(bootstrap_run, 5);
    assert(e0.skip(1) =~= seq![z, z, z]);
    assert(seq![z, z, z].skip(1) =~= seq![z, z]);
    assert(seq![z, z].skip(1) =~= seq![z]);
    assert(seq![z].skip(1) =~= Seq::<BootstrapEvent>::empty());
}

/// A nonzero acknowledgement aborts the bring-up sequence at once: the
/// machine leaves the issue phase, so no later command of that attempt is
/// issued. While retries remain it starts a fresh connect attempt; once the
/// retry limit is exhausted it fails with a protocol violation carrying the
/// offending code.
pub proof fn lemma_bootstrap_nonzero_ack_aborts(attempts: u32, step: u32, rc: u32)
    requires
        attempts <= RETRY_LIMIT,
        step < SEQUENCE_LEN,
        rc != 0,
    ensures
        bootstrap_step_spec(BootstrapState::Issue { attempts, step }, BootstrapEvent::Ack { rc })
            == if attempts == RETRY_LIMIT {
            BootstrapState::Failed { err: TpmError::ProtocolViolation { code: rc } }
        } else {
            BootstrapState::Connect { attempts: (attempts + 1) as u32 }
        },
{
}

/// An endpoint refusing the first two connection attempts and accepting the
/// third still lets the bring-up succeed, provided the sequence then draws
/// only zero acknowledgements.
pub proof fn lemma_bootstrap_retry_then_success()
    ensures
        ({
            let cf = BootstrapEvent::ConnectFailed;
            let z = BootstrapEvent::Ack { rc: 0 };
            bootstrap_run(
                BootstrapState::Connect { attempts: 0 },
                seq![cf, cf, BootstrapEvent::Connected, z, z, z, z],
            ) == BootstrapState::Done
        }),
{
    let cf = BootstrapEvent::ConnectFailed;
    let cn = BootstrapEvent::Connected;
    let z = BootstrapEvent::Ack { rc: 0 };
    let e0 = seq![cf, cf, cn, z, z, z, z];
    reveal_with_fuel(bootstrap_run, 8);
    assert(e0.skip(1) =~= seq![cf, cn, z, z, z, z]);
    assert(seq![cf, cn, z, z, z, z].skip(1) =~= seq![cn, z, z, z, z]);
    assert(seq![cn, z, z, z, z].skip(1) =~= seq![z, z, z, z]);
    assert(seq![z, z, z, z].skip(1) =~= seq![z, z, z]);
    assert(seq![z, z, z].skip(1) =~= seq![z, z]);
    assert(seq![z, z].skip(1) =~= seq![z]);
    assert(seq![z].skip(1) =~= Seq::<BootstrapEvent>::empty());
}

/// An endpoint refusing four connection attempts in a row exhausts the retry
/// limit: the bring-up fails, and the failure stands for the connection
/// error itself — the driver surfaces the original connection error it
/// recorded.
pub proof fn lemma_bootstrap_connect_exhaustion()
    ensures
        ({
            let cf = BootstrapEvent::ConnectFailed;
            bootstrap_run(BootstrapState::Connect { attempts: 0 }, seq![cf, cf, cf, cf])
                == (BootstrapState::Failed { err: TpmError::IoError })
        }),
{
    let cf = BootstrapEvent::ConnectFailed;
    let e0 = seq![cf, cf, cf, cf];
    reveal_with_fuel(bootstrap_run, 5);
    assert(e0.skip(1) =~= seq![cf, cf, cf]);
    assert(seq![cf, cf, cf].skip(1) =~= seq![cf, cf]);
    assert(seq![cf, cf].skip(1) =~= seq![cf]);
    assert(seq![cf].skip(1) =~= Seq::<BootstrapEvent>::empty());
}

} // verus!
