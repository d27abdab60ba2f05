//! The two commands that the GUI may invoke, and the call on the native
//! emulation session that each one issues.
use vstd::prelude::*;

verus! {

/// A command invoked from the GUI.
#[derive(Clone, Copy, Debug, PartialEq, Eq, Structural)]
pub enum Command {
    StartEmulation,
    StopEmulation,
}

/// A call on the process-wide native emulation session.
#[derive(Clone, Copy, Debug, PartialEq, Eq, Structural)]
pub enum SessionCall {
    Start,
    Stop,
}

/// The one native call that command `c` issues.
pub open spec fn call_of(c: Command) -> SessionCall {
    match c {
        Command::StartEmulation => SessionCall::Start,
        Command::StopEmulation => SessionCall::Stop,
    }
}

/// The native calls that a run of commands issues, in order.
pub open spec fn calls_of(cmds: Seq<Command>) -> Seq<SessionCall>
    decreases cmds.len(),
{
    if cmds.len() == 0 {
        Seq::empty()
    } else {
        calls_of(cmds.drop_last()).push(call_of(cmds.last()))
    }
}

/// The native call that the start command issues.
pub fn start_emulation() -> (c: SessionCall)
    ensures
        c == call_of(Command::StartEmulation),
        c == SessionCall::Start,
{
    SessionCall::Start
}

/// The native call that the stop command issues.
pub fn stop_emulation() -> (c: SessionCall)
    ensures
        c == call_of(Command::StopEmulation),
        c == SessionCall::Stop,
{
    SessionCall::Stop
}

/// Each command issues exactly one native call, and the calls keep the order
/// of the commands.
pub proof fn lemma_one_call_per_command(cmds: Seq<Command>)
    ensures
        calls_of(cmds).len() == cmds.len(),
        forall|i: int| 0 <= i < cmds.len() ==> calls_of(cmds)[i] == call_of(cmds[i]),
    decreases cmds.len(),
{
    if cmds.len() > 0 {
        lemma_one_call_per_command(cmds.drop_last());
        assert forall|i: int| 0 <= i < cmds.len() implies calls_of(cmds)[i] == call_of(
            cmds[i],
        ) by {
            if i < cmds.len() - 1 {
                assert(cmds.drop_last()[i] == cmds[i]);
            }
        }
    }
}

/// Starting then stopping issues exactly one native start followed by
/// exactly one native stop.
pub proof fn lemma_start_then_stop()
    ensures
        calls_of(seq![Command::StartEmulation, Command::StopEmulation]) == seq![
            SessionCall::Start,
            SessionCall::Stop,
        ],
{
    let cmds = seq![Command::StartEmulation, Command::StopEmulation];
    lemma_one_call_per_command(cmds);
    assert(calls_of(cmds) =~= seq![SessionCall::Start, SessionCall::Stop]);
}

} // verus!
