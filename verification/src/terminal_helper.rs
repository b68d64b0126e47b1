//! The helper that runs the shell of a remote terminal as the user who is logged
//! in. It stands between two pipes of the service and a terminal of its own.
use crate::text::parse_number;
use vstd::prelude::*;

verus! {

/// How many bytes are carried at once.
pub const BUFFER_SIZE: usize = 4096;

/// How long a side that has nothing to say is left alone.
pub const PAUSE_MS: u64 = 10;

/// What the terminal helper is told.
#[derive(Debug)]
pub struct TerminalHelperArgs {
    pub input_pipe: String,
    pub output_pipe: String,
    pub rows: u16,
    pub cols: u16,
}

/// A size in an argument, or the usual one where it is no such number.
pub open spec fn size_or(arg: Seq<char>, usual: u16) -> u16 {
    match crate::text::bounded_number(arg, u16::MAX as nat) {
        Some(n) => n as u16,
        None => usual,
    }
}

fn parse_size(arg: &str, usual: u16) -> (r: u16)
    ensures
        r == size_or(arg@, usual),
{
    match parse_number(arg, 0xffff) {
        Some(n) => n as u16,
        None => usual,
    }
}

/// Reads the arguments of the terminal helper: two pipes and a size.
pub fn terminal_helper_args(args: &Vec<String>) -> (r: Result<TerminalHelperArgs, &'static str>)
    ensures
        match r {
            Ok(parsed) => args@.len() >= 4 && parsed.input_pipe@ == args@[0]@
                && parsed.output_pipe@ == args@[1]@ && parsed.rows == size_or(args@[2]@, 24)
                && parsed.cols == size_or(args@[3]@, 80),
            Err(e) => args@.len() < 4 && e@
                == "Usage: --terminal-helper <input_pipe> <output_pipe> <rows> <cols>"@,
        },
{
    if args.len() < 4 {
        return Err("Usage: --terminal-helper <input_pipe> <output_pipe> <rows> <cols>");
    }
    Ok(
        TerminalHelperArgs {
            input_pipe: args[0].clone(),
            output_pipe: args[1].clone(),
            rows: parse_size(args[2].as_str(), 24),
            cols: parse_size(args[3].as_str(), 80),
        },
    )
}

/// The shells to look for, the preferred one first.
pub fn shell_candidates() -> (r: Vec<&'static str>)
    ensures
        r@.len() == 4,
        r@[0]@ == "pwsh.exe"@,
        r@[1]@ == "C:\\Program Files\\PowerShell\\7\\pwsh.exe"@,
        r@[2]@ == "C:\\Program Files\\PowerShell\\6\\pwsh.exe"@,
        r@[3]@ == "C:\\Windows\\System32\\WindowsPowerShell\\v1.0\\powershell.exe"@,
{
    let mut shells: Vec<&'static str> = Vec::new();
    shells.push("pwsh.exe");
    shells.push("C:\\Program Files\\PowerShell\\7\\pwsh.exe");
    shells.push("C:\\Program Files\\PowerShell\\6\\pwsh.exe");
    shells.push("C:\\Windows\\System32\\WindowsPowerShell\\v1.0\\powershell.exe");
    shells
}

/// The shell to start: the first one that is there, else the one of the
/// environment, else the plain one.
pub fn get_default_shell(shells: &Vec<&'static str>, present: &Vec<bool>, comspec: Option<String>) -> (r:
    String)
    requires
        present@.len() == shells@.len(),
    ensures
        (forall|k: int| 0 <= k < present@.len() ==> !#[trigger] present@[k]) ==> r@ == (
        match comspec {
            Some(shell) => shell@,
            None => "cmd.exe"@,
        }),
        (exists|k: int| 0 <= k < present@.len() && #[trigger] present@[k]) ==> exists|i: int|
            0 <= i < shells@.len() && #[trigger] present@[i] && r@ == shells@[i]@ && forall|k: int|
                0 <= k < i ==> !#[trigger] present@[k],
{
    let mut i: usize = 0;
    while i < shells.len()
        invariant
            present@.len() == shells@.len(),
            i <= shells@.len(),
            forall|k: int| 0 <= k < i ==> !#[trigger] present@[k],
        decreases shells.len() - i,
    {
        if present[i] {
            assert(present@[i as int]);
            return shells[i].to_owned();
        }
        i = i + 1;
    }
    match comspec {
        Some(shell) => shell,
        None => "cmd.exe".to_owned(),
    }
}

/// What the helper does next.
#[derive(Clone, Copy, Debug, PartialEq, Eq, Structural)]
pub enum HelperStep {
    OpenInput,
    OpenOutput,
    OpenTerminal,
    SpawnShell,
    TakeWriter,
    CloneReader,
    StartPumps,
    WaitForShell,
    /// Tell both pumps to end.
    EndPumps,
    JoinInput,
    JoinOutput,
    Finished,
    Failed,
}

/// Whether a step can fail the helper. How the shell and the pumps end does not.
pub open spec fn can_fail(step: HelperStep) -> bool {
    step is OpenInput || step is OpenOutput || step is OpenTerminal || step is SpawnShell
        || step is TakeWriter || step is CloneReader
}

/// The step behind one that went well.
pub open spec fn following(step: HelperStep) -> HelperStep {
    match step {
        HelperStep::OpenInput => HelperStep::OpenOutput,
        HelperStep::OpenOutput => HelperStep::OpenTerminal,
        HelperStep::OpenTerminal => HelperStep::SpawnShell,
        HelperStep::SpawnShell => HelperStep::TakeWriter,
        HelperStep::TakeWriter => HelperStep::CloneReader,
        HelperStep::CloneReader => HelperStep::StartPumps,
        HelperStep::StartPumps => HelperStep::WaitForShell,
        HelperStep::WaitForShell => HelperStep::EndPumps,
        HelperStep::EndPumps => HelperStep::JoinInput,
        HelperStep::JoinInput => HelperStep::JoinOutput,
        HelperStep::JoinOutput => HelperStep::Finished,
        HelperStep::Finished => HelperStep::Finished,
        HelperStep::Failed => HelperStep::Failed,
    }
}

/// The step behind one that went well or not.
pub open spec fn helper_step(step: HelperStep, went_well: bool) -> HelperStep {
    if can_fail(step) && !went_well {
        HelperStep::Failed
    } else {
        following(step)
    }
}

/// The step that is reached when the steps went as listed.
pub open spec fn helper_steps(outcomes: Seq<bool>) -> HelperStep
    decreases outcomes.len(),
{
    if outcomes.len() == 0 {
        HelperStep::OpenInput
    } else {
        helper_step(helper_steps(outcomes.drop_last()), outcomes.last())
    }
}

/// Starts the helper, which only one system has. Its first step is to open the
/// pipe that it reads.
pub fn run_terminal_helper(on_windows: bool, args: &Vec<String>) -> (r: Result<
    (TerminalHelperArgs, HelperStep),
    &'static str,
>)
    ensures
        match r {
            Ok((parsed, step)) => on_windows && args@.len() >= 4 && step == HelperStep::OpenInput
                && parsed.input_pipe@ == args@[0]@ && parsed.output_pipe@ == args@[1]@
                && parsed.rows == size_or(args@[2]@, 24) && parsed.cols == size_or(args@[3]@, 80),
            Err(e) => if on_windows {
                args@.len() < 4 && e@
                    == "Usage: --terminal-helper <input_pipe> <output_pipe> <rows> <cols>"@
            } else {
                e@ == "Terminal helper is only supported on Windows"@
            },
        },
{
    if !on_windows {
        return Err("Terminal helper is only supported on Windows");
    }
    match terminal_helper_args(args) {
        Ok(parsed) => Ok((parsed, HelperStep::OpenInput)),
        Err(usage) => Err(usage),
    }
}

impl HelperStep {
    /// The step behind this one.
    pub fn next(self, went_well: bool) -> (r: HelperStep)
        ensures
            r == helper_step(self, went_well),
    {
        let (following, can_fail) = match self {
            HelperStep::OpenInput => (HelperStep::OpenOutput, true),
            HelperStep::OpenOutput => (HelperStep::OpenTerminal, true),
            HelperStep::OpenTerminal => (HelperStep::SpawnShell, true),
            HelperStep::SpawnShell => (HelperStep::TakeWriter, true),
            HelperStep::TakeWriter => (HelperStep::CloneReader, true),
            HelperStep::CloneReader => (HelperStep::StartPumps, true),
            HelperStep::StartPumps => (HelperStep::WaitForShell, false),
            HelperStep::WaitForShell => (HelperStep::EndPumps, false),
            HelperStep::EndPumps => (HelperStep::JoinInput, false),
            HelperStep::JoinInput => (HelperStep::JoinOutput, false),
            HelperStep::JoinOutput => (HelperStep::Finished, false),
            HelperStep::Finished => (HelperStep::Finished, false),
            HelperStep::Failed => (HelperStep::Failed, false),
        };
        if can_fail && !went_well {
            HelperStep::Failed
        } else {
            following
        }
    }

    /// What is said where this step fails for a reason.
    pub fn failure(self, reason: &str) -> (r: String)
        requires
            can_fail(self),
        ensures
            r@ == (match self {
                HelperStep::OpenInput => "Failed to open input pipe: "@ + reason@,
                HelperStep::OpenOutput => "Failed to open output pipe: "@ + reason@,
                HelperStep::OpenTerminal => "Failed to open PTY"@,
                HelperStep::SpawnShell => "Failed to spawn shell"@,
                HelperStep::TakeWriter => "Failed to get PTY writer"@,
                _ => "Failed to get PTY reader"@,
            }),
    {
        match self {
            HelperStep::OpenInput => {
                let mut text = "Failed to open input pipe: ".to_owned();
                text.append(reason);
                text
            },
            HelperStep::OpenOutput => {
                let mut text = "Failed to open output pipe: ".to_owned();
                text.append(reason);
                text
            },
            HelperStep::OpenTerminal => "Failed to open PTY".to_owned(),
            HelperStep::SpawnShell => "Failed to spawn shell".to_owned(),
            HelperStep::TakeWriter => "Failed to get PTY writer".to_owned(),
            _ => "Failed to get PTY reader".to_owned(),
        }
    }
}

/// What a pump does next. It carries bytes from a reader to a writer.
#[derive(Clone, Copy, Debug, PartialEq, Eq, Structural)]
pub enum PumpStep {
    /// Look whether the helper is ending.
    Look,
    /// Read into the buffer.
    Read,
    /// Write so many bytes from the front of the buffer.
    Write(usize),
    Flush,
    Pause,
    Stop,
}

/// What came of a step.
#[derive(Clone, Copy, Debug, PartialEq, Eq, Structural)]
pub enum PumpEvent {
    Ending(bool),
    /// So many bytes were read. There are none at the end.
    Received(usize),
    WouldBlock,
    Failed,
    Done,
}

/// Whether something can come of a step.
pub open spec fn can_come(step: PumpStep, event: PumpEvent) -> bool {
    match step {
        PumpStep::Look => event is Ending,
        PumpStep::Read => (event matches PumpEvent::Received(count) && count <= BUFFER_SIZE)
            || event is WouldBlock || event is Failed,
        PumpStep::Write(_) | PumpStep::Flush => event is Done || event is Failed,
        PumpStep::Pause => event is Done,
        PumpStep::Stop => false,
    }
}

/// The step behind one, by what came of it.
pub open spec fn pump_step(step: PumpStep, event: PumpEvent) -> PumpStep {
    match (step, event) {
        (PumpStep::Look, PumpEvent::Ending(false)) => PumpStep::Read,
        (PumpStep::Read, PumpEvent::Received(count)) => if count == 0 {
            PumpStep::Stop
        } else {
            PumpStep::Write(count)
        },
        (PumpStep::Read, PumpEvent::WouldBlock) => PumpStep::Pause,
        (PumpStep::Write(_), PumpEvent::Done) => PumpStep::Flush,
        (PumpStep::Flush, PumpEvent::Done) => PumpStep::Look,
        (PumpStep::Pause, PumpEvent::Done) => PumpStep::Look,
        _ => PumpStep::Stop,
    }
}

impl PumpStep {
    /// The step behind this one.
    pub fn next(self, event: PumpEvent) -> (r: PumpStep)
        requires
            can_come(self, event),
        ensures
            r == pump_step(self, event),
    {
        match (self, event) {
            (PumpStep::Look, PumpEvent::Ending(ending)) => if ending {
                PumpStep::Stop
            } else {
                PumpStep::Read
            },
            (PumpStep::Read, PumpEvent::Received(count)) => if count == 0 {
                PumpStep::Stop
            } else {
                PumpStep::Write(count)
            },
            (PumpStep::Read, PumpEvent::WouldBlock) => PumpStep::Pause,
            (PumpStep::Write(_), PumpEvent::Done) => PumpStep::Flush,
            (PumpStep::Flush, PumpEvent::Done) => PumpStep::Look,
            (PumpStep::Pause, PumpEvent::Done) => PumpStep::Look,
            _ => PumpStep::Stop,
        }
    }
}

/// The step that a pump reaches by what came of its steps.
pub open spec fn pump_steps(events: Seq<PumpEvent>) -> PumpStep
    decreases events.len(),
{
    if events.len() == 0 {
        PumpStep::Look
    } else {
        pump_step(pump_steps(events.drop_last()), events.last())
    }
}

/// Whether all of it can come, one behind the other.
pub open spec fn can_all_come(events: Seq<PumpEvent>) -> bool
    decreases events.len(),
{
    events.len() == 0 || (can_all_come(events.drop_last()) && can_come(
        pump_steps(events.drop_last()),
        events.last(),
    ))
}

/// How many bytes were read.
pub open spec fn received(events: Seq<PumpEvent>) -> nat
    decreases events.len(),
{
    if events.len() == 0 {
        0
    } else {
        received(events.drop_last()) + match events.last() {
            PumpEvent::Received(count) => count as nat,
            _ => 0,
        }
    }
}

/// How many bytes were written.
pub open spec fn written(events: Seq<PumpEvent>) -> nat
    decreases events.len(),
{
    if events.len() == 0 {
        0
    } else {
        written(events.drop_last()) + match (pump_steps(events.drop_last()), events.last()) {
            (PumpStep::Write(count), PumpEvent::Done) => count as nat,
            _ => 0,
        }
    }
}

/// Everything that a pump has read is written before it reads again or looks
/// whether to end. Where it stops, all is written but for what one failed write
/// left behind.
pub proof fn law_what_is_read_is_written(events: Seq<PumpEvent>)
    requires
        can_all_come(events),
    ensures
        match pump_steps(events) {
            PumpStep::Write(count) => received(events) == written(events) + count && 0 < count
                <= BUFFER_SIZE,
            PumpStep::Stop => written(events) <= received(events) <= written(events) + BUFFER_SIZE,
            _ => received(events) == written(events),
        },
        pump_steps(events) is Stop && !(events.last() is Failed) ==> received(events) == written(
            events,
        ),
    decreases events.len(),
{
    if events.len() > 0 {
        law_what_is_read_is_written(events.drop_last());
    }
}

/// The pumps start only where both pipes, the terminal and the shell are there; where
/// one of these is missing the helper has failed and does nothing more.
pub proof fn law_pumps_need_everything(outcomes: Seq<bool>)
    ensures
        (exists|i: int| 0 <= i < 6 && i < outcomes.len() && !#[trigger] outcomes[i])
            <==> helper_steps(outcomes) == HelperStep::Failed,
        helper_steps(outcomes) == HelperStep::StartPumps <==> outcomes.len() == 6 && forall|i: int|
            0 <= i < 6 ==> #[trigger] outcomes[i],
        helper_steps(outcomes) == HelperStep::Finished <==> outcomes.len() >= 11 && forall|i: int|
            0 <= i < 6 ==> #[trigger] outcomes[i],
{
    lemma_helper_steps(outcomes);
}

/// The steps by their number.
spec fn numbered(n: nat) -> HelperStep {
    if n == 0 {
        HelperStep::OpenInput
    } else if n == 1 {
        HelperStep::OpenOutput
    } else if n == 2 {
        HelperStep::OpenTerminal
    } else if n == 3 {
        HelperStep::SpawnShell
    } else if n == 4 {
        HelperStep::TakeWriter
    } else if n == 5 {
        HelperStep::CloneReader
    } else if n == 6 {
        HelperStep::StartPumps
    } else if n == 7 {
        HelperStep::WaitForShell
    } else if n == 8 {
        HelperStep::EndPumps
    } else if n == 9 {
        HelperStep::JoinInput
    } else if n == 10 {
        HelperStep::JoinOutput
    } else {
        HelperStep::Finished
    }
}

proof fn lemma_helper_steps(outcomes: Seq<bool>)
    ensures
        helper_steps(outcomes) == (if exists|i: int|
            0 <= i < 6 && i < outcomes.len() && !#[trigger] outcomes[i] {
            HelperStep::Failed
        } else {
            numbered(outcomes.len())
        }),
    decreases outcomes.len(),
{
    if outcomes.len() > 0 {
        let before = outcomes.drop_last();
        lemma_helper_steps(before);
        assert forall|i: int| 0 <= i < before.len() implies before[i] == outcomes[i] by {}
        if exists|i: int| 0 <= i < 6 && i < outcomes.len() && !#[trigger] outcomes[i] {
            let i = choose|i: int| 0 <= i < 6 && i < outcomes.len() && !#[trigger] outcomes[i];
            if i < before.len() {
                assert(!before[i]);
            } else {
                assert(!outcomes.last());
            }
        } else if outcomes.len() <= 6 {
            assert(outcomes[outcomes.len() - 1]);
        }
    }
}

/// A size is what its argument says where that is a number that fits; every size can be
/// said.
pub proof fn law_sizes_are_read(n: u16, usual: u16, arg: Seq<char>)
    ensures
        size_or(crate::text::decimal(n as nat), usual) == n,
        crate::text::number_value(arg) is None ==> size_or(arg, usual) == usual,
        crate::text::number_value(arg) matches Some(v) ==> (v > 65535 ==> size_or(arg, usual)
            == usual),
        crate::text::number_value(arg) matches Some(v) ==> (v <= 65535 ==> size_or(arg, usual)
            == v),
{
    crate::text::law_decimal_round_trip(n as nat);
}

/// Each step of the helper is taken right behind the one before it. Only what is needed
/// for the pumps can fail the helper, and a failed helper has not started them.
pub proof fn law_order_of_the_helper(step: HelperStep, went_well: bool)
    ensures
        ({
            let next = helper_step(step, went_well);
            &&& next != HelperStep::OpenInput
            &&& next == HelperStep::OpenOutput <==> step == HelperStep::OpenInput && went_well
            &&& next == HelperStep::OpenTerminal <==> step == HelperStep::OpenOutput && went_well
            &&& next == HelperStep::SpawnShell <==> step == HelperStep::OpenTerminal && went_well
            &&& next == HelperStep::TakeWriter <==> step == HelperStep::SpawnShell && went_well
            &&& next == HelperStep::CloneReader <==> step == HelperStep::TakeWriter && went_well
            &&& next == HelperStep::StartPumps <==> step == HelperStep::CloneReader && went_well
            &&& next == HelperStep::WaitForShell <==> step == HelperStep::StartPumps
            &&& next == HelperStep::EndPumps <==> step == HelperStep::WaitForShell
            &&& next == HelperStep::JoinInput <==> step == HelperStep::EndPumps
            &&& next == HelperStep::JoinOutput <==> step == HelperStep::JoinInput
            &&& next == HelperStep::Finished <==> step == HelperStep::JoinOutput || step
                == HelperStep::Finished
        }),
{
}

/// A pump looks before each reading, writes just what it has read and flushes it, pauses
/// where there is nothing to read, and stops at the end of what it reads, at a failure,
/// and when the helper is ending.
pub proof fn law_order_of_a_pump(step: PumpStep, event: PumpEvent, count: usize)
    requires
        can_come(step, event),
    ensures
        ({
            let next = pump_step(step, event);
            &&& next == PumpStep::Read <==> step == PumpStep::Look && event == PumpEvent::Ending(
                false,
            )
            &&& next == PumpStep::Write(count) <==> step == PumpStep::Read && event
                == PumpEvent::Received(count) && count > 0
            &&& next == PumpStep::Flush <==> step is Write && event == PumpEvent::Done
            &&& next == PumpStep::Pause <==> step == PumpStep::Read && event
                == PumpEvent::WouldBlock
            &&& next == PumpStep::Look <==> event == PumpEvent::Done && (step == PumpStep::Flush
                || step == PumpStep::Pause)
            &&& next == PumpStep::Stop <==> event == PumpEvent::Failed || event
                == PumpEvent::Ending(true) || event == PumpEvent::Received(0)
        }),
{
}

/// What can come of each step of a pump: a reading brings no more than was asked for, or
/// nothing yet, or fails; a writing is done or fails; a pause is always over at last.
pub proof fn law_what_can_come_of_a_step(step: PumpStep, event: PumpEvent)
    ensures
        can_come(step, event) <==> match event {
            PumpEvent::Ending(_) => step == PumpStep::Look,
            PumpEvent::Received(count) => step == PumpStep::Read && count <= 4096,
            PumpEvent::WouldBlock => step == PumpStep::Read,
            PumpEvent::Failed => step == PumpStep::Read || step is Write || step
                == PumpStep::Flush,
            PumpEvent::Done => step is Write || step == PumpStep::Flush || step
                == PumpStep::Pause,
        },
{
}

} // verus!
