//! Reading what the launch daemon reports, and waiting for it.
use crate::file_path::same_path;
use crate::text::{chars_of, lines, parse_number, same_text, starts_with, text_of, trim};
use vstd::prelude::*;

verus! {

/// How often the daemon is asked whether a service is ready.
pub const READINESS_ATTEMPTS: usize = 30;

/// The time between two questions, in seconds.
pub const READINESS_INTERVAL_SECS: u64 = 1;

/// How often the daemon is asked whether a service has stopped.
pub const STOP_ATTEMPTS: usize = 30;

/// A line of a report says that the service runs.
pub open spec fn says_running(report: Seq<char>) -> bool {
    exists|i: int|
        0 <= i < crate::text::line_texts(report).len() && crate::text::trimmed(
            #[trigger] crate::text::line_texts(report)[i],
        ) == "state = running"@
}

/// The number of the process that a line names.
pub open spec fn line_pid(line: Seq<char>) -> Option<u32> {
    let t = crate::text::trimmed(line);
    let prefix = "pid = "@;
    if prefix.is_prefix_of(t) {
        match crate::text::bounded_number(t.skip(prefix.len() as int), u32::MAX as nat) {
            Some(n) => Some(n as u32),
            None => None,
        }
    } else {
        None
    }
}

/// The number in the first line that names a process.
pub open spec fn first_pid(list: Seq<Seq<char>>) -> Option<u32>
    decreases list.len(),
{
    if list.len() == 0 {
        None
    } else if line_pid(list[0]) is Some {
        line_pid(list[0])
    } else {
        first_pid(list.drop_first())
    }
}

fn read_line_pid(line: &str) -> (r: Option<u32>)
    ensures
        r == line_pid(line@),
{
    let trimmed = trim(line);
    if !starts_with(trimmed.as_str(), "pid = ") {
        return None;
    }
    let chars = chars_of(trimmed.as_str());
    let prefix = chars_of("pid = ");
    let number = text_of(&chars, prefix.len(), chars.len());
    assert(number@ =~= trimmed@.skip("pid = "@.len() as int));
    match parse_number(number.as_str(), u32::MAX as u64) {
        Some(n) => Some(n as u32),
        None => None,
    }
}

/// Whether a report says that the service runs.
pub fn launchd_output_is_running(report: &str) -> (r: bool)
    ensures
        r == says_running(report@),
{
    let list = lines(report);
    let ghost all = crate::text::line_texts(report@);
    let mut i: usize = 0;
    while i < list.len()
        invariant
            all == crate::text::texts(list@),
            all == crate::text::line_texts(report@),
            i <= list.len(),
            forall|k: int|
                0 <= k < i ==> crate::text::trimmed(#[trigger] all[k]) != "state = running"@,
        decreases list.len() - i,
    {
        let trimmed = trim(list[i].as_str());
        assert(all[i as int] == list@[i as int]@);
        if same_text(trimmed.as_str(), "state = running") {
            return true;
        }
        i = i + 1;
    }
    false
}

/// The process that a report names first.
pub fn launchd_pid(report: &str) -> (r: Option<u32>)
    ensures
        r == first_pid(crate::text::line_texts(report@)),
{
    let list = lines(report);
    let ghost all = crate::text::line_texts(report@);
    let mut i: usize = 0;
    assert(all.skip(0) =~= all);
    while i < list.len()
        invariant
            all == crate::text::texts(list@),
            all == crate::text::line_texts(report@),
            i <= list.len(),
            first_pid(all) == first_pid(all.skip(i as int)),
        decreases list.len() - i,
    {
        assert(all.skip(i as int)[0] == list@[i as int]@);
        if let Some(pid) = read_line_pid(list[i].as_str()) {
            return Some(pid);
        }
        assert(all.skip(i as int).drop_first() =~= all.skip(i + 1));
        i = i + 1;
    }
    None
}

/// The process of a service that a report calls running.
pub fn launchd_output_ready_pid(report: &str) -> (r: Option<u32>)
    ensures
        r == if says_running(report@) {
            first_pid(crate::text::line_texts(report@))
        } else {
            None
        },
{
    if !launchd_output_is_running(report) {
        return None;
    }
    launchd_pid(report)
}

/// The number under which a process can be signalled.
pub fn signal_pid(pid: u32) -> (r: Option<i32>)
    ensures
        r == if pid <= i32::MAX {
            Some(pid as i32)
        } else {
            None
        },
{
    if pid <= 0x7fff_ffff {
        Some(pid as i32)
    } else {
        None
    }
}

/// What is known of a service at one time.
#[derive(Debug)]
pub struct ServiceProbe {
    /// What the daemon reports, if it knows the service.
    pub report: Option<String>,
    /// The socket of the service is there, belongs to the superuser and answers.
    pub socket_is_live: bool,
    pub process_is_alive: bool,
    /// The program that the process runs.
    pub executable: Option<String>,
}

/// The service is ready as that process: it runs, its socket answers, its process
/// is alive, and that runs the expected program.
pub open spec fn ready_as(probe: ServiceProbe, expected: Seq<char>) -> Option<u32> {
    match probe.report {
        Some(report) => {
            let pid = if says_running(report@) {
                first_pid(crate::text::line_texts(report@))
            } else {
                None
            };
            if probe.socket_is_live && pid is Some && pid->0 <= i32::MAX && probe.process_is_alive
                && (probe.executable matches Some(program)
                && crate::file_path::same_path_names(program@, expected)) {
                pid
            } else {
                None
            }
        },
        None => None,
    }
}

/// The process as which the service is ready.
pub fn launchd_ready_pid(probe: &ServiceProbe, expected_executable: &str) -> (r: Option<u32>)
    ensures
        r == ready_as(*probe, expected_executable@),
{
    match &probe.report {
        Some(report) => {
            if !probe.socket_is_live {
                return None;
            }
            match launchd_output_ready_pid(report.as_str()) {
                Some(pid) => {
                    if signal_pid(pid).is_none() || !probe.process_is_alive {
                        return None;
                    }
                    match &probe.executable {
                        Some(program) => {
                            if same_path(program.as_str(), expected_executable) {
                                Some(pid)
                            } else {
                                None
                            }
                        },
                        None => None,
                    }
                },
                None => None,
            }
        },
        None => None,
    }
}

/// Waiting for a service to be ready, twice in a row as the same process.
#[derive(Clone, Copy, Debug, PartialEq, Eq, Structural)]
pub struct ReadyWait {
    pub attempts: usize,
    /// The process that was ready a moment ago.
    pub candidate: Option<u32>,
}

/// What comes after a look at a service.
#[derive(Clone, Copy, Debug, PartialEq, Eq, Structural)]
pub enum WaitStep {
    /// Look again after the interval.
    SleepAndLook,
    /// Look again at once.
    LookNow,
    Ready,
    /// The service did not become ready. The interval passes once more.
    SleepAndGiveUp,
    /// The service did not become ready.
    GiveUp,
}

/// What a look at a service leads to.
pub open spec fn after_look(wait: ReadyWait, pid: Option<u32>) -> (ReadyWait, WaitStep) {
    match (wait.candidate, pid) {
        (None, Some(p)) => (
            ReadyWait { candidate: Some(p), ..wait },
            WaitStep::SleepAndLook,
        ),
        (Some(c), Some(p)) if c == p => (wait, WaitStep::Ready),
        _ => {
            let next = ReadyWait { attempts: (wait.attempts + 1) as usize, candidate: None };
            if next.attempts >= READINESS_ATTEMPTS {
                (
                    next,
                    if wait.candidate is None {
                        WaitStep::SleepAndGiveUp
                    } else {
                        WaitStep::GiveUp
                    },
                )
            } else if wait.candidate is None {
                (next, WaitStep::SleepAndLook)
            } else {
                (next, WaitStep::LookNow)
            }
        },
    }
}

impl ReadyWait {
    /// A wait that has not looked yet.
    pub fn new() -> (r: ReadyWait)
        ensures
            r == (ReadyWait { attempts: 0, candidate: None }),
    {
        ReadyWait { attempts: 0, candidate: None }
    }

    /// Takes what a look at the service found.
    pub fn wait_for_ready(&mut self, pid: Option<u32>) -> (r: WaitStep)
        requires
            old(self).attempts < READINESS_ATTEMPTS,
        ensures
            (*final(self), r) == after_look(*old(self), pid),
    {
        if let Some(p) = pid {
            match self.candidate {
                None => {
                    self.candidate = Some(p);
                    return WaitStep::SleepAndLook;
                },
                Some(c) => {
                    if c == p {
                        return WaitStep::Ready;
                    }
                },
            }
        }
        let confirming = self.candidate.is_some();
        self.candidate = None;
        self.attempts = self.attempts + 1;
        if self.attempts >= READINESS_ATTEMPTS {
            if confirming {
                WaitStep::GiveUp
            } else {
                WaitStep::SleepAndGiveUp
            }
        } else if confirming {
            WaitStep::LookNow
        } else {
            WaitStep::SleepAndLook
        }
    }
}

/// A service is called ready only when two looks in a row found it ready as the
/// same process; and a wait looks at most twice for each of its attempts.
pub proof fn law_ready_needs_two_looks(wait: ReadyWait, pid: Option<u32>)
    requires
        wait.attempts < READINESS_ATTEMPTS,
    ensures
        after_look(wait, pid).1 == WaitStep::Ready ==> pid is Some && wait.candidate == pid,
        after_look(wait, pid).0.candidate is Some ==> after_look(wait, pid).0.candidate == pid,
        !(after_look(wait, pid).1 is Ready) ==> 2 * after_look(wait, pid).0.attempts + (
        if after_look(wait, pid).0.candidate is Some {
            1int
        } else {
            0int
        }) > 2 * wait.attempts + (if wait.candidate is Some {
            1int
        } else {
            0int
        }),
{
}

/// A job has ended: the process that it had is gone, and it has no other.
pub open spec fn has_stopped(
    stopping_pid: Option<u32>,
    captured_is_gone: bool,
    reported_pid: Option<u32>,
) -> bool {
    (stopping_pid matches Some(pid) ==> pid > i32::MAX || captured_is_gone) && reported_pid is None
}

/// Whether a service has stopped: the process that was seen is gone, and the daemon
/// names none. `captured_is_gone` is whether a process of that number cannot be
/// signalled any more.
pub fn job_has_stopped(
    stopping_pid: Option<u32>,
    captured_is_gone: bool,
    reported_pid: Option<u32>,
) -> (r: bool)
    ensures
        r == has_stopped(stopping_pid, captured_is_gone, reported_pid),
{
    let gone = match stopping_pid {
        Some(pid) => signal_pid(pid).is_none() || captured_is_gone,
        None => true,
    };
    gone && reported_pid.is_none()
}

/// A wait for the end of a job: how often it was looked at.
#[derive(Clone, Copy, Debug, PartialEq, Eq, Structural)]
pub struct StopWait {
    pub looks: usize,
}

/// What follows a look at a job that is to end.
#[derive(Clone, Copy, Debug, PartialEq, Eq, Structural)]
pub enum StopNext {
    Stopped,
    /// Look again after the interval.
    Wait,
    /// The interval passes once more, and the job counts as running.
    GiveUp,
}

impl StopWait {
    pub fn new() -> (r: StopWait)
        ensures
            r == (StopWait { looks: 0 }),
    {
        StopWait { looks: 0 }
    }

    /// Looks at the job: at the process that it had, and at the one that it has now.
    pub fn look(
        &mut self,
        stopping_pid: Option<u32>,
        captured_is_gone: bool,
        reported_pid: Option<u32>,
    ) -> (r: StopNext)
        requires
            old(self).looks < STOP_ATTEMPTS,
        ensures
            final(self).looks == old(self).looks + 1,
            r == (if has_stopped(stopping_pid, captured_is_gone, reported_pid) {
                StopNext::Stopped
            } else if final(self).looks < STOP_ATTEMPTS {
                StopNext::Wait
            } else {
                StopNext::GiveUp
            }),
    {
        self.looks = self.looks + 1;
        if job_has_stopped(stopping_pid, captured_is_gone, reported_pid) {
            StopNext::Stopped
        } else if self.looks < STOP_ATTEMPTS {
            StopNext::Wait
        } else {
            StopNext::GiveUp
        }
    }
}

/// A step of restarting a service.
#[derive(Clone, Copy, Debug, PartialEq, Eq, Structural)]
pub enum ReloadStep {
    Bootout,
    Unload,
    WaitForStop,
    Bootstrap,
    Load,
}

/// What comes after a step of restarting a service.
#[derive(Clone, Copy, Debug, PartialEq, Eq, Structural)]
pub enum ReloadNext {
    Step(ReloadStep),
    Done,
    /// The old process did not stop.
    StillRunning,
    /// Neither command could start the new process.
    CouldNotLoad,
}

/// What comes after a step of restarting a service.
pub open spec fn reload_next(step: ReloadStep, success: bool) -> ReloadNext {
    match (step, success) {
        (ReloadStep::Bootout, true) => ReloadNext::Step(ReloadStep::WaitForStop),
        (ReloadStep::Bootout, false) => ReloadNext::Step(ReloadStep::Unload),
        (ReloadStep::Unload, _) => ReloadNext::Step(ReloadStep::WaitForStop),
        (ReloadStep::WaitForStop, true) => ReloadNext::Step(ReloadStep::Bootstrap),
        (ReloadStep::WaitForStop, false) => ReloadNext::StillRunning,
        (ReloadStep::Bootstrap, false) => ReloadNext::Step(ReloadStep::Load),
        (ReloadStep::Load, false) => ReloadNext::CouldNotLoad,
        _ => ReloadNext::Done,
    }
}

/// What comes after a step of restarting a service: where the newer commands fail
/// the older ones are tried; the old process must have stopped before the new
/// one is started.
pub fn after_reload_step(step: ReloadStep, success: bool) -> (r: ReloadNext)
    ensures
        r == reload_next(step, success),
        match step {
            ReloadStep::Bootout => r == (if success {
                ReloadNext::Step(ReloadStep::WaitForStop)
            } else {
                ReloadNext::Step(ReloadStep::Unload)
            }),
            ReloadStep::Unload => r == ReloadNext::Step(ReloadStep::WaitForStop),
            ReloadStep::WaitForStop => r == (if success {
                ReloadNext::Step(ReloadStep::Bootstrap)
            } else {
                ReloadNext::StillRunning
            }),
            ReloadStep::Bootstrap => r == (if success {
                ReloadNext::Done
            } else {
                ReloadNext::Step(ReloadStep::Load)
            }),
            ReloadStep::Load => r == (if success {
                ReloadNext::Done
            } else {
                ReloadNext::CouldNotLoad
            }),
        },
{
    match step {
        ReloadStep::Bootout => {
            if success {
                ReloadNext::Step(ReloadStep::WaitForStop)
            } else {
                ReloadNext::Step(ReloadStep::Unload)
            }
        },
        ReloadStep::Unload => ReloadNext::Step(ReloadStep::WaitForStop),
        ReloadStep::WaitForStop => {
            if success {
                ReloadNext::Step(ReloadStep::Bootstrap)
            } else {
                ReloadNext::StillRunning
            }
        },
        ReloadStep::Bootstrap => {
            if success {
                ReloadNext::Done
            } else {
                ReloadNext::Step(ReloadStep::Load)
            }
        },
        ReloadStep::Load => {
            if success {
                ReloadNext::Done
            } else {
                ReloadNext::CouldNotLoad
            }
        },
    }
}

/// What is said when neither command could start the new process, with how each of
/// them ended.
pub fn load_failure_text(bootstrap: &str, load: &str) -> (r: String)
    ensures
        r@ == "launchctl reload failed: bootstrap="@ + bootstrap@ + ", load="@ + load@,
{
    let mut text: String = "launchctl reload failed: bootstrap=".to_owned();
    text.append(bootstrap);
    text.append(", load=");
    text.append(load);
    text
}

/// A socket is live: it is one, belongs to the expected user and takes connections.
pub fn socket_is_live(is_socket: bool, uid: u32, expected_uid: u32, connects: bool) -> (r: bool)
    ensures
        r == (is_socket && uid == expected_uid && connects),
{
    is_socket && uid == expected_uid && connects
}

/// A report says that the service runs exactly where one of its lines does, whatever
/// stands around it on the line.
pub proof fn law_running_is_said_by_a_line(line: Seq<char>, rest: Seq<char>)
    requires
        !line.contains('\n'),
        line.len() > 0 ==> line.last() != '\r',
    ensures
        says_running(line.push('\n') + rest) <==> crate::text::trimmed(line) == "state = running"@
            || says_running(rest),
        !says_running(Seq::empty()),
{
    crate::text::law_lines_end_at_line_feeds(line, rest);
    crate::text::law_lines_end_at_line_feeds(Seq::empty(), rest);
    let whole = crate::text::line_texts(line.push('\n') + rest);
    let tail = crate::text::line_texts(rest);
    assert(whole == seq![line] + tail);
    assert(whole[0] == line);
    if says_running(rest) {
        let i = choose|i: int|
            0 <= i < tail.len() && crate::text::trimmed(#[trigger] tail[i]) == "state = running"@;
        assert(whole[i + 1] == tail[i]);
    }
    if says_running(line.push('\n') + rest) {
        let i = choose|i: int|
            0 <= i < whole.len() && crate::text::trimmed(#[trigger] whole[i])
                == "state = running"@;
        if i > 0 {
            assert(tail[i - 1] == whole[i]);
        }
    }
}

/// A line names the process whose number stands behind its mark; the first line that
/// names one decides.
pub proof fn law_first_named_process_counts(line: Seq<char>, rest: Seq<Seq<char>>, pid: u32)
    ensures
        crate::text::trimmed(line) == "pid = "@ + crate::text::decimal(pid as nat) ==> line_pid(line)
            == Some(pid),
        line_pid(line) is Some ==> "pid = "@.is_prefix_of(crate::text::trimmed(line)),
        line_pid(line) is Some ==> first_pid(seq![line] + rest) == line_pid(line),
        line_pid(line) is None ==> first_pid(seq![line] + rest) == first_pid(rest),
        first_pid(Seq::empty()) is None,
{
    let t = crate::text::trimmed(line);
    let prefix = "pid = "@;
    if t == prefix + crate::text::decimal(pid as nat) {
        crate::text::law_decimal_round_trip(pid as nat);
        assert(t.subrange(0, prefix.len() as int) =~= prefix);
        assert(t.skip(prefix.len() as int) =~= crate::text::decimal(pid as nat));
    }
    assert((seq![line] + rest).drop_first() =~= rest);
}

/// A service is ready only where all of it holds: it is said to run as a process that
/// is alive and can be signalled, that process runs the expected program, and the
/// socket answers. Then it is ready as that process.
pub proof fn law_ready_services(probe: ServiceProbe, expected: Seq<char>, pid: u32)
    ensures
        ready_as(probe, expected) == Some(pid) <==> {
            &&& probe.report is Some && says_running(probe.report->0@)
            &&& first_pid(crate::text::line_texts(probe.report->0@)) == Some(pid)
            &&& pid <= 0x7fff_ffff
            &&& probe.socket_is_live && probe.process_is_alive
            &&& probe.executable is Some && crate::file_path::same_path_names(
                probe.executable->0@,
                expected,
            )
        },
{
}

/// A wait ends well with the second look that finds the same process, and badly with
/// the thirtieth attempt; between them it sleeps, but for a look that found another
/// process than the one before.
pub proof fn law_when_a_wait_ends(wait: ReadyWait, pid: Option<u32>)
    requires
        wait.attempts < 30,
    ensures
        ({
            let (next, told) = after_look(wait, pid);
            let confirmed = pid is Some && wait.candidate == pid;
            let found = pid is Some && wait.candidate is None;
            &&& told == WaitStep::Ready <==> confirmed
            &&& found ==> told == WaitStep::SleepAndLook && next.candidate == pid && next.attempts
                == wait.attempts
            &&& !confirmed && !found ==> next.attempts == wait.attempts + 1 && next.candidate is None
            &&& told == WaitStep::GiveUp || told == WaitStep::SleepAndGiveUp <==> !confirmed
                && !found && wait.attempts == 29
            &&& told == WaitStep::LookNow || told == WaitStep::GiveUp ==> wait.candidate is Some
            &&& told == WaitStep::SleepAndGiveUp ==> wait.candidate is None
            &&& told == WaitStep::SleepAndLook && !found ==> wait.candidate is None
        }),
{
}

/// A job has ended where the daemon names no process and the one that it had, if it can
/// be signalled at all, is gone.
pub proof fn law_when_a_job_has_ended(pid: u32, gone: bool, reported: Option<u32>)
    ensures
        reported is Some ==> !has_stopped(Some(pid), gone, reported) && !has_stopped(
            None,
            gone,
            reported,
        ),
        has_stopped(None, gone, None),
        pid <= 0x7fff_ffff ==> has_stopped(Some(pid), gone, None) == gone,
        pid > 0x7fff_ffff ==> has_stopped(Some(pid), gone, None),
{
}

/// A new process is started only once the old one has stopped, the older commands come
/// only after the newer ones have failed, and a restart is done exactly where one of the
/// two ways of starting has worked.
pub proof fn law_order_of_a_restart(step: ReloadStep, success: bool)
    ensures
        ({
            let next = reload_next(step, success);
            &&& next != ReloadNext::Step(ReloadStep::Bootout)
            &&& next == ReloadNext::Step(ReloadStep::Unload) <==> step == ReloadStep::Bootout
                && !success
            &&& next == ReloadNext::Step(ReloadStep::WaitForStop) <==> step == ReloadStep::Unload
                || (step == ReloadStep::Bootout && success)
            &&& next == ReloadNext::Step(ReloadStep::Bootstrap) <==> step == ReloadStep::WaitForStop
                && success
            &&& next == ReloadNext::Step(ReloadStep::Load) <==> step == ReloadStep::Bootstrap
                && !success
            &&& next == ReloadNext::Done <==> success && (step == ReloadStep::Bootstrap || step
                == ReloadStep::Load)
            &&& next == ReloadNext::StillRunning <==> step == ReloadStep::WaitForStop && !success
            &&& next == ReloadNext::CouldNotLoad <==> step == ReloadStep::Load && !success
        }),
{
}

} // verus!
