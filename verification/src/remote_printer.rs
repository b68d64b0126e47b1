//! Setting the remote printer up and taking it away.
use vstd::prelude::*;

verus! {

/// A step of setting the printer up.
#[derive(Clone, Copy, Debug, PartialEq, Eq, Structural)]
pub enum PrinterStep {
    /// Find the file that describes the driver.
    FindDriverFile,
    AddPort,
    /// Ask whether a driver is installed.
    AskDriver,
    DeletePrinter,
    UninstallDriver,
    InstallDriver,
    /// Ask whether the printer is there.
    AskPrinter,
    AddPrinter,
    DeletePort,
}

/// What a step came to.
#[derive(Debug)]
pub enum PrinterOutcome {
    Done,
    /// The answer to a question.
    Found(bool),
    Error(String),
}

/// What follows a step.
#[derive(Debug)]
pub enum PrinterNext {
    Step(PrinterStep),
    Done,
    Failed(String),
}

impl PrinterStep {
    /// The step is part of setting the printer up.
    pub open spec fn sets_up(self) -> bool {
        self != PrinterStep::DeletePort
    }

    /// The step asks something.
    pub open spec fn asks(self) -> bool {
        self == PrinterStep::AskDriver || self == PrinterStep::AskPrinter
    }

    /// The step can come to this.
    pub open spec fn can_give(self, outcome: PrinterOutcome) -> bool {
        outcome is Error || (outcome is Found <==> self.asks())
    }

    /// What follows a step of setting the printer up. An installed driver is
    /// removed with its printer, whatever its version, and the one that comes with
    /// the program is installed.
    pub open spec fn next(self, outcome: PrinterOutcome) -> PrinterNext {
        match outcome {
            PrinterOutcome::Error(error) => PrinterNext::Failed(error),
            PrinterOutcome::Found(found) => match self {
                PrinterStep::AskDriver => if found {
                    PrinterNext::Step(PrinterStep::DeletePrinter)
                } else {
                    PrinterNext::Step(PrinterStep::InstallDriver)
                },
                _ => if found {
                    PrinterNext::Done
                } else {
                    PrinterNext::Step(PrinterStep::AddPrinter)
                },
            },
            PrinterOutcome::Done => match self {
                PrinterStep::FindDriverFile => PrinterNext::Step(PrinterStep::AddPort),
                PrinterStep::AddPort => PrinterNext::Step(PrinterStep::AskDriver),
                PrinterStep::DeletePrinter => PrinterNext::Step(PrinterStep::UninstallDriver),
                PrinterStep::UninstallDriver => PrinterNext::Step(PrinterStep::InstallDriver),
                PrinterStep::InstallDriver => PrinterNext::Step(PrinterStep::AskPrinter),
                _ => PrinterNext::Done,
            },
        }
    }

    /// How many steps of setting up may follow, this one counted.
    pub open spec fn steps_left(self) -> nat {
        match self {
            PrinterStep::FindDriverFile => 8,
            PrinterStep::AddPort => 7,
            PrinterStep::AskDriver => 6,
            PrinterStep::DeletePrinter => 5,
            PrinterStep::UninstallDriver => 4,
            PrinterStep::InstallDriver => 3,
            PrinterStep::AskPrinter => 2,
            PrinterStep::AddPrinter => 1,
            PrinterStep::DeletePort => 0,
        }
    }
}

/// What follows a step of setting the printer up.
pub fn install_update_printer(step: PrinterStep, outcome: PrinterOutcome) -> (r: PrinterNext)
    requires
        step.sets_up(),
        step.can_give(outcome),
    ensures
        r == step.next(outcome),
{
    match outcome {
        PrinterOutcome::Error(error) => PrinterNext::Failed(error),
        PrinterOutcome::Found(found) => match step {
            PrinterStep::AskDriver => {
                if found {
                    PrinterNext::Step(PrinterStep::DeletePrinter)
                } else {
                    PrinterNext::Step(PrinterStep::InstallDriver)
                }
            },
            _ => {
                if found {
                    PrinterNext::Done
                } else {
                    PrinterNext::Step(PrinterStep::AddPrinter)
                }
            },
        },
        PrinterOutcome::Done => match step {
            PrinterStep::FindDriverFile => PrinterNext::Step(PrinterStep::AddPort),
            PrinterStep::AddPort => PrinterNext::Step(PrinterStep::AskDriver),
            PrinterStep::DeletePrinter => PrinterNext::Step(PrinterStep::UninstallDriver),
            PrinterStep::UninstallDriver => PrinterNext::Step(PrinterStep::InstallDriver),
            PrinterStep::InstallDriver => PrinterNext::Step(PrinterStep::AskPrinter),
            _ => PrinterNext::Done,
        },
    }
}

/// The steps that take the printer away. Each is taken, whatever the others come
/// to.
pub fn uninstall_printer() -> (r: Vec<PrinterStep>)
    ensures
        r@ == seq![
            PrinterStep::DeletePrinter,
            PrinterStep::UninstallDriver,
            PrinterStep::DeletePort,
        ],
{
    let steps: Vec<PrinterStep> = vec![
        PrinterStep::DeletePrinter,
        PrinterStep::UninstallDriver,
        PrinterStep::DeletePort,
    ];
    assert(steps@ =~= seq![
        PrinterStep::DeletePrinter,
        PrinterStep::UninstallDriver,
        PrinterStep::DeletePort,
    ]);
    steps
}

/// Setting up ends, and the printer is looked for and added only with a freshly
/// installed driver.
pub proof fn law_set_up_ends_with_a_fresh_driver(step: PrinterStep, outcome: PrinterOutcome)
    requires
        step.sets_up(),
        step.can_give(outcome),
    ensures
        step.next(outcome) matches PrinterNext::Step(next) ==> next.sets_up() && next.steps_left()
            < step.steps_left(),
        step.next(outcome) == PrinterNext::Step(PrinterStep::AskPrinter) ==> step
            == PrinterStep::InstallDriver && outcome is Done,
        step.next(outcome) == PrinterNext::Step(PrinterStep::InstallDriver) ==> step
            == PrinterStep::UninstallDriver || (step == PrinterStep::AskDriver && outcome
            == PrinterOutcome::Found(false)),
        step.next(outcome) is Done ==> step == PrinterStep::AskPrinter || step
            == PrinterStep::AddPrinter,
{
}

/// Each step has its place: the port comes right behind the driver's file, the question
/// for a driver right behind the port, an old driver goes with its printer and behind
/// it, and the printer is added only where it is missing.
pub proof fn law_steps_have_their_place(step: PrinterStep, outcome: PrinterOutcome)
    requires
        step.sets_up(),
        step.can_give(outcome),
    ensures
        ({
            let next = step.next(outcome);
            &&& next == PrinterNext::Step(PrinterStep::AddPort) <==> step
                == PrinterStep::FindDriverFile && outcome is Done
            &&& next == PrinterNext::Step(PrinterStep::AskDriver) <==> step == PrinterStep::AddPort
                && outcome is Done
            &&& next == PrinterNext::Step(PrinterStep::DeletePrinter) <==> step
                == PrinterStep::AskDriver && outcome == PrinterOutcome::Found(true)
            &&& next == PrinterNext::Step(PrinterStep::UninstallDriver) <==> step
                == PrinterStep::DeletePrinter && outcome is Done
            &&& next == PrinterNext::Step(PrinterStep::InstallDriver) <==> (step
                == PrinterStep::UninstallDriver && outcome is Done) || (step
                == PrinterStep::AskDriver && outcome == PrinterOutcome::Found(false))
            &&& next == PrinterNext::Step(PrinterStep::AskPrinter) <==> step
                == PrinterStep::InstallDriver && outcome is Done
            &&& next == PrinterNext::Step(PrinterStep::AddPrinter) <==> step
                == PrinterStep::AskPrinter && outcome == PrinterOutcome::Found(false)
            &&& next is Done <==> (step == PrinterStep::AddPrinter && outcome is Done) || (step
                == PrinterStep::AskPrinter && outcome == PrinterOutcome::Found(true))
        }),
        outcome matches PrinterOutcome::Error(error) ==> step.next(outcome)
            == PrinterNext::Failed(error),
        step.next(outcome) is Failed ==> outcome is Error,
{
}

} // verus!
