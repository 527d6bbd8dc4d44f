//! One paste, step by step.
//!
//! A [`PasteRun`] never performs anything. It hands out one [`Command`] at a
//! time; whoever owns the input device carries the command out and reports
//! the [`Outcome`], which yields the next command. Failing to open the
//! device is fatal, while a key event that could not be delivered changes
//! nothing: the remaining events are still sent.

use vstd::prelude::*;
use crate::keys::KeyEvent;
use crate::plan::{paste_event, paste_plan};
use crate::platform::Platform;

verus! {

/// What the owner of the input device is asked to do next.
#[derive(Clone, Copy, Debug, PartialEq, Eq, Hash, Structural)]
pub enum Command {
    /// Create the virtual input device.
    OpenDevice,
    /// Deliver this key event through the device.
    Send(KeyEvent),
    /// Give up for good: there is no device to send anything through.
    Abort,
    /// Nothing is left to do.
    Finish,
}

/// How carrying out the previous command went.
#[derive(Clone, Copy, Debug, PartialEq, Eq, Hash, Structural)]
pub enum Outcome {
    /// The device was created, or the key event was delivered.
    Succeeded,
    /// The device could not be created, or the key event was not delivered.
    Failed,
}

/// How far a paste has come. Until the run is over, the stage names the
/// command whose outcome is awaited.
#[derive(Clone, Copy, Debug, PartialEq, Eq, Hash, Structural)]
pub enum Stage {
    /// The device is being opened.
    Opening,
    /// The modifier press is being delivered.
    Pressing,
    /// The click of `v` is being delivered.
    Clicking,
    /// The modifier release is being delivered.
    Releasing,
    /// All events were handed out.
    Finished,
    /// The device could not be opened; no event was handed out.
    Aborted,
}

impl Stage {
    /// Number of key events handed out by the time this stage is reached.
    pub open spec fn issued(self) -> nat {
        match self {
            Stage::Opening => 0,
            Stage::Pressing => 1,
            Stage::Clicking => 2,
            Stage::Releasing => 3,
            Stage::Finished => 3,
            Stage::Aborted => 0,
        }
    }

    /// Whether the device was opened successfully before this stage.
    pub open spec fn device_open(self) -> bool {
        self != Stage::Opening && self != Stage::Aborted
    }
}

/// A paste in progress on one platform.
#[derive(Clone, Copy, Debug, PartialEq, Eq, Hash, Structural)]
pub struct PasteRun {
    pub platform: Platform,
    pub stage: Stage,
}

impl PasteRun {
    /// The run that [`PasteRun::start`] creates.
    pub open spec fn initial(platform: Platform) -> PasteRun {
        PasteRun { platform, stage: Stage::Opening }
    }

    /// The same run at another stage.
    pub open spec fn at(self, stage: Stage) -> PasteRun {
        PasteRun { platform: self.platform, stage }
    }

    /// The transition table: the run that follows `self` once `outcome` is
    /// reported, and the command it answers with.
    pub open spec fn step(self, outcome: Outcome) -> (PasteRun, Command) {
        let plan = paste_plan(self.platform);
        match self.stage {
            Stage::Opening => match outcome {
                Outcome::Succeeded => (self.at(Stage::Pressing), Command::Send(plan[0])),
                Outcome::Failed => (self.at(Stage::Aborted), Command::Abort),
            },
            Stage::Pressing => (self.at(Stage::Clicking), Command::Send(plan[1])),
            Stage::Clicking => (self.at(Stage::Releasing), Command::Send(plan[2])),
            Stage::Releasing => (self.at(Stage::Finished), Command::Finish),
            Stage::Finished => (self, Command::Finish),
            Stage::Aborted => (self, Command::Abort),
        }
    }

    /// What an open device is asked for once `issued` events were handed out.
    pub open spec fn command_at(platform: Platform, issued: nat) -> Command {
        if issued < paste_plan(platform).len() {
            Command::Send(paste_plan(platform)[issued as int])
        } else {
            Command::Finish
        }
    }

    /// The commands answered, one per outcome, when `outcomes` are reported
    /// to `self` in order.
    pub open spec fn answers(self, outcomes: Seq<Outcome>) -> Seq<Command>
        decreases outcomes.len(),
    {
        if outcomes.len() == 0 {
            Seq::empty()
        } else {
            let (next, command) = self.step(outcomes[0]);
            seq![command] + next.answers(outcomes.drop_first())
        }
    }

    /// Begins a paste on `platform`. The first thing asked for is the device.
    pub fn start(platform: Platform) -> (begun: (PasteRun, Command))
        ensures
            begun.0 == PasteRun::initial(platform),
            begun.1 == Command::OpenDevice,
    {
        (PasteRun { platform, stage: Stage::Opening }, Command::OpenDevice)
    }

    /// Takes in the outcome of the previous command and answers with the
    /// next one.
    ///
    /// A failure to open the device aborts the run. The outcome of a key
    /// event is looked at and dropped. Once `Finish` or `Abort` has been
    /// answered, every later call answers the same and changes nothing.
    pub fn advance(&mut self, outcome: Outcome) -> (command: Command)
        ensures
            (*final(self), command) == old(self).step(outcome),
    {
        let (stage, command) = match self.stage {
            Stage::Opening => match outcome {
                Outcome::Succeeded => (Stage::Pressing, Self::send(self.platform, 0)),
                Outcome::Failed => (Stage::Aborted, Command::Abort),
            },
            Stage::Pressing => (Stage::Clicking, Self::send(self.platform, 1)),
            Stage::Clicking => (Stage::Releasing, Self::send(self.platform, 2)),
            Stage::Releasing => (Stage::Finished, Command::Finish),
            Stage::Finished => (Stage::Finished, Command::Finish),
            Stage::Aborted => (Stage::Aborted, Command::Abort),
        };
        self.stage = stage;
        command
    }

    /// The command that hands out event `index` of the paste.
    fn send(platform: Platform, index: usize) -> (command: Command)
        requires
            index < paste_plan(platform).len(),
        ensures
            command == Command::Send(paste_plan(platform)[index as int]),
    {
        Command::Send(paste_event(platform, index).unwrap())
    }
}

/// The outcome of a key event has no influence: once the device is open, a
/// run moves on and answers the same whether the previous command succeeded
/// or failed.
pub proof fn lemma_delivery_outcome_is_dropped(run: PasteRun, one: Outcome, other: Outcome)
    requires
        run.stage != Stage::Opening,
    ensures
        run.step(one) == run.step(other),
{
}

/// A step keeps the platform and never goes back: the device is asked for
/// only at the start, a key event is handed out only while the device is
/// open, and the count of events handed out grows by one with every `Send`
/// and not otherwise.
pub proof fn lemma_step_moves_forward(run: PasteRun, outcome: Outcome)
    ensures
        run.step(outcome).0.platform == run.platform,
        run.step(outcome).1 != Command::OpenDevice,
        run.step(outcome).1 is Send ==> run.step(outcome).0.stage.device_open(),
        run.step(outcome).0.stage.issued() == run.stage.issued() + (if run.step(outcome).1 is Send {
            1nat
        } else {
            0nat
        }),
{
}

/// With the device open, the answers depend on nothing but how many events
/// were handed out before: they continue the paste where it stands and turn
/// to `Finish` when it is used up.
pub proof fn lemma_answers_with_open_device(run: PasteRun, outcomes: Seq<Outcome>)
    requires
        run.stage.device_open(),
    ensures
        run.answers(outcomes).len() == outcomes.len(),
        forall|i: int|
            0 <= i < outcomes.len() ==> #[trigger] run.answers(outcomes)[i]
                == PasteRun::command_at(run.platform, run.stage.issued() + i as nat),
    decreases outcomes.len(),
{
    if outcomes.len() > 0 {
        let (next, command) = run.step(outcomes[0]);
        let rest = outcomes.drop_first();
        lemma_answers_with_open_device(next, rest);
        assert(command == PasteRun::command_at(run.platform, run.stage.issued()));
        assert forall|i: int| 0 <= i < outcomes.len() implies #[trigger] run.answers(outcomes)[i]
            == PasteRun::command_at(run.platform, run.stage.issued() + i as nat) by {
            if i > 0 {
                assert(run.answers(outcomes)[i] == next.answers(rest)[i - 1]);
            }
        }
    }
}

/// When the device opens, a run hands out exactly the events of the paste,
/// in order, and then `Finish` for as long as it is asked, whatever the
/// outcomes of the key events are.
pub proof fn lemma_opened_run_sends_the_paste(platform: Platform, outcomes: Seq<Outcome>)
    requires
        outcomes.len() > 0,
        outcomes[0] == Outcome::Succeeded,
    ensures
        PasteRun::initial(platform).answers(outcomes).len() == outcomes.len(),
        forall|i: int|
            0 <= i < outcomes.len() ==> #[trigger] PasteRun::initial(platform).answers(outcomes)[i]
                == PasteRun::command_at(platform, i as nat),
{
    let run = PasteRun::initial(platform);
    let (next, command) = run.step(outcomes[0]);
    let rest = outcomes.drop_first();
    lemma_answers_with_open_device(next, rest);
    assert forall|i: int| 0 <= i < outcomes.len() implies #[trigger] run.answers(outcomes)[i]
        == PasteRun::command_at(platform, i as nat) by {
        if i > 0 {
            assert(run.answers(outcomes)[i] == next.answers(rest)[i - 1]);
        }
    }
}

/// Once aborted, a run answers `Abort` to everything.
pub proof fn lemma_aborted_run_stays_aborted(run: PasteRun, outcomes: Seq<Outcome>)
    requires
        run.stage == Stage::Aborted,
    ensures
        run.answers(outcomes).len() == outcomes.len(),
        forall|i: int| 0 <= i < outcomes.len() ==> #[trigger] run.answers(outcomes)[i] == Command::Abort,
    decreases outcomes.len(),
{
    if outcomes.len() > 0 {
        let rest = outcomes.drop_first();
        lemma_aborted_run_stays_aborted(run, rest);
        assert forall|i: int| 0 <= i < outcomes.len() implies #[trigger] run.answers(outcomes)[i]
            == Command::Abort by {
            if i > 0 {
                assert(run.answers(outcomes)[i] == run.answers(rest)[i - 1]);
            }
        }
    }
}

/// When the device cannot be opened, a run aborts at once and never hands
/// out a key event, whatever is reported afterwards.
pub proof fn lemma_failed_open_sends_nothing(platform: Platform, outcomes: Seq<Outcome>)
    requires
        outcomes.len() > 0,
        outcomes[0] == Outcome::Failed,
    ensures
        PasteRun::initial(platform).answers(outcomes).len() == outcomes.len(),
        forall|i: int|
            0 <= i < outcomes.len() ==> #[trigger] PasteRun::initial(platform).answers(outcomes)[i]
                == Command::Abort,
{
    let run = PasteRun::initial(platform);
    let (next, command) = run.step(outcomes[0]);
    let rest = outcomes.drop_first();
    lemma_aborted_run_stays_aborted(next, rest);
    assert forall|i: int| 0 <= i < outcomes.len() implies #[trigger] run.answers(outcomes)[i]
        == Command::Abort by {
        if i > 0 {
            assert(run.answers(outcomes)[i] == next.answers(rest)[i - 1]);
        }
    }
}

} // verus!
