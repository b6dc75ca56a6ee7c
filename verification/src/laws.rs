//! What holds of the clock, the flag and a round across calls.

use vstd::prelude::*;
use crate::ack::{raised, taken};
use crate::clock::ClockModel;
use crate::round::{Observation, RoundModel, RoundStatus};
use crate::stage::EscalationStage;
use crate::supervisor::SupervisorModel;
use crate::time::MAX_BUDGET_MS;

verus! {

/// A clock created with a positive budget stands in `Initiated`, and its
/// window has the length of the whole budget: the deadline is the instant of
/// creation plus the budget, and the clock has not run out at the instant of
/// creation. With a budget in range the clock is valid.
pub proof fn law_creation_opens_whole_budget(budget: int, now: int)
    requires
        0 < budget,
    ensures
        ClockModel::created(budget, now).stage == EscalationStage::Initiated,
        ClockModel::created(budget, now).window == Some((now, now + budget)),
        ClockModel::created(budget, now).deadline() == Some(now + budget),
        !ClockModel::created(budget, now).expired(now),
        budget <= MAX_BUDGET_MS ==> ClockModel::created(budget, now).wf(),
{
}

/// A forward step and a poll keep the invariant of the clock and never
/// change its budget.
pub proof fn law_steps_keep_invariant(clock: ClockModel, now: int)
    requires
        clock.wf(),
    ensures
        clock.advanced(now).wf(),
        clock.polled(now).wf(),
        clock.advanced(now).budget == clock.budget,
        clock.polled(now).budget == clock.budget,
{
}

/// A poll moves the clock by at most one stage, however late it comes, and
/// moves it only if the clock had run out. A poll right after another, at
/// the same instant, changes nothing more.
pub proof fn law_poll_steps_at_most_once(clock: ClockModel, now: int)
    requires
        clock.wf(),
    ensures
        clock.polled(now).stage == clock.stage || clock.polled(now).stage
            == clock.stage.spec_successor(),
        clock.polled(now).stage.rank() <= clock.stage.rank() + 1,
        !clock.expired(now) ==> clock.polled(now) == clock,
        clock.polled(now).polled(now) == clock.polled(now),
{
}

/// Two polls of which neither comes after the deadline leave the clock as
/// it was.
pub proof fn law_polls_before_deadline_change_nothing(clock: ClockModel, first: int, second: int)
    requires
        !clock.expired(first),
        !clock.expired(second),
    ensures
        clock.polled(first).polled(second) == clock,
{
}

/// The stage after a forward step is the next in order, and `Failed` after
/// `Failed`: no stage is skipped and none comes back.
pub proof fn law_step_takes_next_stage(clock: ClockModel, now: int)
    ensures
        clock.stage != EscalationStage::Failed ==> clock.advanced(now).stage.rank()
            == clock.stage.rank() + 1,
        clock.stage == EscalationStage::Failed ==> clock.advanced(now).stage
            == EscalationStage::Failed,
{
}

/// Through any run of polls the stage never moves back, and moves forward by
/// no more than one stage per poll.
pub proof fn law_stage_never_moves_back(clock: ClockModel, instants: Seq<int>)
    requires
        clock.wf(),
    ensures
        clock.polled_through(instants).wf(),
        clock.stage.rank() <= clock.polled_through(instants).stage.rank(),
        clock.polled_through(instants).stage.rank() <= clock.stage.rank() + instants.len(),
    decreases instants.len(),
{
    if instants.len() > 0 {
        law_stage_never_moves_back(clock, instants.drop_last());
    }
}

/// Once a clock has failed it stays failed through any run of polls, and has
/// no deadline.
pub proof fn law_failed_is_final(clock: ClockModel, instants: Seq<int>)
    requires
        clock.wf(),
        clock.stage == EscalationStage::Failed,
    ensures
        clock.polled_through(instants) == clock,
        clock.polled_through(instants).stage == EscalationStage::Failed,
        clock.polled_through(instants).deadline() is None,
    decreases instants.len(),
{
    if instants.len() > 0 {
        law_failed_is_final(clock, instants.drop_last());
    }
}

/// The window of a valid clock has the whole budget in `Initiated` and in
/// `InitialWait`, half of it in `HalfExtension` and a quarter of it in
/// `QuarterExtension`, which is half of the half; in `Failed` there is none.
/// The window does not end before it starts.
pub proof fn law_window_halves(clock: ClockModel)
    requires
        clock.wf(),
    ensures
        clock.stage == EscalationStage::Failed <==> clock.window is None,
        clock.window matches Some(w) ==> w.0 <= w.1 && w.1 - w.0 == (match clock.stage {
            EscalationStage::Initiated => clock.budget,
            EscalationStage::InitialWait => clock.budget,
            EscalationStage::HalfExtension => clock.budget / 2,
            _ => clock.budget / 4,
        }),
        clock.budget / 4 == (clock.budget / 2) / 2,
        clock.budget >= 4 ==> (clock.window matches Some(w) ==> w.0 < w.1),
{
}

/// The window that a forward step opens starts at the instant of the step,
/// not at the old deadline, and has the length that the policy table gives
/// for the stage that was left.
pub proof fn law_step_opens_fresh_window(clock: ClockModel, now: int)
    requires
        clock.wf(),
    ensures
        clock.stage.spec_divisor() matches Some(d) ==> clock.advanced(now).window == Some(
            (now, now + clock.budget / d),
        ),
        clock.stage.spec_divisor() is None ==> clock.advanced(now).window is None,
{
}

/// Raising the flag twice before it is consumed counts as one
/// acknowledgment: the first consumption reports it, the second reports
/// none.
pub proof fn law_flag_raised_twice_counts_once(flag: bool)
    ensures
        raised(raised(flag)) == raised(flag),
        taken(raised(raised(flag))).0,
        !taken(taken(raised(raised(flag))).1).0,
{
}

/// A step keeps the invariant of a round, and a round that has ended never
/// changes again and asks for no further report.
pub proof fn law_ended_round_is_final(round: RoundModel, acknowledged: bool, now: int)
    requires
        round.wf(),
    ensures
        round.stepped(acknowledged, now).wf(),
        round.status != RoundStatus::Running ==> round.stepped(acknowledged, now) == round
            && round.observation(acknowledged, round.stepped(acknowledged, now))
            == Observation::Nothing,
{
}

/// A running round reports failure exactly on the step on which its clock
/// fails, so once per round: after that step the round has ended.
pub proof fn law_failure_reported_once(round: RoundModel, acknowledged: bool, now: int)
    requires
        round.wf(),
    ensures
        round.observation(acknowledged, round.stepped(acknowledged, now)) == Observation::Failed
            <==> round.status == RoundStatus::Running && round.stepped(acknowledged, now).status
            == RoundStatus::Failed,
        round.stepped(acknowledged, now).status == RoundStatus::Failed ==> !acknowledged
            || round.status == RoundStatus::Failed,
{
}

/// An acknowledgment ends a running round at once, leaves its clock as it
/// was and is never reported as a failure.
pub proof fn law_acknowledgment_ends_round(round: RoundModel, now: int)
    requires
        round.wf(),
        round.status == RoundStatus::Running,
    ensures
        round.stepped(true, now).status == RoundStatus::Acknowledged,
        round.stepped(true, now).clock == round.clock,
        round.observation(true, round.stepped(true, now)) == Observation::Completed,
{
}

/// A report of escalation names the stage that the clock has just entered,
/// which is neither the first nor the last, and the end of the window that
/// was opened at the instant of the step.
pub proof fn law_escalation_names_new_stage(round: RoundModel, now: int)
    requires
        round.wf(),
        round.status == RoundStatus::Running,
        round.clock.expired(now),
        round.clock.can_advance_at(now),
    ensures
        round.clock.stage.spec_divisor() matches Some(d) ==> round.observation(
            false,
            round.stepped(false, now),
        ) == (Observation::Escalated {
            stage: round.clock.stage.spec_successor(),
            deadline: (now + round.clock.budget / d) as i64,
        }),
        round.clock.stage.spec_divisor() is None ==> round.observation(
            false,
            round.stepped(false, now),
        ) == Observation::Failed,
{
}

/// Beginning a round and ticking keep the invariant of the supervisor. A
/// round begins only while none is running, and no more rounds begin than
/// were configured; a tick begins none.
pub proof fn law_supervisor_keeps_invariant(supervisor: SupervisorModel, acknowledged: bool, now: int)
    requires
        supervisor.wf(),
    ensures
        supervisor.started_round(now).wf(),
        supervisor.ticked(acknowledged, now).wf(),
        supervisor.started_round(now).started <= supervisor.rounds,
        supervisor.started_round(now).started == supervisor.started + (if supervisor.can_start() {
            1nat
        } else {
            0nat
        }),
        supervisor.running() ==> supervisor.started_round(now) == supervisor,
        supervisor.ticked(acknowledged, now).started == supervisor.started,
        supervisor.finished() ==> supervisor.started_round(now) == supervisor
            && supervisor.ticked(acknowledged, now).finished(),
{
}

} // verus!
