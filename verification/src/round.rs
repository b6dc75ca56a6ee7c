//! One round: the life of a single clock, from its creation to an
//! acknowledgment or to failure.

use vstd::prelude::*;
use crate::clock::{ClockModel, ConfigurationError, EscalationClock};
use crate::stage::EscalationStage;
use crate::time::{is_timestamp, now_millis, MAX_BUDGET_MS};

verus! {

/// Where a round stands. `Acknowledged` and `Failed` are final.
#[derive(Clone, Copy, Debug, PartialEq, Eq, Structural)]
pub enum RoundStatus {
    Running,
    Acknowledged,
    Failed,
}

/// What a step of a round asks its caller to report.
#[derive(Clone, Copy, Debug, PartialEq, Eq, Structural)]
pub enum Observation {
    /// Nothing changed.
    Nothing,
    /// The acknowledgment arrived: the round ended with success.
    Completed,
    /// The clock entered `stage`, whose window ends at `deadline`.
    Escalated { stage: EscalationStage, deadline: i64 },
    /// The clock entered `Failed`: the round ended, and the notification is
    /// due, once.
    Failed,
}

/// What a round is, mathematically.
pub struct RoundModel {
    pub clock: ClockModel,
    /// The stage that the last step saw.
    pub observed: EscalationStage,
    pub status: RoundStatus,
}

impl RoundModel {
    /// The invariant of a round: its clock is valid, the observed stage is
    /// the clock's, and the round has failed exactly when its clock has.
    pub open spec fn wf(self) -> bool {
        &&& self.clock.wf()
        &&& self.observed == self.clock.stage
        &&& self.status == RoundStatus::Failed <==> self.clock.stage == EscalationStage::Failed
    }

    /// The round that begins with `budget` at the instant `now`.
    pub open spec fn begun(budget: int, now: int) -> RoundModel {
        RoundModel {
            clock: ClockModel::created(budget, now),
            observed: EscalationStage::Initiated,
            status: RoundStatus::Running,
        }
    }

    /// The running round after its clock was polled and became `clock`: the
    /// round fails if the clock has.
    pub open spec fn with_clock(self, clock: ClockModel) -> RoundModel {
        RoundModel {
            clock,
            observed: clock.stage,
            status: if clock.stage == EscalationStage::Failed {
                RoundStatus::Failed
            } else {
                RoundStatus::Running
            },
        }
    }

    /// The round after a step, with or without an acknowledgment, whose
    /// clock was checked at the instant `checked` and, if it had run out,
    /// advanced at the instant `stepped`. A round that has ended stays as it
    /// is. An acknowledgment ends the round and leaves the clock untouched.
    /// Otherwise the clock is polled.
    pub open spec fn stepped_between(
        self,
        acknowledged: bool,
        checked: int,
        stepped: int,
    ) -> RoundModel {
        if self.status != RoundStatus::Running {
            self
        } else if acknowledged {
            RoundModel { status: RoundStatus::Acknowledged, ..self }
        } else {
            self.with_clock(self.clock.polled_between(checked, stepped))
        }
    }

    /// The round after a step at the single instant `now`.
    pub open spec fn stepped(self, acknowledged: bool, now: int) -> RoundModel {
        self.stepped_between(acknowledged, now, now)
    }

    /// What the step from `self` to `next` asks the caller to report.
    pub open spec fn observation(self, acknowledged: bool, next: RoundModel) -> Observation {
        if self.status != RoundStatus::Running {
            Observation::Nothing
        } else if acknowledged {
            Observation::Completed
        } else if next.clock.stage == self.observed {
            Observation::Nothing
        } else if next.clock.stage == EscalationStage::Failed {
            Observation::Failed
        } else {
            Observation::Escalated {
                stage: next.clock.stage,
                deadline: next.clock.deadline().unwrap() as i64,
            }
        }
    }

    /// Whether a step at `now` without acknowledgment can be taken: the
    /// clock has not run out, or its next deadline is representable.
    pub open spec fn can_step_at(self, acknowledged: bool, now: int) -> bool {
        self.status == RoundStatus::Running && !acknowledged && self.clock.expired(now)
            ==> self.clock.can_advance_at(now)
    }
}

/// One round of supervision.
#[derive(Clone, Copy, Debug)]
pub struct Round {
    clock: EscalationClock,
    observed: EscalationStage,
    status: RoundStatus,
}

impl View for Round {
    type V = RoundModel;

    closed spec fn view(&self) -> RoundModel {
        RoundModel { clock: self.clock@, observed: self.observed, status: self.status }
    }
}

impl Round {
    /// The invariant that every constructor establishes and every method
    /// keeps.
    pub open spec fn wf(&self) -> bool {
        self@.wf()
    }

    /// Begins a round at the instant `now`. A budget that is not positive is
    /// refused.
    pub fn begin_at(budget: i64, now: i64) -> (r: Result<Round, ConfigurationError>)
        requires
            budget > 0 ==> budget <= MAX_BUDGET_MS && now + budget <= i64::MAX,
        ensures
            budget <= 0 ==> r == Err::<Round, ConfigurationError>(
                ConfigurationError::NonPositiveBudget,
            ),
            budget > 0 ==> r is Ok && r.unwrap()@ == RoundModel::begun(budget as int, now as int)
                && r.unwrap().wf(),
    {
        match EscalationClock::create_at(budget, now) {
            Ok(clock) => Ok(
                Round { clock, observed: EscalationStage::Initiated, status: RoundStatus::Running },
            ),
            Err(e) => Err(e),
        }
    }

    /// Begins a round at the current instant of the wall clock.
    pub fn begin(budget: i64) -> (r: Result<Round, ConfigurationError>)
        requires
            budget <= MAX_BUDGET_MS,
        ensures
            budget <= 0 ==> r == Err::<Round, ConfigurationError>(
                ConfigurationError::NonPositiveBudget,
            ),
            budget > 0 ==> r is Ok && r.unwrap().wf() && exists|now: int|
                #[trigger] is_timestamp(now) && r.unwrap()@ == RoundModel::begun(
                    budget as int,
                    now,
                ),
    {
        let now: i64 = now_millis();
        Round::begin_at(budget, now)
    }

    /// Where the round stands.
    pub fn status(&self) -> (s: RoundStatus)
        ensures
            s == self@.status,
    {
        self.status
    }

    /// The stage of the round's clock.
    pub fn stage(&self) -> (s: EscalationStage)
        ensures
            s == self@.clock.stage,
    {
        self.clock.stage()
    }

    /// The end of the clock's current window; `None` once it has failed.
    pub fn deadline(&self) -> (d: Option<i64>)
        ensures
            d is Some <==> self@.clock.deadline() is Some,
            d is Some ==> self@.clock.deadline() == Some(d.unwrap() as int),
    {
        self.clock.deadline()
    }

    /// Whether the round has ended, by acknowledgment or by failure.
    pub fn is_over(&self) -> (over: bool)
        ensures
            over == (self@.status != RoundStatus::Running),
    {
        match self.status {
            RoundStatus::Running => false,
            _ => true,
        }
    }

    /// Takes note of the stage that a poll of the clock has just returned:
    /// says what to report, fails the round if the clock has failed, and
    /// remembers the stage.
    fn note(&mut self, stage: EscalationStage) -> (seen: Observation)
        requires
            old(self)@.status == RoundStatus::Running,
            old(self)@.clock.wf(),
            stage == old(self)@.clock.stage,
        ensures
            final(self)@ == old(self)@.with_clock(old(self)@.clock),
            seen == old(self)@.observation(false, final(self)@),
    {
        let seen = if stage == self.observed {
            Observation::Nothing
        } else {
            match self.clock.deadline() {
                Some(deadline) => Observation::Escalated { stage, deadline },
                None => Observation::Failed,
            }
        };
        if stage.is_terminal() {
            self.status = RoundStatus::Failed;
        }
        self.observed = stage;
        seen
    }

    /// One step of the round at the instant `now`. `acknowledged` says
    /// whether the acknowledgment was there to consume. Returns what to
    /// report.
    pub fn step_at(&mut self, acknowledged: bool, now: i64) -> (seen: Observation)
        requires
            old(self).wf(),
            old(self)@.can_step_at(acknowledged, now as int),
        ensures
            final(self)@ == old(self)@.stepped(acknowledged, now as int),
            seen == old(self)@.observation(acknowledged, final(self)@),
            final(self).wf(),
    {
        if self.is_over() {
            return Observation::Nothing;
        }
        if acknowledged {
            self.status = RoundStatus::Acknowledged;
            return Observation::Completed;
        }
        let stage = self.clock.poll_at(now);
        self.note(stage)
    }

    /// One step of the round by the wall clock, which is read only where the
    /// clock is polled.
    pub fn step(&mut self, acknowledged: bool) -> (seen: Observation)
        requires
            old(self).wf(),
        ensures
            final(self).wf(),
            seen == old(self)@.observation(acknowledged, final(self)@),
            exists|checked: int, stepped: int|
                #[trigger] is_timestamp(checked) && #[trigger] is_timestamp(stepped)
                    && final(self)@ == old(self)@.stepped_between(acknowledged, checked, stepped),
    {
        proof {
            assert(is_timestamp(0));
        }
        if self.is_over() {
            return Observation::Nothing;
        }
        if acknowledged {
            self.status = RoundStatus::Acknowledged;
            return Observation::Completed;
        }
        let stage = self.clock.poll();
        self.note(stage)
    }
}

} // verus!
