//! The supervisor: a fixed number of rounds, one after the other, each with
//! the same budget. It decides; its caller sleeps, reports and notifies.

use vstd::prelude::*;
use crate::ack::{taken, Acknowledgment};
use crate::clock::ConfigurationError;
use crate::round::{Observation, Round, RoundModel, RoundStatus};
use crate::stage::EscalationStage;
use crate::time::{is_timestamp, now_millis, MAX_BUDGET_MS};

verus! {

/// The budget of a round where none is configured: 25 minutes.
pub const DEFAULT_BUDGET_MS: i64 = 1_500_000i64;

/// The number of rounds where none is configured.
pub const DEFAULT_ROUNDS: u32 = 19u32;

/// The time to sleep between two ticks where none is configured.
pub const DEFAULT_POLL_INTERVAL_MS: u64 = 500u64;

/// What a supervisor is, mathematically.
pub struct SupervisorModel {
    /// The budget of every round.
    pub budget: int,
    /// The number of rounds to run.
    pub rounds: nat,
    /// The number of rounds begun so far.
    pub started: nat,
    /// The round begun last, if any was.
    pub current: Option<RoundModel>,
}

impl SupervisorModel {
    /// The invariant of a supervisor.
    pub open spec fn wf(self) -> bool {
        &&& 0 < self.budget <= MAX_BUDGET_MS
        &&& self.started <= self.rounds
        &&& self.started == 0 <==> self.current is None
        &&& self.current matches Some(round) ==> round.wf() && round.clock.budget == self.budget
    }

    /// The supervisor before its first round.
    pub open spec fn configured(budget: int, rounds: nat) -> SupervisorModel {
        SupervisorModel { budget, rounds, started: 0, current: None }
    }

    /// Whether a round is running.
    pub open spec fn running(self) -> bool {
        self.current matches Some(round) && round.status == RoundStatus::Running
    }

    /// Whether the next round can begin: none is running and rounds are
    /// left.
    pub open spec fn can_start(self) -> bool {
        !self.running() && self.started < self.rounds
    }

    /// Whether the supervisor is done: none is running and no round is left.
    pub open spec fn finished(self) -> bool {
        !self.running() && self.started == self.rounds
    }

    /// The supervisor after the next round began at the instant `now`, or
    /// the supervisor as it is where none can begin.
    pub open spec fn started_round(self, now: int) -> SupervisorModel {
        if self.can_start() {
            SupervisorModel {
                started: self.started + 1,
                current: Some(RoundModel::begun(self.budget, now)),
                ..self
            }
        } else {
            self
        }
    }

    /// The supervisor after a tick whose clock readings were `checked` and
    /// `stepped`: the running round takes a step; with no round running
    /// nothing changes.
    pub open spec fn ticked_between(
        self,
        acknowledged: bool,
        checked: int,
        stepped: int,
    ) -> SupervisorModel {
        match self.current {
            Some(round) => SupervisorModel {
                current: Some(round.stepped_between(acknowledged, checked, stepped)),
                ..self
            },
            None => self,
        }
    }

    /// The supervisor after a tick at the single instant `now`.
    pub open spec fn ticked(self, acknowledged: bool, now: int) -> SupervisorModel {
        self.ticked_between(acknowledged, now, now)
    }

    /// What a tick from `self` to `next` asks the caller to report.
    pub open spec fn observation(self, acknowledged: bool, next: SupervisorModel) -> Observation {
        match (self.current, next.current) {
            (Some(before), Some(after)) => before.observation(acknowledged, after),
            _ => Observation::Nothing,
        }
    }

    /// The flag after a tick: consumed where a round was running, else
    /// untouched.
    pub open spec fn flag_after(self, flag: bool) -> bool {
        if self.running() {
            taken(flag).1
        } else {
            flag
        }
    }

    /// Whether the tick sees an acknowledgment: a round is running and the
    /// flag is raised.
    pub open spec fn acknowledged_by(self, flag: bool) -> bool {
        self.running() && taken(flag).0
    }

    /// Whether a tick at `now` can be taken without leaving the range of
    /// representable instants.
    pub open spec fn can_tick_at(self, flag: bool, now: int) -> bool {
        self.current matches Some(round) ==> round.can_step_at(self.acknowledged_by(flag), now)
    }
}

/// The supervisor of a run of rounds.
#[derive(Clone, Copy, Debug)]
pub struct Supervisor {
    budget: i64,
    rounds: u32,
    started: u32,
    current: Option<Round>,
}

impl View for Supervisor {
    type V = SupervisorModel;

    closed spec fn view(&self) -> SupervisorModel {
        SupervisorModel {
            budget: self.budget as int,
            rounds: self.rounds as nat,
            started: self.started as nat,
            current: match self.current {
                Some(round) => Some(round@),
                None => None,
            },
        }
    }
}

impl Supervisor {
    /// The invariant that every constructor establishes and every method
    /// keeps.
    pub open spec fn wf(&self) -> bool {
        self@.wf()
    }

    /// A supervisor for `rounds` rounds of `budget` each. A budget that is
    /// not positive is refused.
    pub fn new(budget: i64, rounds: u32) -> (r: Result<Supervisor, ConfigurationError>)
        requires
            budget <= MAX_BUDGET_MS,
        ensures
            budget <= 0 ==> r == Err::<Supervisor, ConfigurationError>(
                ConfigurationError::NonPositiveBudget,
            ),
            budget > 0 ==> r is Ok && r.unwrap().wf() && r.unwrap()@
                == SupervisorModel::configured(budget as int, rounds as nat),
    {
        if budget <= 0 {
            return Err(ConfigurationError::NonPositiveBudget);
        }
        Ok(Supervisor { budget, rounds, started: 0, current: None })
    }

    /// The supervisor with the default budget and number of rounds.
    pub fn standard() -> (s: Supervisor)
        ensures
            s.wf(),
            s@ == SupervisorModel::configured(DEFAULT_BUDGET_MS as int, DEFAULT_ROUNDS as nat),
    {
        Supervisor { budget: DEFAULT_BUDGET_MS, rounds: DEFAULT_ROUNDS, started: 0, current: None }
    }

    /// The budget of every round.
    pub fn budget(&self) -> (b: i64)
        ensures
            b == self@.budget,
    {
        self.budget
    }

    /// The number of rounds begun so far, which is also the number of the
    /// round begun last, counted from 1.
    pub fn round_number(&self) -> (n: u32)
        ensures
            n == self@.started,
    {
        self.started
    }

    /// The number of rounds to run.
    pub fn rounds(&self) -> (n: u32)
        ensures
            n == self@.rounds,
    {
        self.rounds
    }

    /// The stage of the clock of the round begun last, if any was.
    pub fn stage(&self) -> (s: Option<EscalationStage>)
        ensures
            s is Some <==> self@.current is Some,
            s is Some ==> s.unwrap() == self@.current.unwrap().clock.stage,
    {
        match self.current {
            Some(round) => Some(round.stage()),
            None => None,
        }
    }

    /// Where the round begun last stands, if any was.
    pub fn status(&self) -> (s: Option<RoundStatus>)
        ensures
            s is Some <==> self@.current is Some,
            s is Some ==> s.unwrap() == self@.current.unwrap().status,
    {
        match self.current {
            Some(round) => Some(round.status()),
            None => None,
        }
    }

    /// Whether a round is running.
    pub fn is_running(&self) -> (r: bool)
        ensures
            r == self@.running(),
    {
        match self.current {
            Some(round) => !round.is_over(),
            None => false,
        }
    }

    /// Whether every round has been run to its end.
    pub fn is_finished(&self) -> (f: bool)
        ensures
            f == self@.finished(),
    {
        !self.is_running() && self.started == self.rounds
    }

    /// The end of the running or last round's current window, if it has one.
    pub fn deadline(&self) -> (d: Option<i64>)
        ensures
            d is Some <==> (self@.current matches Some(round) && round.clock.deadline() is Some),
            d is Some ==> self@.current.unwrap().clock.deadline() == Some(d.unwrap() as int),
    {
        match self.current {
            Some(round) => round.deadline(),
            None => None,
        }
    }

    /// Begins the next round at the instant `now`, if none is running and
    /// rounds are left, and returns its first deadline. Else changes nothing
    /// and returns `None`.
    pub fn start_round_at(&mut self, now: i64) -> (deadline: Option<i64>)
        requires
            old(self).wf(),
            old(self)@.can_start() ==> now + old(self)@.budget <= i64::MAX,
        ensures
            final(self)@ == old(self)@.started_round(now as int),
            final(self).wf(),
            deadline is Some <==> old(self)@.can_start(),
            deadline is Some ==> deadline.unwrap() == now + old(self)@.budget,
    {
        if self.is_running() || self.started >= self.rounds {
            return None;
        }
        match Round::begin_at(self.budget, now) {
            Ok(round) => {
                self.started = self.started + 1;
                self.current = Some(round);
                round.deadline()
            },
            Err(_) => None,
        }
    }

    /// Begins the next round at the current instant of the wall clock.
    pub fn start_round(&mut self) -> (deadline: Option<i64>)
        requires
            old(self).wf(),
        ensures
            final(self).wf(),
            deadline is Some <==> old(self)@.can_start(),
            exists|now: int| #[trigger]
                is_timestamp(now) && final(self)@ == old(self)@.started_round(now) && (deadline
                    is Some ==> deadline.unwrap() == now + old(self)@.budget),
    {
        let now: i64 = now_millis();
        self.start_round_at(now)
    }

    /// One tick at the instant `now`. Where a round is running, the flag is
    /// read and cleared in one step, and the round takes a step with what
    /// was read. Where none is running, nothing changes, the flag included.
    pub fn tick_at(&mut self, flag: &mut Acknowledgment, now: i64) -> (seen: Observation)
        requires
            old(self).wf(),
            old(self)@.can_tick_at(old(flag)@, now as int),
        ensures
            final(self)@ == old(self)@.ticked(old(self)@.acknowledged_by(old(flag)@), now as int),
            seen == old(self)@.observation(old(self)@.acknowledged_by(old(flag)@), final(self)@),
            final(flag)@ == old(self)@.flag_after(old(flag)@),
            final(self).wf(),
    {
        match self.current {
            Some(mut round) => {
                if round.is_over() {
                    return Observation::Nothing;
                }
                let acknowledged = flag.take();
                let seen = round.step_at(acknowledged, now);
                self.current = Some(round);
                seen
            },
            None => Observation::Nothing,
        }
    }

    /// One tick by the wall clock.
    pub fn tick(&mut self, flag: &mut Acknowledgment) -> (seen: Observation)
        requires
            old(self).wf(),
        ensures
            final(self).wf(),
            seen == old(self)@.observation(old(self)@.acknowledged_by(old(flag)@), final(self)@),
            final(flag)@ == old(self)@.flag_after(old(flag)@),
            exists|checked: int, stepped: int|
                #[trigger] is_timestamp(checked) && #[trigger] is_timestamp(stepped)
                    && final(self)@ == old(self)@.ticked_between(
                    old(self)@.acknowledged_by(old(flag)@),
                    checked,
                    stepped,
                ),
    {
        proof {
            assert(is_timestamp(0));
        }
        match self.current {
            Some(mut round) => {
                if round.is_over() {
                    return Observation::Nothing;
                }
                let acknowledged = flag.take();
                let seen = round.step(acknowledged);
                self.current = Some(round);
                seen
            },
            None => Observation::Nothing,
        }
    }
}

} // verus!
