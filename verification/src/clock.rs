//! The escalation clock: one task's stage, budget and current time window.

use vstd::prelude::*;
use crate::stage::EscalationStage;
use crate::time::{is_timestamp, now_millis, MAX_BUDGET_MS};

verus! {

/// The interval during which the current stage stays valid: it was opened at
/// `from` and runs out after `to`.
#[derive(Clone, Copy, Debug, PartialEq, Eq, Structural)]
pub struct TimeWindow {
    pub from: i64,
    pub to: i64,
}

impl TimeWindow {
    /// The window from `from` to `to`.
    pub fn new(from: i64, to: i64) -> (w: TimeWindow)
        ensures
            w.from == from,
            w.to == to,
    {
        TimeWindow { from, to }
    }
}

/// Why a clock could not be created.
#[derive(Clone, Copy, Debug, PartialEq, Eq, Structural)]
pub enum ConfigurationError {
    /// The budget was zero or negative.
    NonPositiveBudget,
}

/// What a clock is, mathematically: its stage, its budget and the two ends
/// of its window, if it has one.
pub struct ClockModel {
    pub stage: EscalationStage,
    pub budget: int,
    pub window: Option<(int, int)>,
}

impl ClockModel {
    /// The invariant of a clock: the budget is positive and in range, a
    /// window is there in every stage but `Failed`, and its length is the
    /// budget divided as the stage says.
    pub open spec fn wf(self) -> bool {
        &&& 0 < self.budget <= MAX_BUDGET_MS
        &&& match self.stage.window_divisor() {
            Some(d) => self.window matches Some(w) && w.1 - w.0 == self.budget / d,
            None => self.window is None,
        }
    }

    /// The clock that is created with `budget` at the instant `now`.
    pub open spec fn created(budget: int, now: int) -> ClockModel {
        ClockModel {
            stage: EscalationStage::Initiated,
            budget,
            window: Some((now, now + budget)),
        }
    }

    /// The end of the current window.
    pub open spec fn deadline(self) -> Option<int> {
        match self.window {
            Some(w) => Some(w.1),
            None => None,
        }
    }

    /// Whether the clock has run out at the instant `now`: it has no window,
    /// or `now` is strictly after the window's end.
    pub open spec fn expired(self, now: int) -> bool {
        match self.window {
            Some(w) => now > w.1,
            None => true,
        }
    }

    /// The clock after one forward step taken at the instant `now`. A step
    /// into a stage other than `Failed` opens a fresh window at `now`.
    pub open spec fn advanced(self, now: int) -> ClockModel {
        ClockModel {
            stage: self.stage.spec_successor(),
            budget: self.budget,
            window: match self.stage.spec_divisor() {
                Some(d) => Some((now, now + self.budget / d)),
                None => None,
            },
        }
    }

    /// The clock after it was polled at the instant `now`: advanced once if
    /// it had run out, else unchanged.
    pub open spec fn polled(self, now: int) -> ClockModel {
        self.polled_between(now, now)
    }

    /// The clock after it was found to have run out or not at the instant
    /// `checked` and, if it had, advanced at the instant `stepped`.
    pub open spec fn polled_between(self, checked: int, stepped: int) -> ClockModel {
        if self.expired(checked) {
            self.advanced(stepped)
        } else {
            self
        }
    }

    /// The clock after it was polled at each of `instants` in turn.
    pub open spec fn polled_through(self, instants: Seq<int>) -> ClockModel
        decreases instants.len(),
    {
        if instants.len() == 0 {
            self
        } else {
            self.polled_through(instants.drop_last()).polled(instants.last())
        }
    }

    /// Whether the end of the window that a step at `now` would open is a
    /// representable instant.
    pub open spec fn can_advance_at(self, now: int) -> bool {
        match self.stage.spec_divisor() {
            Some(d) => now + self.budget / d <= i64::MAX,
            None => true,
        }
    }
}

/// A task with a time budget that escalates by itself when its window runs
/// out.
#[derive(Clone, Copy, Debug)]
pub struct EscalationClock {
    stage: EscalationStage,
    budget: i64,
    window: Option<TimeWindow>,
}

impl View for EscalationClock {
    type V = ClockModel;

    closed spec fn view(&self) -> ClockModel {
        ClockModel {
            stage: self.stage,
            budget: self.budget as int,
            window: match self.window {
                Some(w) => Some((w.from as int, w.to as int)),
                None => None,
            },
        }
    }
}

impl EscalationClock {
    /// The invariant that every constructor establishes and every method
    /// keeps.
    pub open spec fn wf(&self) -> bool {
        self@.wf()
    }

    /// Creates a clock at the instant `now`: stage `Initiated`, with a window
    /// of the whole budget that starts at `now`. A budget that is not
    /// positive is refused.
    pub fn create_at(budget: i64, now: i64) -> (r: Result<EscalationClock, ConfigurationError>)
        requires
            budget > 0 ==> budget <= MAX_BUDGET_MS && now + budget <= i64::MAX,
        ensures
            budget <= 0 ==> r == Err::<EscalationClock, ConfigurationError>(
                ConfigurationError::NonPositiveBudget,
            ),
            budget > 0 ==> r is Ok && r.unwrap()@ == ClockModel::created(budget as int, now as int)
                && r.unwrap().wf(),
    {
        if budget <= 0 {
            return Err(ConfigurationError::NonPositiveBudget);
        }
        Ok(
            EscalationClock {
                stage: EscalationStage::Initiated,
                budget,
                window: Some(TimeWindow { from: now, to: now + budget }),
            },
        )
    }

    /// Creates a clock at the current instant of the wall clock.
    pub fn create(budget: i64) -> (r: Result<EscalationClock, ConfigurationError>)
        requires
            budget <= MAX_BUDGET_MS,
        ensures
            budget <= 0 ==> r == Err::<EscalationClock, ConfigurationError>(
                ConfigurationError::NonPositiveBudget,
            ),
            budget > 0 ==> r is Ok && r.unwrap().wf() && exists|now: int|
                #[trigger] is_timestamp(now) && r.unwrap()@ == ClockModel::created(
                    budget as int,
                    now,
                ),
    {
        let now: i64 = now_millis();
        EscalationClock::create_at(budget, now)
    }

    /// The current stage.
    pub fn stage(&self) -> (s: EscalationStage)
        ensures
            s == self@.stage,
    {
        self.stage
    }

    /// The budget that the clock was created with.
    pub fn budget(&self) -> (b: i64)
        ensures
            b == self@.budget,
    {
        self.budget
    }

    /// The current window, if there is one.
    pub fn window(&self) -> (w: Option<TimeWindow>)
        ensures
            w is Some <==> self@.window is Some,
            w is Some ==> self@.window == Some((w.unwrap().from as int, w.unwrap().to as int)),
    {
        self.window
    }

    /// The end of the current window; `None` once the task has failed.
    pub fn deadline(&self) -> (d: Option<i64>)
        ensures
            d is Some <==> self@.deadline() is Some,
            d is Some ==> self@.deadline() == Some(d.unwrap() as int),
            self.wf() ==> (d is None <==> self@.stage == EscalationStage::Failed),
    {
        match self.window {
            Some(w) => Some(w.to),
            None => None,
        }
    }

    /// Whether the clock has run out at the instant `now`. Changes nothing.
    pub fn has_expired_at(&self, now: i64) -> (e: bool)
        ensures
            e == self@.expired(now as int),
    {
        match self.window {
            Some(w) => now > w.to,
            None => true,
        }
    }

    /// Whether the clock has run out at the current instant of the wall
    /// clock. Changes nothing.
    pub fn has_expired(&self) -> (e: bool)
        ensures
            exists|now: int| #[trigger] is_timestamp(now) && e == self@.expired(now),
            self@.window is None ==> e,
    {
        let now: i64 = now_millis();
        self.has_expired_at(now)
    }

    /// Takes one forward step at the instant `now`, whether or not the
    /// window has run out: the next stage, with a fresh window that starts
    /// at `now`, or no window on entering `Failed`. On a failed clock it
    /// changes nothing.
    pub fn advance_at(&mut self, now: i64)
        requires
            old(self).wf(),
            old(self)@.can_advance_at(now as int),
        ensures
            final(self)@ == old(self)@.advanced(now as int),
            final(self).wf(),
    {
        match self.stage.divisor() {
            Some(d) => {
                let length: i64 = self.budget / (d as i64);
                self.window = Some(TimeWindow { from: now, to: now + length });
            },
            None => {
                self.window = None;
            },
        }
        self.stage = self.stage.successor();
    }

    /// Takes one forward step at the current instant of the wall clock.
    pub fn advance(&mut self)
        requires
            old(self).wf(),
        ensures
            final(self).wf(),
            exists|now: int| #[trigger] is_timestamp(now) && final(self)@ == old(self)@.advanced(now),
    {
        let now: i64 = now_millis();
        self.advance_at(now);
    }

    /// Checks and steps at the instant `now`: if the clock has run out it
    /// advances once, and never more than once, however late `now` is.
    /// Returns the stage after that.
    pub fn poll_at(&mut self, now: i64) -> (s: EscalationStage)
        requires
            old(self).wf(),
            old(self)@.expired(now as int) ==> old(self)@.can_advance_at(now as int),
        ensures
            final(self)@ == old(self)@.polled(now as int),
            s == final(self)@.stage,
            final(self).wf(),
    {
        if self.has_expired_at(now) {
            self.advance_at(now);
        }
        self.stage
    }

    /// Checks and steps by the wall clock, which it reads once to check and,
    /// if the clock has run out, once more to step.
    pub fn poll(&mut self) -> (s: EscalationStage)
        requires
            old(self).wf(),
        ensures
            final(self).wf(),
            s == final(self)@.stage,
            exists|checked: int, stepped: int|
                #[trigger] is_timestamp(checked) && #[trigger] is_timestamp(stepped)
                    && final(self)@ == old(self)@.polled_between(checked, stepped),
    {
        let checked: i64 = now_millis();
        if self.has_expired_at(checked) {
            let stepped: i64 = now_millis();
            self.advance_at(stepped);
        }
        self.stage
    }
}

} // verus!
