//! The stages of escalation and the fixed policy table that links them.

use vstd::prelude::*;

verus! {

/// How far a task has escalated. The variants are listed in the order in
/// which a task passes through them; `Failed` is terminal.
#[derive(Clone, Copy, Debug, PartialEq, Eq, Structural)]
pub enum EscalationStage {
    Initiated,
    InitialWait,
    HalfExtension,
    QuarterExtension,
    Failed,
}

impl EscalationStage {
    /// Position of the stage in the escalation order, from 0 to 4.
    pub open spec fn rank(self) -> nat {
        match self {
            EscalationStage::Initiated => 0,
            EscalationStage::InitialWait => 1,
            EscalationStage::HalfExtension => 2,
            EscalationStage::QuarterExtension => 3,
            EscalationStage::Failed => 4,
        }
    }

    /// The stage that follows this one; `Failed` follows itself.
    pub open spec fn spec_successor(self) -> EscalationStage {
        match self {
            EscalationStage::Initiated => EscalationStage::InitialWait,
            EscalationStage::InitialWait => EscalationStage::HalfExtension,
            EscalationStage::HalfExtension => EscalationStage::QuarterExtension,
            EscalationStage::QuarterExtension => EscalationStage::Failed,
            EscalationStage::Failed => EscalationStage::Failed,
        }
    }

    /// The divisor of the budget for the window that opens when a task
    /// leaves this stage, or `None` where leaving it opens no window.
    pub open spec fn spec_divisor(self) -> Option<int> {
        match self {
            EscalationStage::Initiated => Some(1int),
            EscalationStage::InitialWait => Some(2int),
            EscalationStage::HalfExtension => Some(4int),
            EscalationStage::QuarterExtension => None,
            EscalationStage::Failed => None,
        }
    }

    /// The divisor of the budget for the window that a task holds while it
    /// is in this stage, or `None` for `Failed`, which holds no window.
    pub open spec fn window_divisor(self) -> Option<int> {
        match self {
            EscalationStage::Initiated => Some(1int),
            EscalationStage::InitialWait => Some(1int),
            EscalationStage::HalfExtension => Some(2int),
            EscalationStage::QuarterExtension => Some(4int),
            EscalationStage::Failed => None,
        }
    }

    /// The stage that follows this one.
    pub fn successor(self) -> (next: EscalationStage)
        ensures
            next == self.spec_successor(),
    {
        match self {
            EscalationStage::Initiated => EscalationStage::InitialWait,
            EscalationStage::InitialWait => EscalationStage::HalfExtension,
            EscalationStage::HalfExtension => EscalationStage::QuarterExtension,
            EscalationStage::QuarterExtension => EscalationStage::Failed,
            EscalationStage::Failed => EscalationStage::Failed,
        }
    }

    /// The policy table: by how much the budget is divided for the window
    /// that opens on leaving this stage.
    pub fn divisor(self) -> (d: Option<u32>)
        ensures
            d is Some <==> self.spec_divisor() is Some,
            d is Some ==> d.unwrap() as int == self.spec_divisor().unwrap(),
    {
        match self {
            EscalationStage::Initiated => Some(1u32),
            EscalationStage::InitialWait => Some(2u32),
            EscalationStage::HalfExtension => Some(4u32),
            EscalationStage::QuarterExtension => None,
            EscalationStage::Failed => None,
        }
    }

    /// Whether no transition leaves this stage.
    pub fn is_terminal(self) -> (t: bool)
        ensures
            t == (self == EscalationStage::Failed),
    {
        match self {
            EscalationStage::Failed => true,
            _ => false,
        }
    }
}

} // verus!
