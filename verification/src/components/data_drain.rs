//! Charge states of the Data Drain mechanic and how they change. The charge
//! and the cooldown clock are measured by the application, which reports
//! whether the gauge is full or the cooldown is over.
use vstd::prelude::*;

verus! {

/// Charge states for the Data Drain mechanic.
///
/// Data Drain lets the player extract data fragments from weakened
/// enemies. It is charged through combat, then activated within a window
/// of opportunity.
#[derive(Debug, Clone, Copy, PartialEq, Eq, Structural)]
pub enum DataDrainState {
    /// No charge accumulated yet.
    Inactive,
    /// Building charge from combat actions.
    Charging,
    /// Fully charged and ready to activate.
    Ready,
    /// Currently being used (brief transition state).
    Active,
    /// Cooling down after use; cannot be used again yet.
    Cooldown,
}

/// The state after charging from `state`, with `full` telling whether the
/// charge has reached its maximum: an empty or charging gauge becomes ready
/// when full and charging otherwise; in any other state charging does
/// nothing.
pub open spec fn charged_state(state: DataDrainState, full: bool) -> DataDrainState {
    match state {
        DataDrainState::Inactive | DataDrainState::Charging => if full {
            DataDrainState::Ready
        } else {
            DataDrainState::Charging
        },
        _ => state,
    }
}

/// The state after one frame in `state`, with `cooldown_over` telling
/// whether the cooldown time has run out: a drain in use starts cooling
/// down, a cooldown that is over leaves the gauge empty, anything else stays.
pub open spec fn updated_state(state: DataDrainState, cooldown_over: bool) -> DataDrainState {
    match state {
        DataDrainState::Active => DataDrainState::Cooldown,
        DataDrainState::Cooldown => if cooldown_over { DataDrainState::Inactive } else { state },
        _ => state,
    }
}

impl DataDrainState {
    /// Whether charging is accepted in this state (empty or charging).
    pub fn accepts_charge(self) -> (r: bool)
        ensures
            r == (self == DataDrainState::Inactive || self == DataDrainState::Charging),
    {
        match self {
            DataDrainState::Inactive | DataDrainState::Charging => true,
            _ => false,
        }
    }

    /// The state after charging (see [`charged_state`]).
    pub fn after_charge(self, full: bool) -> (r: DataDrainState)
        ensures
            r == charged_state(self, full),
    {
        match self {
            DataDrainState::Inactive | DataDrainState::Charging => if full {
                DataDrainState::Ready
            } else {
                DataDrainState::Charging
            },
            _ => self,
        }
    }

    /// Activate the drain: from `Ready` it becomes `Active` and the result
    /// says it fired; in any other state nothing changes.
    pub fn activated(self) -> (r: (DataDrainState, bool))
        ensures
            r == (if self == DataDrainState::Ready {
                (DataDrainState::Active, true)
            } else {
                (self, false)
            }),
    {
        match self {
            DataDrainState::Ready => (DataDrainState::Active, true),
            _ => (self, false),
        }
    }

    /// The state after one frame (see [`updated_state`]).
    pub fn after_update(self, cooldown_over: bool) -> (r: DataDrainState)
        ensures
            r == updated_state(self, cooldown_over),
    {
        match self {
            DataDrainState::Active => DataDrainState::Cooldown,
            DataDrainState::Cooldown => if cooldown_over { DataDrainState::Inactive } else { self },
            _ => self,
        }
    }
}

} // verus!
