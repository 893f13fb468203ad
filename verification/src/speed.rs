use vstd::prelude::*;

use crate::element::ElementSign;

verus! {

/// The parameter set of the stair speed law that a direction selects.
#[derive(PartialEq, Eq, Structural, Clone, Copy, Debug)]
pub enum StairMovement {
    /// A positive direction: the upward parameter set.
    Upward,
    /// A negative direction: the downward parameter set.
    Downward,
    /// A zero direction selects no parameter set; every parameter stays zero.
    Unset,
}

/// How the level of the receiving zone compares with the level of the zone
/// that people leave, up to the tolerance of the model.
#[derive(PartialEq, Eq, Structural, Clone, Copy, Debug)]
pub enum LevelChange {
    /// Both zones stand on the same level.
    Same,
    /// The receiving zone stands higher.
    ReceivingHigher,
    /// The receiving zone stands lower.
    ReceivingLower,
}

/// The speed law that applies to people leaving a zone.
#[derive(PartialEq, Eq, Structural, Clone, Copy, Debug)]
pub enum SpeedRule {
    /// The law of horizontal movement.
    Room,
    /// The stair law, with the direction code handed to it.
    Stair { direction: libc::c_int },
}

/// The parameter set that a direction code selects: its sign decides.
pub open spec fn spec_stair_movement(direction: int) -> StairMovement {
    if direction > 0 {
        StairMovement::Upward
    } else if direction < 0 {
        StairMovement::Downward
    } else {
        StairMovement::Unset
    }
}

/// The parameter set of the stair law for a direction code (`1` up, `-1`
/// down): a positive code selects the upward set, a negative one the
/// downward set, and zero selects none.
pub fn stair_movement(direction: libc::c_int) -> (r: StairMovement)
    ensures
        r == spec_stair_movement(direction as int),
{
    if direction > 0 {
        StairMovement::Upward
    } else if direction < 0 {
        StairMovement::Downward
    } else {
        StairMovement::Unset
    }
}

/// The speed law for people moving into `receiving_sign` across `level`:
/// the stair law when the receiving zone is a staircase on another level
/// (direction `1`, upwards, when it stands higher; `-1`, downwards, when it
/// stands lower), the horizontal law otherwise.
pub open spec fn spec_speed_rule_in_element(receiving_sign: ElementSign, level: LevelChange) -> SpeedRule {
    if receiving_sign == ElementSign::Staircase && level != LevelChange::Same {
        SpeedRule::Stair { direction: if level == LevelChange::ReceivingHigher { 1i32 } else { -1i32 } }
    } else {
        SpeedRule::Room
    }
}

/// Chooses the speed law for a flow leaving a zone towards a zone of kind
/// `receiving_sign` whose level compares with it as `level`.
pub fn speed_rule_in_element(receiving_sign: ElementSign, level: LevelChange) -> (r: SpeedRule)
    ensures
        r == spec_speed_rule_in_element(receiving_sign, level),
{
    match receiving_sign {
        ElementSign::Staircase => match level {
            LevelChange::Same => SpeedRule::Room,
            LevelChange::ReceivingHigher => SpeedRule::Stair { direction: 1 },
            LevelChange::ReceivingLower => SpeedRule::Stair { direction: -1 },
        },
        _ => SpeedRule::Room,
    }
}

/// Whenever the stair law applies, its direction selects a parameter set:
/// the direction is never zero, so the all-zero parameters never come into
/// play for a flow between zones; people climbing to a higher staircase get
/// the upward set, people descending to a lower one the downward set.
pub proof fn lemma_stair_rule_selects_parameters(receiving_sign: ElementSign, level: LevelChange)
    ensures
        spec_speed_rule_in_element(receiving_sign, level) matches SpeedRule::Stair { direction }
            ==> spec_stair_movement(direction as int) != StairMovement::Unset,
        spec_speed_rule_in_element(receiving_sign, level) matches SpeedRule::Stair { direction }
            ==> (spec_stair_movement(direction as int) == StairMovement::Downward
                <==> level == LevelChange::ReceivingLower),
        spec_speed_rule_in_element(receiving_sign, level) matches SpeedRule::Stair { direction }
            ==> (spec_stair_movement(direction as int) == StairMovement::Upward
                <==> level == LevelChange::ReceivingHigher),
{
}

/// The sign of the direction code alone chooses the parameter set: positive
/// codes the upward set, negative codes the downward set, zero none.
pub proof fn lemma_stair_movement_by_sign(direction: int)
    ensures
        spec_stair_movement(direction) == StairMovement::Upward <==> direction > 0,
        spec_stair_movement(direction) == StairMovement::Downward <==> direction < 0,
        spec_stair_movement(direction) == StairMovement::Unset <==> direction == 0,
{
}

/// The stair law applies exactly to flows into a staircase on another level,
/// with direction `1` into a higher one and `-1` into a lower one; every other
/// flow follows the horizontal law.
pub proof fn lemma_speed_rule_exact(receiving_sign: ElementSign, level: LevelChange)
    ensures
        spec_speed_rule_in_element(receiving_sign, level) is Stair
            <==> (receiving_sign == ElementSign::Staircase && level != LevelChange::Same),
        spec_speed_rule_in_element(receiving_sign, level) is Room
            <==> (receiving_sign != ElementSign::Staircase || level == LevelChange::Same),
        spec_speed_rule_in_element(receiving_sign, level) == (SpeedRule::Stair { direction: 1i32 })
            <==> (receiving_sign == ElementSign::Staircase && level == LevelChange::ReceivingHigher),
        spec_speed_rule_in_element(receiving_sign, level) == (SpeedRule::Stair { direction: -1i32 })
            <==> (receiving_sign == ElementSign::Staircase && level == LevelChange::ReceivingLower),
{
}

} // verus!
