use bim_evac::element::ElementSign;
use bim_evac::speed::{speed_rule_in_element, stair_movement, LevelChange, SpeedRule, StairMovement};

#[test]
fn stair_movement_by_sign_of_direction() {
    assert_eq!(stair_movement(1), StairMovement::Upward);
    assert_eq!(stair_movement(42), StairMovement::Upward);
    assert_eq!(stair_movement(-1), StairMovement::Downward);
    assert_eq!(stair_movement(i32::MIN), StairMovement::Downward);
    assert_eq!(stair_movement(0), StairMovement::Unset);
}

#[test]
fn staircase_on_higher_level_uses_upward_direction() {
    assert_eq!(
        speed_rule_in_element(ElementSign::Staircase, LevelChange::ReceivingHigher),
        SpeedRule::Stair { direction: 1 }
    );
}

#[test]
fn staircase_on_lower_level_uses_downward_direction() {
    assert_eq!(
        speed_rule_in_element(ElementSign::Staircase, LevelChange::ReceivingLower),
        SpeedRule::Stair { direction: -1 }
    );
}

#[test]
fn staircase_on_same_level_uses_room_law() {
    assert_eq!(
        speed_rule_in_element(ElementSign::Staircase, LevelChange::Same),
        SpeedRule::Room
    );
}

#[test]
fn other_kinds_use_room_law_on_any_level() {
    let signs = [
        ElementSign::Room,
        ElementSign::DoorWay,
        ElementSign::DoorWayIn,
        ElementSign::DoorWayOut,
        ElementSign::Outside,
        ElementSign::Undefined,
    ];
    let levels = [LevelChange::Same, LevelChange::ReceivingHigher, LevelChange::ReceivingLower];
    for sign in signs {
        for level in levels {
            assert_eq!(speed_rule_in_element(sign, level), SpeedRule::Room);
        }
    }
}

#[test]
fn stair_rule_always_selects_a_parameter_set() {
    let levels = [LevelChange::ReceivingHigher, LevelChange::ReceivingLower];
    for level in levels {
        match speed_rule_in_element(ElementSign::Staircase, level) {
            SpeedRule::Stair { direction } => {
                let movement = stair_movement(direction);
                assert_ne!(movement, StairMovement::Unset);
                assert_eq!(
                    movement == StairMovement::Downward,
                    level == LevelChange::ReceivingLower
                );
                assert_eq!(
                    movement == StairMovement::Upward,
                    level == LevelChange::ReceivingHigher
                );
            }
            SpeedRule::Room => panic!("a staircase on another level uses the stair law"),
        }
    }
}
