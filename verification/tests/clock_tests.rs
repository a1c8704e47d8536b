use ant_sim::clock::{stepped_time_scale, ControlEvents, TIME_SCALE_MAX, TIME_SCALE_MIN};

fn up() -> ControlEvents {
    ControlEvents { increase: true, decrease: false }
}

fn down() -> ControlEvents {
    ControlEvents { increase: false, decrease: true }
}

fn both() -> ControlEvents {
    ControlEvents { increase: true, decrease: true }
}

fn idle() -> ControlEvents {
    ControlEvents { increase: false, decrease: false }
}

#[test]
fn increase_from_floor() {
    assert_eq!(stepped_time_scale(1, up()), 2);
}

#[test]
fn increase_at_ceiling_is_a_no_op() {
    assert_eq!(stepped_time_scale(3, up()), 3);
}

#[test]
fn decrease_at_floor_is_a_no_op() {
    assert_eq!(stepped_time_scale(1, down()), 1);
}

#[test]
fn decrease_from_ceiling() {
    assert_eq!(stepped_time_scale(3, down()), 2);
}

#[test]
fn idle_frame_leaves_scale_alone() {
    assert_eq!(stepped_time_scale(2, idle()), 2);
}

#[test]
fn both_signals_held_in_midband() {
    // increase applies first, then decrease: back where it started
    assert_eq!(stepped_time_scale(1, both()), 1);
    assert_eq!(stepped_time_scale(2, both()), 2);
}

#[test]
fn both_signals_held_at_ceiling() {
    // the increase is absorbed by the ceiling, so the decrease wins
    assert_eq!(stepped_time_scale(3, both()), 2);
}

#[test]
fn any_event_sequence_stays_clamped() {
    let sequence = [
        up(),
        up(),
        up(),
        up(),
        both(),
        down(),
        down(),
        down(),
        down(),
        idle(),
        up(),
        down(),
        both(),
        up(),
        up(),
    ];
    let mut scale: u8 = 1;
    for events in sequence {
        scale = stepped_time_scale(scale, events);
        assert!(TIME_SCALE_MIN <= scale && scale <= TIME_SCALE_MAX);
    }
}
