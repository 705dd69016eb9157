use rf433::dispatch::{
    get_device_number_from_id, get_device_number_from_numeric_id, plan_post, plan_request,
    publish_states, send_to_target, set_device_mode, DispatchOutcome, DispatchTarget, PostPlan,
    RequestPlan, SenderState,
};
use rf433::line::{LineEvent, OutputLine};
use rf433::nexa::{DeviceMode, DeviceNumber, Nexa};
use rf433::repo::{Device, Repo};
use rf433::rollo::{Direction, Rollo};

fn trace(line: &OutputLine) -> Vec<(bool, u64)> {
    let mut v: Vec<(bool, u64)> = vec![];
    let mut i = 0;
    while i < line.event_count() {
        let e: LineEvent = line.event_at(i);
        v.push((e.high, e.units));
        i += 1;
    }
    v
}

fn make_state() -> SenderState {
    SenderState {
        sender_one: Nexa::new("11000000000000000000000010").unwrap(),
        sender_two: Nexa::new("11000000000000000000000001").unwrap(),
        sender_three: Nexa::new("11000000000000000000000000").unwrap(),
        sender_four: Nexa::new("11000000000000000000000011").unwrap(),
        repo: Repo::new("test.db"),
    }
}

#[test]
fn unknown_device_is_a_silent_no_op() {
    let state = make_state();
    let mut line = OutputLine::new();
    let r = set_device_mode("99", "on", &state, &mut line);
    assert!(matches!(r, DispatchOutcome::Unknown));
    assert_eq!(line.event_count(), 0);
}

#[test]
fn unit_id_dispatches_to_its_sender_and_unit() {
    let state = make_state();
    let mut line = OutputLine::new();
    let r = set_device_mode("2", "on", &state, &mut line);
    assert!(matches!(r, DispatchOutcome::Sent));

    let mut direct = OutputLine::new();
    state.sender_one.turn_device_on(DeviceNumber::Two, &mut direct);
    assert_eq!(trace(&line), trace(&direct));
}

#[test]
fn unit_id_with_unknown_mode_sends_nothing() {
    let state = make_state();
    let mut line = OutputLine::new();
    let r = set_device_mode("1", "toggle", &state, &mut line);
    assert!(matches!(r, DispatchOutcome::Unknown));
    assert_eq!(line.event_count(), 0);
}

#[test]
fn all_broadcasts_over_every_configured_sender() {
    let state = make_state();
    let mut line = OutputLine::new();
    let r = set_device_mode("all", "off", &state, &mut line);
    assert!(matches!(r, DispatchOutcome::Sent));

    let mut direct = OutputLine::new();
    state.sender_one.turn_group_off(&mut direct);
    state.sender_two.turn_group_off(&mut direct);
    state.sender_three.turn_group_off(&mut direct);
    state.sender_four.turn_group_off(&mut direct);
    assert_eq!(trace(&line), trace(&direct));
}

#[test]
fn m1_sends_a_group_command_on_sender_one() {
    let state = make_state();
    let mut line = OutputLine::new();
    let r = set_device_mode("m1", "on", &state, &mut line);
    assert!(matches!(r, DispatchOutcome::Sent));

    let mut direct = OutputLine::new();
    state.sender_one.turn_group_on(&mut direct);
    assert_eq!(trace(&line), trace(&direct));
}

#[test]
fn m3_sends_the_requested_group_command_on_sender_three() {
    let state = make_state();

    let mut on_line = OutputLine::new();
    let r = set_device_mode("m3", "on", &state, &mut on_line);
    assert!(matches!(r, DispatchOutcome::Sent));
    let mut on_direct = OutputLine::new();
    state.sender_three.turn_group_on(&mut on_direct);
    assert_eq!(trace(&on_line), trace(&on_direct));

    let mut off_line = OutputLine::new();
    let r = set_device_mode("m3", "off", &state, &mut off_line);
    assert!(matches!(r, DispatchOutcome::Sent));
    let mut off_direct = OutputLine::new();
    state.sender_three.turn_group_off(&mut off_direct);
    assert_eq!(trace(&off_line), trace(&off_direct));
}

#[test]
fn external_ids_refer_the_caller_out() {
    let state = make_state();
    let mut line = OutputLine::new();
    match set_device_mode("11", "on", &state, &mut line) {
        DispatchOutcome::External { target } => assert_eq!(target, "4"),
        _ => panic!("expected an external referral"),
    }
    match set_device_mode("12", "off", &state, &mut line) {
        DispatchOutcome::External { target } => assert_eq!(target, "5"),
        _ => panic!("expected an external referral"),
    }
    assert_eq!(line.event_count(), 0);
}

#[test]
fn lookup_covers_the_ten_unit_ids() {
    let state = make_state();
    let table = [
        ("1", "11000000000000000000000010"),
        ("2", "11000000000000000000000010"),
        ("3", "11000000000000000000000010"),
        ("4", "11000000000000000000000001"),
        ("5", "11000000000000000000000001"),
        ("6", "11000000000000000000000001"),
        ("7", "11000000000000000000000000"),
        ("8", "11000000000000000000000000"),
        ("9", "11000000000000000000000000"),
        ("10", "11000000000000000000000011"),
    ];
    for (id, sender) in table {
        let (nexa, _) = get_device_number_from_id(id, &state).unwrap();
        assert_eq!(nexa.sender_id(), sender);
    }
    assert!(get_device_number_from_id("0", &state).is_none());
    assert!(get_device_number_from_id("99", &state).is_none());
    assert!(get_device_number_from_id("all", &state).is_none());
}

#[test]
fn numeric_lookup_matches_the_string_table() {
    let state = make_state();
    for id in 1i64..=10 {
        let by_number = get_device_number_from_numeric_id(id, &state).unwrap();
        let key = id.to_string();
        let by_name = get_device_number_from_id(&key, &state).unwrap();
        assert_eq!(by_number.0.sender_id(), by_name.0.sender_id());
        assert!(matches!(
            (by_number.1, by_name.1),
            (DeviceNumber::One, DeviceNumber::One)
                | (DeviceNumber::Two, DeviceNumber::Two)
                | (DeviceNumber::Three, DeviceNumber::Three)
        ));
    }
    assert!(get_device_number_from_numeric_id(0, &state).is_none());
    assert!(get_device_number_from_numeric_id(11, &state).is_none());
}

#[test]
fn resolved_targets_transmit_uniformly() {
    let state = make_state();

    let unit = DispatchTarget::NexaUnit(state.sender_one.clone(), DeviceNumber::Two);
    let mut line = OutputLine::new();
    send_to_target(&unit, DeviceMode::On, &state, &mut line);
    let mut direct = OutputLine::new();
    state.sender_one.turn_device_on(DeviceNumber::Two, &mut direct);
    assert_eq!(trace(&line), trace(&direct));

    let group = DispatchTarget::NexaGroup(state.sender_two.clone());
    let mut line = OutputLine::new();
    send_to_target(&group, DeviceMode::Off, &state, &mut line);
    let mut direct = OutputLine::new();
    state.sender_two.turn_group_off(&mut direct);
    assert_eq!(trace(&line), trace(&direct));

    let broadcast = DispatchTarget::Broadcast;
    let mut line = OutputLine::new();
    send_to_target(&broadcast, DeviceMode::Off, &state, &mut line);
    let mut direct = OutputLine::new();
    set_device_mode("all", "off", &state, &mut direct);
    assert_eq!(trace(&line), trace(&direct));
}

#[test]
fn resolved_shutter_target_maps_on_to_up_and_off_to_down() {
    let state = make_state();
    let shutter = DispatchTarget::RolloDevice(Rollo::new("10F").unwrap());

    let mut line = OutputLine::new();
    send_to_target(&shutter, DeviceMode::On, &state, &mut line);
    let mut direct = OutputLine::new();
    Rollo::new("10F").unwrap().send(Direction::UP, &mut direct);
    assert_eq!(trace(&line), trace(&direct));

    let mut line = OutputLine::new();
    send_to_target(&shutter, DeviceMode::Off, &state, &mut line);
    let mut direct = OutputLine::new();
    Rollo::new("10F").unwrap().send(Direction::DOWN, &mut direct);
    assert_eq!(trace(&line), trace(&direct));
}

#[test]
fn commands_serialize_on_the_shared_line() {
    // Two commands against the same line appear as two contiguous,
    // non-overlapping pulse trains, in order.
    let state = make_state();
    let mut line = OutputLine::new();
    state.sender_one.turn_device_on(DeviceNumber::One, &mut line);
    state.sender_two.turn_group_off(&mut line);

    let mut first = OutputLine::new();
    state.sender_one.turn_device_on(DeviceNumber::One, &mut first);
    let mut second = OutputLine::new();
    state.sender_two.turn_group_off(&mut second);

    let mut expected = trace(&first);
    expected.extend(trace(&second));
    assert_eq!(trace(&line), expected);
    assert_eq!(line.event_count(), first.event_count() + second.event_count());
}

#[test]
fn resync_publishes_each_known_device_in_order() {
    let state = make_state();
    let mut d1 = Device::new("lamp", 1, true);
    d1.id = 1;
    let mut unknown = Device::new("ghost", 1, true);
    unknown.id = 99;
    let mut d4 = Device::new("socket", 2, false);
    d4.id = 4;
    let devices = vec![d1, unknown, d4];

    let mut line = OutputLine::new();
    publish_states(&devices, &state, &mut line);

    let mut direct = OutputLine::new();
    state.sender_one.turn_device_on(DeviceNumber::One, &mut direct);
    state.sender_two.turn_device_off(DeviceNumber::One, &mut direct);
    assert_eq!(trace(&line), trace(&direct));
}

#[test]
fn resync_of_no_devices_sends_nothing() {
    let state = make_state();
    let devices: Vec<Device> = vec![];
    let mut line = OutputLine::new();
    publish_states(&devices, &state, &mut line);
    assert_eq!(line.event_count(), 0);
}

#[test]
fn request_plan_defers_only_positive_delays() {
    assert!(matches!(plan_request(None), RequestPlan::Immediate));
    assert!(matches!(plan_request(Some(0)), RequestPlan::Immediate));
    assert!(matches!(
        plan_request(Some(30)),
        RequestPlan::Deferred { seconds: 30 }
    ));
}

#[test]
fn post_plan_covers_delay_mode_and_rejection() {
    assert!(matches!(
        plan_post("on", Some(5)),
        PostPlan::Deferred { seconds: 5 }
    ));
    assert!(matches!(
        plan_post("on", Some(0)),
        PostPlan::Immediate { mode: DeviceMode::On }
    ));
    assert!(matches!(
        plan_post("off", None),
        PostPlan::Immediate { mode: DeviceMode::Off }
    ));
    assert!(matches!(plan_post("toggle", None), PostPlan::Rejected));
}
