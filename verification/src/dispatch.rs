//! The command dispatcher.
//!
//! Maps an external device identifier and a requested action to a command on
//! one of the configured senders: a single-unit command, a whole-group
//! command, a broadcast over every configured sender, or a referral to a device
//! reached over the network.  Unknown identifiers are a no-op the caller may
//! log: the radio channel gives no feedback, so an unknown device and a
//! device that missed the signal are the same failure and both are treated
//! as best-effort success.

use crate::line::{train_events, LineEvent, OutputLine};
use crate::nexa::{nexa_code, nexa_command_train, DeviceMode, DeviceNumber, Nexa};
use crate::repo::{Device, Repo};
use crate::rollo::{rollo_command_events, Direction, Rollo};
use crate::str_eq;
use vstd::prelude::*;

verus! {

/// The configured senders and the store handle, shared by every request.
#[derive(Clone)]
pub struct SenderState {
    pub sender_one: Nexa,
    pub sender_two: Nexa,
    pub sender_three: Nexa,
    pub sender_four: Nexa,
    pub repo: Repo,
}

/// The events of one single-unit command on a sender.
pub open spec fn unit_command_events(n: Nexa, d: DeviceNumber, m: DeviceMode) -> Seq<LineEvent> {
    train_events(nexa_command_train(nexa_code(n@, false, d, m)))
}

/// The events of one whole-group command on a sender.
pub open spec fn group_command_events(n: Nexa, m: DeviceMode) -> Seq<LineEvent> {
    train_events(nexa_command_train(nexa_code(n@, true, DeviceNumber::One, m)))
}

/// The events of a broadcast: a group command on every configured sender, in
/// configuration order.
pub open spec fn broadcast_events(state: SenderState, m: DeviceMode) -> Seq<LineEvent> {
    group_command_events(state.sender_one, m) + group_command_events(state.sender_two, m)
        + group_command_events(state.sender_three, m) + group_command_events(state.sender_four, m)
}

/// The sender and sub-unit a device identifier addresses, if any.
pub open spec fn unit_slot(id: Seq<char>, state: SenderState) -> Option<(Nexa, DeviceNumber)> {
    if id == "1"@ {
        Some((state.sender_one, DeviceNumber::One))
    } else if id == "2"@ {
        Some((state.sender_one, DeviceNumber::Two))
    } else if id == "3"@ {
        Some((state.sender_one, DeviceNumber::Three))
    } else if id == "4"@ {
        Some((state.sender_two, DeviceNumber::One))
    } else if id == "5"@ {
        Some((state.sender_two, DeviceNumber::Two))
    } else if id == "6"@ {
        Some((state.sender_two, DeviceNumber::Three))
    } else if id == "7"@ {
        Some((state.sender_three, DeviceNumber::One))
    } else if id == "8"@ {
        Some((state.sender_three, DeviceNumber::Two))
    } else if id == "9"@ {
        Some((state.sender_three, DeviceNumber::Three))
    } else if id == "10"@ {
        Some((state.sender_four, DeviceNumber::One))
    } else {
        None
    }
}

/// The sender and sub-unit a numeric device id addresses, if any: the same
/// table as `unit_slot`, keyed by the store's numeric id.
pub open spec fn numeric_slot(id: int, state: SenderState) -> Option<(Nexa, DeviceNumber)> {
    if id == 1 {
        Some((state.sender_one, DeviceNumber::One))
    } else if id == 2 {
        Some((state.sender_one, DeviceNumber::Two))
    } else if id == 3 {
        Some((state.sender_one, DeviceNumber::Three))
    } else if id == 4 {
        Some((state.sender_two, DeviceNumber::One))
    } else if id == 5 {
        Some((state.sender_two, DeviceNumber::Two))
    } else if id == 6 {
        Some((state.sender_two, DeviceNumber::Three))
    } else if id == 7 {
        Some((state.sender_three, DeviceNumber::One))
    } else if id == 8 {
        Some((state.sender_three, DeviceNumber::Two))
    } else if id == 9 {
        Some((state.sender_three, DeviceNumber::Three))
    } else if id == 10 {
        Some((state.sender_four, DeviceNumber::One))
    } else {
        None
    }
}

/// The requested action, parsed: "on" and "off" are the only actions.
pub open spec fn mode_of(mode: Seq<char>) -> Option<DeviceMode> {
    if mode == "on"@ {
        Some(DeviceMode::On)
    } else if mode == "off"@ {
        Some(DeviceMode::Off)
    } else {
        None
    }
}

/// Look a string device identifier up in the unit table.
pub fn get_device_number_from_id<'a>(id: &str, state: &'a SenderState) -> (r: Option<
    (&'a Nexa, DeviceNumber),
>)
    ensures
        match unit_slot(id@, *state) {
            Some(slot) => r matches Some(p) && *p.0 == slot.0 && p.1 == slot.1,
            None => r is None,
        },
{
    if str_eq(id, "1") {
        Some((&state.sender_one, DeviceNumber::One))
    } else if str_eq(id, "2") {
        Some((&state.sender_one, DeviceNumber::Two))
    } else if str_eq(id, "3") {
        Some((&state.sender_one, DeviceNumber::Three))
    } else if str_eq(id, "4") {
        Some((&state.sender_two, DeviceNumber::One))
    } else if str_eq(id, "5") {
        Some((&state.sender_two, DeviceNumber::Two))
    } else if str_eq(id, "6") {
        Some((&state.sender_two, DeviceNumber::Three))
    } else if str_eq(id, "7") {
        Some((&state.sender_three, DeviceNumber::One))
    } else if str_eq(id, "8") {
        Some((&state.sender_three, DeviceNumber::Two))
    } else if str_eq(id, "9") {
        Some((&state.sender_three, DeviceNumber::Three))
    } else if str_eq(id, "10") {
        Some((&state.sender_four, DeviceNumber::One))
    } else {
        None
    }
}

/// Look a numeric store id up in the unit table.
pub fn get_device_number_from_numeric_id<'a>(id: i64, state: &'a SenderState) -> (r: Option<
    (&'a Nexa, DeviceNumber),
>)
    ensures
        match numeric_slot(id as int, *state) {
            Some(slot) => r matches Some(p) && *p.0 == slot.0 && p.1 == slot.1,
            None => r is None,
        },
{
    match id {
        1 => Some((&state.sender_one, DeviceNumber::One)),
        2 => Some((&state.sender_one, DeviceNumber::Two)),
        3 => Some((&state.sender_one, DeviceNumber::Three)),
        4 => Some((&state.sender_two, DeviceNumber::One)),
        5 => Some((&state.sender_two, DeviceNumber::Two)),
        6 => Some((&state.sender_two, DeviceNumber::Three)),
        7 => Some((&state.sender_three, DeviceNumber::One)),
        8 => Some((&state.sender_three, DeviceNumber::Two)),
        9 => Some((&state.sender_three, DeviceNumber::Three)),
        10 => Some((&state.sender_four, DeviceNumber::One)),
        _ => None,
    }
}

/// The named identifiers the dispatcher recognises besides the unit table —
/// group, broadcast and external-device names — address no unit, and are
/// pairwise distinct.
pub proof fn lemma_non_unit_ids(state: SenderState)
    ensures
        unit_slot("all"@, state) is None,
        unit_slot("m1"@, state) is None,
        unit_slot("m2"@, state) is None,
        unit_slot("m3"@, state) is None,
        unit_slot("11"@, state) is None,
        unit_slot("12"@, state) is None,
        "all"@ != "m1"@ && "all"@ != "m2"@ && "all"@ != "m3"@ && "all"@ != "11"@ && "all"@
            != "12"@,
        "m1"@ != "m2"@ && "m1"@ != "m3"@ && "m1"@ != "11"@ && "m1"@ != "12"@,
        "m2"@ != "m3"@ && "m2"@ != "11"@ && "m2"@ != "12"@,
        "m3"@ != "11"@ && "m3"@ != "12"@,
        "11"@ != "12"@,
{
    reveal_strlit("1");
    reveal_strlit("2");
    reveal_strlit("3");
    reveal_strlit("4");
    reveal_strlit("5");
    reveal_strlit("6");
    reveal_strlit("7");
    reveal_strlit("8");
    reveal_strlit("9");
    reveal_strlit("10");
    reveal_strlit("11");
    reveal_strlit("12");
    reveal_strlit("all");
    reveal_strlit("m1");
    reveal_strlit("m2");
    reveal_strlit("m3");
    assert("1"@.len() == 1);
    assert("2"@.len() == 1);
    assert("3"@.len() == 1);
    assert("4"@.len() == 1);
    assert("5"@.len() == 1);
    assert("6"@.len() == 1);
    assert("7"@.len() == 1);
    assert("8"@.len() == 1);
    assert("9"@.len() == 1);
    assert("all"@.len() == 3);
    assert("10"@.len() == 2 && "10"@[0] == '1' && "10"@[1] == '0');
    assert("11"@.len() == 2 && "11"@[0] == '1' && "11"@[1] == '1');
    assert("12"@.len() == 2 && "12"@[0] == '1' && "12"@[1] == '2');
    assert("m1"@.len() == 2 && "m1"@[0] == 'm' && "m1"@[1] == '1');
    assert("m2"@.len() == 2 && "m2"@[0] == 'm' && "m2"@[1] == '2');
    assert("m3"@.len() == 2 && "m3"@[0] == 'm' && "m3"@[1] == '3');
}

/// What the dispatcher did with a request.
#[derive(Clone, Debug)]
pub enum DispatchOutcome {
    /// The command's pulses went out on the line.
    Sent,
    /// The identifier belongs to a device reached over the network; the
    /// caller performs the call against this external target id.
    External { target: String },
    /// The identifier maps to nothing: a no-op the caller may log.
    Unknown,
}

/// Dispatch one request: look the identifier up, transmit the matching
/// command (or refer the caller to an external device), and report what was
/// done.  An unknown identifier leaves the line untouched.
pub fn set_device_mode(
    device_name: &str,
    mode: &str,
    state: &SenderState,
    line: &mut OutputLine,
) -> (r: DispatchOutcome)
    ensures
        unit_slot(device_name@, *state) is Some && mode_of(mode@) is Some ==> final(line)@
            == old(line)@ + unit_command_events(
            unit_slot(device_name@, *state)->Some_0.0,
            unit_slot(device_name@, *state)->Some_0.1,
            mode_of(mode@)->Some_0,
        ) && r == DispatchOutcome::Sent,
        unit_slot(device_name@, *state) is Some && mode_of(mode@) is None ==> final(line)@
            == old(line)@ && r == DispatchOutcome::Unknown,
        device_name@ == "all"@ && mode_of(mode@) is Some ==> final(line)@ == old(line)@
            + broadcast_events(*state, mode_of(mode@)->Some_0) && r == DispatchOutcome::Sent,
        device_name@ == "m1"@ && mode_of(mode@) is Some ==> final(line)@ == old(line)@
            + group_command_events(state.sender_one, mode_of(mode@)->Some_0) && r
            == DispatchOutcome::Sent,
        device_name@ == "m2"@ && mode_of(mode@) is Some ==> final(line)@ == old(line)@
            + group_command_events(state.sender_two, mode_of(mode@)->Some_0) && r
            == DispatchOutcome::Sent,
        device_name@ == "m3"@ && mode_of(mode@) is Some ==> final(line)@ == old(line)@
            + group_command_events(state.sender_three, mode_of(mode@)->Some_0) && r
            == DispatchOutcome::Sent,
        device_name@ == "11"@ ==> final(line)@ == old(line)@ && (r matches
            DispatchOutcome::External { target } && target@ == "4"@),
        device_name@ == "12"@ ==> final(line)@ == old(line)@ && (r matches
            DispatchOutcome::External { target } && target@ == "5"@),
        (unit_slot(device_name@, *state) is None && !(device_name@ == "all"@ || device_name@
            == "m1"@ || device_name@ == "m2"@ || device_name@ == "m3"@ || device_name@ == "11"@
            || device_name@ == "12"@)) ==> final(line)@ == old(line)@ && r
            == DispatchOutcome::Unknown,
        (device_name@ == "all"@ || device_name@ == "m1"@ || device_name@ == "m2"@ || device_name@
            == "m3"@) && mode_of(mode@) is None ==> final(line)@ == old(line)@ && r
            == DispatchOutcome::Unknown,
{
    proof {
        lemma_non_unit_ids(*state);
    }
    let mode_opt = parse_mode(mode);
    if let Some((sender, number)) = get_device_number_from_id(device_name, state) {
        return match mode_opt {
            Some(DeviceMode::On) => {
                sender.turn_device_on(number, line);
                DispatchOutcome::Sent
            },
            Some(DeviceMode::Off) => {
                sender.turn_device_off(number, line);
                DispatchOutcome::Sent
            },
            None => DispatchOutcome::Unknown,
        };
    }
    if str_eq(device_name, "all") {
        match mode_opt {
            Some(DeviceMode::On) => {
                state.sender_one.turn_group_on(line);
                state.sender_two.turn_group_on(line);
                state.sender_three.turn_group_on(line);
                state.sender_four.turn_group_on(line);
                DispatchOutcome::Sent
            },
            Some(DeviceMode::Off) => {
                state.sender_one.turn_group_off(line);
                state.sender_two.turn_group_off(line);
                state.sender_three.turn_group_off(line);
                state.sender_four.turn_group_off(line);
                DispatchOutcome::Sent
            },
            None => DispatchOutcome::Unknown,
        }
    } else if str_eq(device_name, "m1") {
        match mode_opt {
            Some(DeviceMode::On) => {
                state.sender_one.turn_group_on(line);
                DispatchOutcome::Sent
            },
            Some(DeviceMode::Off) => {
                state.sender_one.turn_group_off(line);
                DispatchOutcome::Sent
            },
            None => DispatchOutcome::Unknown,
        }
    } else if str_eq(device_name, "m2") {
        match mode_opt {
            Some(DeviceMode::On) => {
                state.sender_two.turn_group_on(line);
                DispatchOutcome::Sent
            },
            Some(DeviceMode::Off) => {
                state.sender_two.turn_group_off(line);
                DispatchOutcome::Sent
            },
            None => DispatchOutcome::Unknown,
        }
    } else if str_eq(device_name, "m3") {
        match mode_opt {
            Some(DeviceMode::On) => {
                state.sender_three.turn_group_on(line);
                DispatchOutcome::Sent
            },
            Some(DeviceMode::Off) => {
                state.sender_three.turn_group_off(line);
                DispatchOutcome::Sent
            },
            None => DispatchOutcome::Unknown,
        }
    } else if str_eq(device_name, "11") {
        DispatchOutcome::External { target: "4".to_owned() }
    } else if str_eq(device_name, "12") {
        DispatchOutcome::External { target: "5".to_owned() }
    } else {
        DispatchOutcome::Unknown
    }
}

/// A dispatch target, resolved once at configuration load time: the closed
/// set of things a request can address.
pub enum DispatchTarget {
    /// One sub-unit of a Nexa sender.
    NexaUnit(Nexa, DeviceNumber),
    /// A whole Nexa sender group.
    NexaGroup(Nexa),
    /// A roller shutter with its own codec.
    RolloDevice(Rollo),
    /// Every configured sender's group.
    Broadcast,
}

/// The direction a switch action maps to on a roller shutter: switching on
/// raises it, switching off lowers it.
pub open spec fn mode_direction(m: DeviceMode) -> Direction {
    match m {
        DeviceMode::On => Direction::UP,
        DeviceMode::Off => Direction::DOWN,
    }
}

/// What a resolved target sends for a requested action.
pub open spec fn target_events(
    t: DispatchTarget,
    m: DeviceMode,
    state: SenderState,
) -> Seq<LineEvent> {
    match t {
        DispatchTarget::NexaUnit(n, d) => unit_command_events(n, d, m),
        DispatchTarget::NexaGroup(n) => group_command_events(n, m),
        DispatchTarget::RolloDevice(r) => rollo_command_events(r@, mode_direction(m)),
        DispatchTarget::Broadcast => broadcast_events(state, m),
    }
}

/// Send one action to a resolved target: both codec families and the
/// broadcast are driven through this one function, so every target kind
/// transmits uniformly on the shared line.
pub fn send_to_target(
    target: &DispatchTarget,
    mode: DeviceMode,
    state: &SenderState,
    line: &mut OutputLine,
)
    ensures
        final(line)@ == old(line)@ + target_events(*target, mode, *state),
{
    match target {
        DispatchTarget::NexaUnit(sender, number) => {
            match mode {
                DeviceMode::On => sender.turn_device_on(*number, line),
                DeviceMode::Off => sender.turn_device_off(*number, line),
            }
        },
        DispatchTarget::NexaGroup(sender) => {
            match mode {
                DeviceMode::On => sender.turn_group_on(line),
                DeviceMode::Off => sender.turn_group_off(line),
            }
        },
        DispatchTarget::RolloDevice(shutter) => {
            let direction = match mode {
                DeviceMode::On => Direction::UP,
                DeviceMode::Off => Direction::DOWN,
            };
            shutter.send(direction, line);
        },
        DispatchTarget::Broadcast => {
            match mode {
                DeviceMode::On => {
                    state.sender_one.turn_group_on(line);
                    state.sender_two.turn_group_on(line);
                    state.sender_three.turn_group_on(line);
                    state.sender_four.turn_group_on(line);
                },
                DeviceMode::Off => {
                    state.sender_one.turn_group_off(line);
                    state.sender_two.turn_group_off(line);
                    state.sender_three.turn_group_off(line);
                    state.sender_four.turn_group_off(line);
                },
            }
        },
    }
}

/// The mode a stored on/off state maps to when it is re-sent.
pub open spec fn state_mode(on: bool) -> DeviceMode {
    if on {
        DeviceMode::On
    } else {
        DeviceMode::Off
    }
}

/// The events one stored device's resync sends: its unit command per its
/// last-known state, or nothing when its id addresses no unit.
pub open spec fn device_publish_events(d: Device, state: SenderState) -> Seq<LineEvent> {
    match numeric_slot(d.id as int, state) {
        Some(slot) => unit_command_events(slot.0, slot.1, state_mode(d.current_state)),
        None => Seq::empty(),
    }
}

/// The events one resync pass over a device list sends, in list order.
pub open spec fn publish_events(devices: Seq<Device>, state: SenderState) -> Seq<LineEvent>
    decreases devices.len(),
{
    if devices.len() == 0 {
        Seq::empty()
    } else {
        device_publish_events(devices[0], state) + publish_events(devices.skip(1), state)
    }
}

/// The resync events distribute over concatenation of device lists.
pub proof fn lemma_publish_events_concat(a: Seq<Device>, b: Seq<Device>, state: SenderState)
    ensures
        publish_events(a + b, state) == publish_events(a, state) + publish_events(b, state),
    decreases a.len(),
{
    if a.len() == 0 {
        assert(a + b =~= b);
        assert(publish_events(a, state) + publish_events(b, state) =~= publish_events(b, state));
    } else {
        assert((a + b).skip(1) =~= a.skip(1) + b);
        lemma_publish_events_concat(a.skip(1), b, state);
        assert(publish_events(a + b, state) =~= publish_events(a, state) + publish_events(
            b,
            state,
        ));
    }
}

/// One resync pass: every stored device's last-known state re-sent as a
/// unit command, in list order; devices whose id addresses no unit are
/// skipped.
pub fn publish_states(devices: &Vec<Device>, state: &SenderState, line: &mut OutputLine)
    ensures
        final(line)@ == old(line)@ + publish_events(devices@, *state),
{
    let mut i: usize = 0;
    while i < devices.len()
        invariant
            i <= devices@.len(),
            line@ == old(line)@ + publish_events(devices@.subrange(0, i as int), *state),
        decreases devices@.len() - i,
    {
        let device = &devices[i];
        if let Some((sender, number)) = get_device_number_from_numeric_id(device.id, state) {
            if device.current_state {
                sender.turn_device_on(number, line);
            } else {
                sender.turn_device_off(number, line);
            }
        }
        i = i + 1;
        proof {
            assert(devices@.subrange(0, i as int) =~= devices@.subrange(0, i - 1) + seq![
                devices@[i - 1],
            ]);
            lemma_publish_events_concat(devices@.subrange(0, i - 1), seq![devices@[i - 1]], *state);
            assert(seq![devices@[i - 1]].skip(1) =~= Seq::<Device>::empty());
            assert(publish_events(Seq::<Device>::empty(), *state) == Seq::<LineEvent>::empty());
            assert(publish_events(seq![devices@[i - 1]], *state) =~= device_publish_events(
                devices@[i - 1],
                *state,
            ));
            assert(line@ =~= old(line)@ + publish_events(devices@.subrange(0, i as int), *state));
        }
    }
    proof {
        assert(devices@.subrange(0, devices@.len() as int) =~= devices@);
    }
}

/// How a request with an optional delay parameter is carried out.
#[derive(Clone, Copy, Debug, PartialEq, Eq, Structural)]
pub enum RequestPlan {
    /// Apply the requested mode now.
    Immediate,
    /// Schedule an off-command this many seconds from now.  The deferred
    /// command is not cancellable: it races freely against later requests,
    /// and the last command to transmit wins on the wire.
    Deferred { seconds: u64 },
}

/// The plan a delay parameter selects.
pub open spec fn request_plan(delay: Option<u64>) -> RequestPlan {
    match delay {
        Some(x) => if x > 0 {
            RequestPlan::Deferred { seconds: x }
        } else {
            RequestPlan::Immediate
        },
        None => RequestPlan::Immediate,
    }
}

/// Decide how a request is carried out: a positive delay defers an
/// off-command, anything else applies the requested mode now.
pub fn plan_request(delay: Option<u64>) -> (r: RequestPlan)
    ensures
        r == request_plan(delay),
{
    match delay {
        Some(x) => {
            if x > 0 {
                RequestPlan::Deferred { seconds: x }
            } else {
                RequestPlan::Immediate
            }
        },
        None => RequestPlan::Immediate,
    }
}

/// How a store-backed request is carried out.
#[derive(Clone, Copy, Debug, PartialEq, Eq, Structural)]
pub enum PostPlan {
    /// Schedule an off-command this many seconds from now.
    Deferred { seconds: u64 },
    /// Apply this mode now and record it in the store.
    Immediate { mode: DeviceMode },
    /// The requested action is neither "on" nor "off".
    Rejected,
}

/// The plan a store-backed request's mode and delay select.
pub open spec fn post_plan(mode: Seq<char>, delay: Option<u64>) -> PostPlan {
    if delay is Some && delay->Some_0 > 0 {
        PostPlan::Deferred { seconds: delay->Some_0 }
    } else {
        match mode_of(mode) {
            Some(m) => PostPlan::Immediate { mode: m },
            None => PostPlan::Rejected,
        }
    }
}

/// Decide how a store-backed request is carried out: a positive delay
/// defers an off-command; otherwise the mode applies now, and an action
/// that is neither "on" nor "off" is rejected.
pub fn plan_post(mode: &str, delay: Option<u64>) -> (r: PostPlan)
    ensures
        r == post_plan(mode@, delay),
{
    if let Some(x) = delay {
        if x > 0 {
            return PostPlan::Deferred { seconds: x };
        }
    }
    match parse_mode(mode) {
        Some(m) => PostPlan::Immediate { mode: m },
        None => PostPlan::Rejected,
    }
}

/// Parse a requested action: "on" and "off" are the only actions.
pub fn parse_mode(mode: &str) -> (r: Option<DeviceMode>)
    ensures
        r == mode_of(mode@),
{
    proof {
        reveal_strlit("on");
        reveal_strlit("off");
    }
    if str_eq(mode, "on") {
        Some(DeviceMode::On)
    } else if str_eq(mode, "off") {
        Some(DeviceMode::Off)
    } else {
        None
    }
}

} // verus!
