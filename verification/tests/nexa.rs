use rf433::line::{LineEvent, OutputLine};
use rf433::nexa::{DeviceMode, DeviceNumber, Nexa};
use rf433::CodecError;

fn trace(line: &OutputLine) -> Vec<(bool, u64)> {
    let mut v: Vec<(bool, u64)> = vec![];
    let mut i = 0;
    while i < line.event_count() {
        let e: LineEvent = line.event_at(i);
        v.push((e.high, e.units));
        i += 1;
    }
    v
}

const SENDER: &str = "11000000000000000000000010";

#[test]
fn new_accepts_valid_sender_id() {
    let nexa = Nexa::new(SENDER).unwrap();
    assert_eq!(nexa.sender_id(), SENDER);
}

#[test]
fn new_rejects_wrong_length() {
    assert!(matches!(Nexa::new(""), Err(CodecError::InvalidSenderId)));
    assert!(matches!(
        Nexa::new("1100000000000000000000001"),
        Err(CodecError::InvalidSenderId)
    ));
    assert!(matches!(
        Nexa::new("110000000000000000000000101"),
        Err(CodecError::InvalidSenderId)
    ));
}

#[test]
fn nexa_new_rejects_bad_symbol() {
    assert!(matches!(
        Nexa::new("1100000000000000000000001x"),
        Err(CodecError::IllegalSymbol)
    ));
}

#[test]
fn code_is_32_symbols() {
    let nexa = Nexa::new(SENDER).unwrap();
    let code = nexa.get_code(false, DeviceNumber::One, DeviceMode::On);
    assert_eq!(code.len(), 32);
    let code = nexa.get_code(true, DeviceNumber::Three, DeviceMode::Off);
    assert_eq!(code.len(), 32);
}

#[test]
fn unit_two_on_code_scenario() {
    // Unit-addressed flag '1', mode-on '0', channel "11", unit two "01".
    let nexa = Nexa::new(SENDER).unwrap();
    let code = nexa.get_code(false, DeviceNumber::Two, DeviceMode::On);
    assert_eq!(code.len(), 32);
    let expected: Vec<char> = SENDER.chars().chain("101101".chars()).collect();
    assert_eq!(code, expected);
}

#[test]
fn group_off_code_scenario() {
    // Group-addressed flag '0', mode-off '1', channel "11", unit one "11".
    let nexa = Nexa::new(SENDER).unwrap();
    let code = nexa.get_code(true, DeviceNumber::One, DeviceMode::Off);
    let expected: Vec<char> = SENDER.chars().chain("011111".chars()).collect();
    assert_eq!(code, expected);
}

#[test]
fn on_and_off_codes_differ_only_in_mode_flag() {
    let nexa = Nexa::new(SENDER).unwrap();
    let on = nexa.get_code(false, DeviceNumber::Two, DeviceMode::On);
    let off = nexa.get_code(false, DeviceNumber::Two, DeviceMode::Off);
    assert_eq!(on.len(), 32);
    assert_eq!(off.len(), 32);
    for i in 0..32 {
        if i == 27 {
            assert_ne!(on[i], off[i]);
        } else {
            assert_eq!(on[i], off[i]);
        }
    }
    assert_eq!(on[27], '0');
    assert_eq!(off[27], '1');
}

#[test]
fn command_is_five_framed_writes() {
    let nexa = Nexa::new(SENDER).unwrap();
    let mut line = OutputLine::new();
    nexa.turn_device_on(DeviceNumber::Two, &mut line);
    let t = trace(&line);
    // One write: sync (2 events) + 32 bits x 2 pulses (128 events) + pause
    // (2 events) = 132 timed levels; the command repeats it five times.
    assert_eq!(t.len(), 5 * 132);
    for k in 0..5 {
        let w = &t[k * 132..(k + 1) * 132];
        assert_eq!(w[0], (true, 1));
        assert_eq!(w[1], (false, 10));
        assert_eq!(w[130], (true, 1));
        assert_eq!(w[131], (false, 40));
        assert_eq!(w, &t[0..132]);
    }
}

#[test]
fn write_expands_bits_to_pulse_pairs() {
    let nexa = Nexa::new(SENDER).unwrap();
    let mut line = OutputLine::new();
    nexa.turn_device_on(DeviceNumber::Two, &mut line);
    let t = trace(&line);
    // The sender id starts "110...": a logical one is a (1,1) pulse then a
    // (1,5) pulse, a logical zero the inverse order.
    assert_eq!(&t[2..6], &[(true, 1), (false, 1), (true, 1), (false, 5)]);
    assert_eq!(&t[6..10], &[(true, 1), (false, 1), (true, 1), (false, 5)]);
    assert_eq!(&t[10..14], &[(true, 1), (false, 5), (true, 1), (false, 1)]);
    // The code ends "...01": bit 31 is a logical one.
    assert_eq!(&t[126..130], &[(true, 1), (false, 1), (true, 1), (false, 5)]);
}

#[test]
fn turn_off_sends_off_code() {
    let nexa = Nexa::new(SENDER).unwrap();
    let mut line = OutputLine::new();
    nexa.turn_device_off(DeviceNumber::Two, &mut line);
    let t = trace(&line);
    assert_eq!(t.len(), 660);
    // Bit 27 is the mode flag: '1' for off, so a logical one waveform.
    let bit27 = &t[(2 + 27 * 4)..(2 + 27 * 4 + 4)];
    assert_eq!(bit27, &[(true, 1), (false, 1), (true, 1), (false, 5)]);
}

#[test]
fn group_commands_use_group_flag() {
    let nexa = Nexa::new(SENDER).unwrap();
    let mut on_line = OutputLine::new();
    nexa.turn_group_on(&mut on_line);
    let t = trace(&on_line);
    assert_eq!(t.len(), 660);
    // Bit 26 is the group flag: '0' when group-addressed, a logical zero.
    let bit26 = &t[(2 + 26 * 4)..(2 + 26 * 4 + 4)];
    assert_eq!(bit26, &[(true, 1), (false, 5), (true, 1), (false, 1)]);

    let mut off_line = OutputLine::new();
    nexa.turn_group_off(&mut off_line);
    assert_eq!(trace(&off_line).len(), 660);
}

#[test]
fn mode_code_chars() {
    assert_eq!(DeviceMode::On.code_char(), '0');
    assert_eq!(DeviceMode::Off.code_char(), '1');
}
