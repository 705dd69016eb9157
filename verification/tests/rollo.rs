use rf433::line::{LineEvent, OutputLine};
use rf433::rollo::{direction_from_suffix, suffix_str, Direction, Rollo};
use rf433::CodecError;

fn trace(line: &OutputLine) -> Vec<(bool, u64)> {
    let mut v: Vec<(bool, u64)> = vec![];
    let mut i = 0;
    while i < line.event_count() {
        let e: LineEvent = line.event_at(i);
        v.push((e.high, e.units));
        i += 1;
    }
    v
}

#[test]
fn direction_suffixes_are_the_fixed_three() {
    assert_eq!(suffix_str(Direction::UP), "F0F");
    assert_eq!(suffix_str(Direction::PAUSE), "FFF");
    assert_eq!(suffix_str(Direction::DOWN), "101");
}

#[test]
fn suffix_round_trips_to_direction() {
    assert!(matches!(
        direction_from_suffix(suffix_str(Direction::UP)),
        Some(Direction::UP)
    ));
    assert!(matches!(
        direction_from_suffix(suffix_str(Direction::PAUSE)),
        Some(Direction::PAUSE)
    ));
    assert!(matches!(
        direction_from_suffix(suffix_str(Direction::DOWN)),
        Some(Direction::DOWN)
    ));
    assert!(direction_from_suffix("10F").is_none());
    assert!(direction_from_suffix("").is_none());
}

#[test]
fn rollo_new_rejects_bad_symbol() {
    assert!(matches!(Rollo::new("10x"), Err(CodecError::IllegalSymbol)));
    assert!(matches!(Rollo::new("2"), Err(CodecError::IllegalSymbol)));
}

#[test]
fn new_keeps_the_code() {
    let rollo = Rollo::new("10F1Q0").unwrap();
    assert_eq!(rollo.code(), "10F1Q0");
}

#[test]
fn down_command_scenario() {
    // Direction DOWN appends suffix "101"; its first symbol '1' expands to
    // the waveform (3,1)(3,1).
    let rollo = Rollo::new("").unwrap();
    let mut line = OutputLine::new();
    rollo.send(Direction::DOWN, &mut line);
    let t = trace(&line);
    // One write: sync (2 events) + 3 suffix symbols x 2 pulses (12 events);
    // six writes, then one trailing base unit with the line low.
    assert_eq!(t.len(), 6 * 14 + 1);
    for k in 0..6 {
        let w = &t[k * 14..(k + 1) * 14];
        assert_eq!(w[0], (true, 18));
        assert_eq!(w[1], (false, 6));
        // '1' -> (3,1)(3,1)
        assert_eq!(&w[2..6], &[(true, 3), (false, 1), (true, 3), (false, 1)]);
        // '0' -> (1,3)(1,3)
        assert_eq!(&w[6..10], &[(true, 1), (false, 3), (true, 1), (false, 3)]);
        // '1' -> (3,1)(3,1)
        assert_eq!(&w[10..14], &[(true, 3), (false, 1), (true, 3), (false, 1)]);
    }
    assert_eq!(t[6 * 14], (false, 1));
}

#[test]
fn symbol_waveforms_are_pairwise_inverses() {
    // '0' and '1' expand to phase-inverse waveforms, and so do 'F' and 'Q'.
    let pairs = [("0", "1"), ("F", "Q")];
    for (a, b) in pairs {
        let mut la = OutputLine::new();
        let mut lb = OutputLine::new();
        Rollo::new(a).unwrap().send(Direction::PAUSE, &mut la);
        Rollo::new(b).unwrap().send(Direction::PAUSE, &mut lb);
        let ta = trace(&la);
        let tb = trace(&lb);
        // The first write's symbol waveform sits after the 2 sync events:
        // 2 pulses = 4 events.  High phases of one match low phases of the
        // other, pulse by pulse.
        for p in 0..2 {
            let (ha, la_units) = (ta[2 + 2 * p].1, ta[2 + 2 * p + 1].1);
            let (hb, lb_units) = (tb[2 + 2 * p].1, tb[2 + 2 * p + 1].1);
            assert_eq!(ha, lb_units);
            assert_eq!(la_units, hb);
        }
    }
}

#[test]
fn up_command_uses_f0f() {
    let rollo = Rollo::new("Q").unwrap();
    let mut line = OutputLine::new();
    rollo.send(Direction::UP, &mut line);
    let t = trace(&line);
    // One write: sync (2 events) + 4 symbols x 2 pulses (16 events); six
    // writes, then the trailing low unit.
    assert_eq!(t.len(), 6 * 18 + 1);
    // 'Q' -> (3,1)(1,3)
    assert_eq!(&t[2..6], &[(true, 3), (false, 1), (true, 1), (false, 3)]);
    // 'F' -> (1,3)(3,1)
    assert_eq!(&t[6..10], &[(true, 1), (false, 3), (true, 3), (false, 1)]);
}
