//! The Rollo protocol codec and transmitter.
//!
//! A roller-shutter command is a fixed per-device sender code followed by a
//! three-symbol direction suffix.  Each symbol of the alphabet {'0', '1',
//! 'F', 'Q'} expands to two physical pulses; a write opens with a long sync
//! waveform and has no framing between symbols.  Every command repeats the
//! write six times, then keeps the line low for one further base unit.

use crate::line::{
    lemma_repeated_unfold, lemma_train_events_concat, lemma_train_events_pair, pulse_events,
    repeated, send_pulse, train_events, LineEvent, OutputLine, Pulse,
};
use crate::{str_eq, CodecError};
use vstd::prelude::*;
use vstd::string::*;

verus! {

/// The three directions a roller shutter understands.
#[allow(non_camel_case_types)]
#[derive(Clone, Copy, Debug, PartialEq, Eq, Structural)]
pub enum Direction {
    UP,
    PAUSE,
    DOWN,
}

/// A symbol of the Rollo code alphabet.
pub open spec fn is_rollo_symbol(c: char) -> bool {
    c == '0' || c == '1' || c == 'F' || c == 'Q'
}

/// A well-formed sender code: every symbol in the alphabet.
pub open spec fn valid_rollo_code(s: Seq<char>) -> bool {
    forall|i: int| 0 <= i < s.len() ==> is_rollo_symbol(#[trigger] s[i])
}

/// The three-symbol suffix of each direction.
pub open spec fn direction_suffix(d: Direction) -> Seq<char> {
    match d {
        Direction::UP => seq!['F', '0', 'F'],
        Direction::PAUSE => seq!['F', 'F', 'F'],
        Direction::DOWN => seq!['1', '0', '1'],
    }
}

/// Decode a suffix back to its direction by table lookup.
pub open spec fn direction_of_suffix(s: Seq<char>) -> Option<Direction> {
    if s == seq!['F', '0', 'F'] {
        Some(Direction::UP)
    } else if s == seq!['F', 'F', 'F'] {
        Some(Direction::PAUSE)
    } else if s == seq!['1', '0', '1'] {
        Some(Direction::DOWN)
    } else {
        None
    }
}

/// The short-high pulse: one unit high, three units low.
pub open spec fn rollo_short_pulse() -> Pulse {
    Pulse { high_units: 1, low_units: 3 }
}

/// The long-high pulse: three units high, one unit low.
pub open spec fn rollo_long_pulse() -> Pulse {
    Pulse { high_units: 3, low_units: 1 }
}

/// The sync waveform opening every write.
pub open spec fn rollo_sync_pulse() -> Pulse {
    Pulse { high_units: 18, low_units: 6 }
}

/// The two physical pulses of one symbol.
pub open spec fn symbol_train(c: char) -> Seq<Pulse> {
    if c == '0' {
        seq![rollo_short_pulse(), rollo_short_pulse()]
    } else if c == '1' {
        seq![rollo_long_pulse(), rollo_long_pulse()]
    } else if c == 'F' {
        seq![rollo_short_pulse(), rollo_long_pulse()]
    } else {
        seq![rollo_long_pulse(), rollo_short_pulse()]
    }
}

/// The body of a write: every symbol expanded, in order.
pub open spec fn rollo_body(code: Seq<char>) -> Seq<Pulse>
    decreases code.len(),
{
    if code.len() == 0 {
        Seq::empty()
    } else {
        symbol_train(code[0]) + rollo_body(code.skip(1))
    }
}

/// One write: the sync waveform, then sender code and suffix symbol by
/// symbol with no framing in between.
pub open spec fn rollo_write_train(code: Seq<char>) -> Seq<Pulse> {
    seq![rollo_sync_pulse()] + rollo_body(code)
}

/// One full command: the same write six times, then the line kept low for
/// one further base unit.
pub open spec fn rollo_command_events(code: Seq<char>, d: Direction) -> Seq<LineEvent> {
    train_events(repeated(rollo_write_train(code + direction_suffix(d)), 6)) + seq![
        LineEvent { high: false, units: 1 },
    ]
}

/// The body expansion distributes over concatenation.
pub proof fn lemma_rollo_body_concat(a: Seq<char>, b: Seq<char>)
    ensures
        rollo_body(a + b) == rollo_body(a) + rollo_body(b),
    decreases a.len(),
{
    if a.len() == 0 {
        assert(a + b =~= b);
        assert(rollo_body(a) + rollo_body(b) =~= rollo_body(b));
    } else {
        assert((a + b).skip(1) =~= a.skip(1) + b);
        lemma_rollo_body_concat(a.skip(1), b);
        assert(rollo_body(a + b) =~= rollo_body(a) + rollo_body(b));
    }
}

/// The body has two pulses per symbol.
pub proof fn lemma_rollo_body_len(code: Seq<char>)
    ensures
        rollo_body(code).len() == 2 * code.len(),
    decreases code.len(),
{
    if code.len() > 0 {
        lemma_rollo_body_len(code.skip(1));
    }
}

/// For every sender code and direction, a write is one sync waveform and two
/// pulses per symbol of code plus suffix, and the command is six such writes
/// followed by the single trailing low unit.
pub proof fn lemma_rollo_command_shape(code: Seq<char>, d: Direction)
    ensures
        direction_suffix(d).len() == 3,
        rollo_write_train(code + direction_suffix(d)).len() == 1 + 2 * (code.len() + 3),
        rollo_command_events(code, d).len() == 6 * (2 + 4 * (code.len() + 3)) + 1,
{
    let full = code + direction_suffix(d);
    match d {
        Direction::UP => {},
        Direction::PAUSE => {},
        Direction::DOWN => {},
    }
    lemma_rollo_body_len(full);
    crate::line::lemma_repeated_len(rollo_write_train(full), 6);
    crate::line::lemma_train_events_len(repeated(rollo_write_train(full), 6));
}

/// A pulse with high and low phases exchanged.
pub open spec fn inverse_pulse(p: Pulse) -> Pulse {
    Pulse { high_units: p.low_units, low_units: p.high_units }
}

/// A train with every pulse's phases exchanged.
pub open spec fn inverse_train(s: Seq<Pulse>) -> Seq<Pulse> {
    s.map_values(|p: Pulse| inverse_pulse(p))
}

/// The '0' and '1' waveforms are phase-inverses of each other, and so are
/// the 'F' and 'Q' waveforms.
pub proof fn lemma_symbol_waveform_inverses()
    ensures
        symbol_train('1') == inverse_train(symbol_train('0')),
        symbol_train('0') == inverse_train(symbol_train('1')),
        symbol_train('Q') == inverse_train(symbol_train('F')),
        symbol_train('F') == inverse_train(symbol_train('Q')),
{
    assert(symbol_train('1') =~= inverse_train(symbol_train('0')));
    assert(symbol_train('0') =~= inverse_train(symbol_train('1')));
    assert(symbol_train('Q') =~= inverse_train(symbol_train('F')));
    assert(symbol_train('F') =~= inverse_train(symbol_train('Q')));
}

/// Every direction's suffix is one of exactly {"F0F", "FFF", "101"}, and
/// decoding the suffix by table lookup returns the direction it encodes.
pub proof fn lemma_direction_suffix_round_trip()
    ensures
        forall|d: Direction| #![trigger direction_suffix(d)]
            direction_suffix(d) == seq!['F', '0', 'F'] || direction_suffix(d) == seq![
                'F',
                'F',
                'F',
            ] || direction_suffix(d) == seq!['1', '0', '1'],
        forall|d: Direction| direction_of_suffix(#[trigger] direction_suffix(d)) == Some(d),
{
    assert forall|d: Direction| direction_of_suffix(#[trigger] direction_suffix(d)) == Some(d) by {
        match d {
            Direction::UP => {
                assert(direction_of_suffix(direction_suffix(Direction::UP)) == Some(
                    Direction::UP,
                ));
            },
            Direction::PAUSE => {
                assert(seq!['F', 'F', 'F'][1] == 'F' && seq!['F', '0', 'F'][1] == '0');
                assert(direction_of_suffix(direction_suffix(Direction::PAUSE)) == Some(
                    Direction::PAUSE,
                ));
            },
            Direction::DOWN => {
                assert(seq!['1', '0', '1'][0] == '1' && seq!['F', '0', 'F'][0] == 'F');
                assert(seq!['1', '0', '1'][1] == '0' && seq!['F', 'F', 'F'][1] == 'F');
                assert(direction_of_suffix(direction_suffix(Direction::DOWN)) == Some(
                    Direction::DOWN,
                ));
            },
        }
    }
}

/// The direction suffix as a string.
pub fn suffix_str(direction: Direction) -> (s: &'static str)
    ensures
        s@ == direction_suffix(direction),
{
    match direction {
        Direction::UP => {
            let s = "F0F";
            proof {
                reveal_strlit("F0F");
                assert(s@ =~= direction_suffix(Direction::UP));
            }
            s
        },
        Direction::PAUSE => {
            let s = "FFF";
            proof {
                reveal_strlit("FFF");
                assert(s@ =~= direction_suffix(Direction::PAUSE));
            }
            s
        },
        Direction::DOWN => {
            let s = "101";
            proof {
                reveal_strlit("101");
                assert(s@ =~= direction_suffix(Direction::DOWN));
            }
            s
        },
    }
}

/// Decode a suffix string back to its direction by table lookup.
pub fn direction_from_suffix(s: &str) -> (r: Option<Direction>)
    ensures
        r == direction_of_suffix(s@),
{
    proof {
        reveal_strlit("F0F");
        reveal_strlit("FFF");
        reveal_strlit("101");
        assert("F0F"@ =~= seq!['F', '0', 'F']);
        assert("FFF"@ =~= seq!['F', 'F', 'F']);
        assert("101"@ =~= seq!['1', '0', '1']);
    }
    if str_eq(s, "F0F") {
        Some(Direction::UP)
    } else if str_eq(s, "FFF") {
        Some(Direction::PAUSE)
    } else if str_eq(s, "101") {
        Some(Direction::DOWN)
    } else {
        None
    }
}

/// A Rollo codec: a validated sender code over the alphabet {'0', '1', 'F',
/// 'Q'}.  Its view is the sender code's symbol sequence.
pub struct Rollo {
    code: String,
}

impl Clone for Rollo {
    fn clone(&self) -> (r: Self)
        ensures
            r == *self,
    {
        proof {
            use_type_invariant(&*self);
        }
        Rollo { code: self.code.clone() }
    }
}

impl View for Rollo {
    type V = Seq<char>;

    closed spec fn view(&self) -> Seq<char> {
        self.code@
    }
}

impl Rollo {
    #[verifier::type_invariant]
    spec fn wf(&self) -> bool {
        valid_rollo_code(self.code@)
    }

    /// Validate a sender code and build the codec.  Every symbol must be one
    /// of '0', '1', 'F', 'Q'.
    pub fn new(code: &str) -> (r: Result<Rollo, CodecError>)
        ensures
            valid_rollo_code(code@) ==> (r matches Ok(c) && c@ == code@),
            r matches Ok(c) ==> c@ == code@ && valid_rollo_code(c@),
            !valid_rollo_code(code@) ==> r == Err::<Rollo, CodecError>(CodecError::IllegalSymbol),
    {
        let n = code.unicode_len();
        let mut i: usize = 0;
        while i < n
            invariant
                n == code@.len(),
                i <= n,
                forall|j: int| 0 <= j < i ==> is_rollo_symbol(#[trigger] code@[j]),
            decreases n - i,
        {
            let c = code.get_char(i);
            if c != '0' && c != '1' && c != 'F' && c != 'Q' {
                return Err(CodecError::IllegalSymbol);
            }
            i = i + 1;
        }
        Ok(Rollo { code: code.to_owned() })
    }

    /// The validated sender code.
    pub fn code(&self) -> (r: &str)
        ensures
            r@ == self@,
    {
        self.code.as_str()
    }

    /// Send one command: six identical writes of sender code plus direction
    /// suffix, then one trailing base unit with the line low.
    pub fn send(&self, direction: Direction, line: &mut OutputLine)
        ensures
            final(line)@ == old(line)@ + rollo_command_events(self@, direction),
    {
        proof {
            use_type_invariant(&*self);
        }
        let suffix = suffix_str(direction);
        proof {
            assert forall|i: int|
                0 <= i < (self@ + direction_suffix(direction)).len() implies is_rollo_symbol(
                #[trigger] (self@ + direction_suffix(direction))[i],
            ) by {
                let s = self@ + direction_suffix(direction);
                if i >= self@.len() {
                    match direction {
                        Direction::UP => {},
                        Direction::PAUSE => {},
                        Direction::DOWN => {},
                    }
                }
            }
        }
        let ghost full = self@ + direction_suffix(direction);
        let mut k: usize = 0;
        while k < 6
            invariant
                k <= 6,
                full == self@ + direction_suffix(direction),
                valid_rollo_code(self@),
                valid_rollo_code(full),
                suffix@ == direction_suffix(direction),
                line@ == old(line)@ + train_events(repeated(rollo_write_train(full), k as nat)),
            decreases 6 - k,
        {
            self.send_sync(line);
            self.write_symbols(self.code.as_str(), line);
            self.write_symbols(suffix, line);
            k = k + 1;
            proof {
                lemma_rollo_body_concat(self@, direction_suffix(direction));
                lemma_train_events_concat(seq![rollo_sync_pulse()], rollo_body(full));
                crate::line::lemma_train_events_single(rollo_sync_pulse());
                lemma_train_events_concat(rollo_body(self@), rollo_body(direction_suffix(direction)));
                lemma_repeated_unfold(rollo_write_train(full), k as nat);
                lemma_train_events_concat(
                    repeated(rollo_write_train(full), (k - 1) as nat),
                    rollo_write_train(full),
                );
                assert(line@ =~= old(line)@ + train_events(
                    repeated(rollo_write_train(full), k as nat),
                ));
            }
        }
        line.hold_low(1);
        proof {
            assert(final(line)@ =~= old(line)@ + rollo_command_events(self@, direction));
        }
    }

    /// Expand a symbol string onto the line, symbol by symbol.
    fn write_symbols(&self, s: &str, line: &mut OutputLine)
        requires
            valid_rollo_code(s@),
        ensures
            final(line)@ == old(line)@ + train_events(rollo_body(s@)),
    {
        let n = s.unicode_len();
        let mut i: usize = 0;
        while i < n
            invariant
                n == s@.len(),
                valid_rollo_code(s@),
                i <= n,
                line@ == old(line)@ + train_events(rollo_body(s@.subrange(0, i as int))),
            decreases n - i,
        {
            let c = s.get_char(i);
            if c == '0' {
                self.send_t0(line);
            } else if c == '1' {
                self.send_t1(line);
            } else if c == 'F' {
                self.send_tf(line);
            } else {
                self.send_qq(line);
            }
            i = i + 1;
            proof {
                assert(s@.subrange(0, i as int) =~= s@.subrange(0, i - 1) + seq![s@[i - 1]]);
                lemma_rollo_body_concat(s@.subrange(0, i - 1), seq![s@[i - 1]]);
                assert(seq![s@[i - 1]].skip(1) =~= Seq::<char>::empty());
                assert(rollo_body(Seq::<char>::empty()) == Seq::<Pulse>::empty());
                assert(rollo_body(seq![s@[i - 1]]) =~= symbol_train(s@[i - 1]));
                lemma_train_events_concat(
                    rollo_body(s@.subrange(0, i - 1)),
                    symbol_train(s@[i - 1]),
                );
            }
        }
        proof {
            assert(s@.subrange(0, s@.len() as int) =~= s@);
        }
    }

    /// The '0' waveform: two short-high pulses.
    fn send_t0(&self, line: &mut OutputLine)
        ensures
            final(line)@ == old(line)@ + train_events(symbol_train('0')),
    {
        self.transmit(1, 3, line);
        self.transmit(1, 3, line);
        proof {
            lemma_train_events_pair(rollo_short_pulse(), rollo_short_pulse());
            assert(final(line)@ =~= old(line)@ + train_events(symbol_train('0')));
        }
    }

    /// The '1' waveform: two long-high pulses.
    fn send_t1(&self, line: &mut OutputLine)
        ensures
            final(line)@ == old(line)@ + train_events(symbol_train('1')),
    {
        self.transmit(3, 1, line);
        self.transmit(3, 1, line);
        proof {
            lemma_train_events_pair(rollo_long_pulse(), rollo_long_pulse());
            assert(final(line)@ =~= old(line)@ + train_events(symbol_train('1')));
        }
    }

    /// The 'F' waveform: short-high then long-high.
    fn send_tf(&self, line: &mut OutputLine)
        ensures
            final(line)@ == old(line)@ + train_events(symbol_train('F')),
    {
        self.transmit(1, 3, line);
        self.transmit(3, 1, line);
        proof {
            lemma_train_events_pair(rollo_short_pulse(), rollo_long_pulse());
            assert(final(line)@ =~= old(line)@ + train_events(symbol_train('F')));
        }
    }

    /// The 'Q' waveform: long-high then short-high.
    fn send_qq(&self, line: &mut OutputLine)
        ensures
            final(line)@ == old(line)@ + train_events(symbol_train('Q')),
    {
        self.transmit(3, 1, line);
        self.transmit(1, 3, line);
        proof {
            lemma_train_events_pair(rollo_long_pulse(), rollo_short_pulse());
            assert(final(line)@ =~= old(line)@ + train_events(symbol_train('Q')));
        }
    }

    /// The sync waveform.
    fn send_sync(&self, line: &mut OutputLine)
        ensures
            final(line)@ == old(line)@ + pulse_events(rollo_sync_pulse()),
    {
        self.transmit(18, 6, line);
    }

    /// Drive the line through one pulse of the given phase lengths.
    fn transmit(&self, high_units: u64, low_units: u64, line: &mut OutputLine)
        ensures
            final(line)@ == old(line)@ + pulse_events(Pulse { high_units, low_units }),
    {
        send_pulse(line, Pulse { high_units, low_units });
    }
}

} // verus!
