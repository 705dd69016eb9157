//! The Nexa protocol codec and transmitter.
//!
//! A logical command (sender id, group-or-unit flag, unit index, on/off) is
//! encoded into a 32-symbol logical code: 26 sender bits, one group flag, one
//! mode flag, the fixed channel "11", and a two-bit unit field.  Each logical
//! bit expands to two physical pulses; a write frames the 64 body pulses with
//! a sync pulse and a pause pulse, and every command repeats the same write
//! five times.

use crate::line::{
    lemma_repeated_unfold, lemma_train_events_concat, lemma_train_events_pair,
    lemma_train_events_single, pulse_events, repeated, send_pulse, train_events, OutputLine, Pulse,
};
use crate::CodecError;
use vstd::prelude::*;
use vstd::string::*;

verus! {

/// The three sub-units a Nexa sender can address.
#[derive(Clone, Copy, Debug, PartialEq, Eq, Structural)]
pub enum DeviceNumber {
    One,
    Two,
    Three,
}

/// The requested action: switch a device on or off.
#[derive(Clone, Copy, Debug, PartialEq, Eq, Structural)]
pub enum DeviceMode {
    On,
    Off,
}

/// A symbol of the Nexa code alphabet.
pub open spec fn is_bit_char(c: char) -> bool {
    c == '0' || c == '1'
}

/// A well-formed sender id: exactly 26 bit symbols.
pub open spec fn valid_sender_id(s: Seq<char>) -> bool {
    &&& s.len() == 26
    &&& forall|i: int| 0 <= i < s.len() ==> is_bit_char(#[trigger] s[i])
}

/// The group flag symbol: '0' addresses the whole group, '1' a single unit.
pub open spec fn group_char(whole_group: bool) -> char {
    if whole_group {
        '0'
    } else {
        '1'
    }
}

/// The mode flag symbol: '0' for on, '1' for off.
pub open spec fn mode_char(m: DeviceMode) -> char {
    match m {
        DeviceMode::On => '0',
        DeviceMode::Off => '1',
    }
}

/// The two-symbol unit field of each sub-unit.
pub open spec fn unit_chars(d: DeviceNumber) -> Seq<char> {
    match d {
        DeviceNumber::One => seq!['1', '1'],
        DeviceNumber::Two => seq!['0', '1'],
        DeviceNumber::Three => seq!['1', '0'],
    }
}

/// The 32-symbol logical code of a command: sender id, group flag, mode flag,
/// the fixed channel "11", and the unit field.
pub open spec fn nexa_code(
    sender: Seq<char>,
    whole_group: bool,
    d: DeviceNumber,
    m: DeviceMode,
) -> Seq<char> {
    sender + seq![group_char(whole_group)] + seq![mode_char(m)] + seq!['1', '1'] + unit_chars(d)
}

/// The physical-one pulse: short high, short low.
pub open spec fn nexa_one_pulse() -> Pulse {
    Pulse { high_units: 1, low_units: 1 }
}

/// The physical-zero pulse: short high, long low.
pub open spec fn nexa_zero_pulse() -> Pulse {
    Pulse { high_units: 1, low_units: 5 }
}

/// The sync pulse opening every write.
pub open spec fn nexa_sync_pulse() -> Pulse {
    Pulse { high_units: 1, low_units: 10 }
}

/// The pause pulse closing every write.
pub open spec fn nexa_pause_pulse() -> Pulse {
    Pulse { high_units: 1, low_units: 40 }
}

/// The two physical pulses of one logical bit: a logical zero is
/// physical-zero then physical-one, a logical one the inverse order.
pub open spec fn nexa_bit_train(c: char) -> Seq<Pulse> {
    if c == '0' {
        seq![nexa_zero_pulse(), nexa_one_pulse()]
    } else {
        seq![nexa_one_pulse(), nexa_zero_pulse()]
    }
}

/// The body of a write: every code symbol expanded, in code order.
pub open spec fn nexa_body(code: Seq<char>) -> Seq<Pulse>
    decreases code.len(),
{
    if code.len() == 0 {
        Seq::empty()
    } else {
        nexa_bit_train(code[0]) + nexa_body(code.skip(1))
    }
}

/// One framed write: sync pulse, body, pause pulse.
pub open spec fn nexa_write_train(code: Seq<char>) -> Seq<Pulse> {
    seq![nexa_sync_pulse()] + nexa_body(code) + seq![nexa_pause_pulse()]
}

/// One full command: the same write five times in immediate succession.
pub open spec fn nexa_command_train(code: Seq<char>) -> Seq<Pulse> {
    repeated(nexa_write_train(code), 5)
}

/// The body expansion distributes over concatenation.
pub proof fn lemma_nexa_body_concat(a: Seq<char>, b: Seq<char>)
    ensures
        nexa_body(a + b) == nexa_body(a) + nexa_body(b),
    decreases a.len(),
{
    if a.len() == 0 {
        assert(a + b =~= b);
        assert(nexa_body(a) + nexa_body(b) =~= nexa_body(b));
    } else {
        assert((a + b).skip(1) =~= a.skip(1) + b);
        lemma_nexa_body_concat(a.skip(1), b);
        assert(nexa_body(a + b) =~= nexa_body(a) + nexa_body(b));
    }
}

/// The body has two pulses per code symbol.
pub proof fn lemma_nexa_body_len(code: Seq<char>)
    ensures
        nexa_body(code).len() == 2 * code.len(),
    decreases code.len(),
{
    if code.len() > 0 {
        lemma_nexa_body_len(code.skip(1));
    }
}

/// A command's logical code is 32 symbols of the code alphabet.
pub proof fn lemma_nexa_code_bits(
    sender: Seq<char>,
    whole_group: bool,
    d: DeviceNumber,
    m: DeviceMode,
)
    requires
        valid_sender_id(sender),
    ensures
        nexa_code(sender, whole_group, d, m).len() == 32,
        forall|i: int|
            0 <= i < 32 ==> is_bit_char(#[trigger] nexa_code(sender, whole_group, d, m)[i]),
{
    let code = nexa_code(sender, whole_group, d, m);
    assert forall|i: int| 0 <= i < 32 implies is_bit_char(#[trigger] code[i]) by {
        if i < 26 {
            assert(code[i] == sender[i]);
        }
    }
}

/// A Nexa codec: a validated 26-symbol sender id.  Its view is the sender
/// id's symbol sequence.
pub struct Nexa {
    sender_id: String,
}

impl Clone for Nexa {
    fn clone(&self) -> (r: Self)
        ensures
            r == *self,
    {
        proof {
            use_type_invariant(&*self);
        }
        Nexa { sender_id: self.sender_id.clone() }
    }
}

impl View for Nexa {
    type V = Seq<char>;

    closed spec fn view(&self) -> Seq<char> {
        self.sender_id@
    }
}

impl Nexa {
    #[verifier::type_invariant]
    spec fn wf(&self) -> bool {
        valid_sender_id(self.sender_id@)
    }

    /// Validate a sender id and build the codec.  The id must be exactly 26
    /// symbols, each '0' or '1'.
    pub fn new(sender_id: &str) -> (r: Result<Nexa, CodecError>)
        ensures
            valid_sender_id(sender_id@) ==> (r matches Ok(n) && n@ == sender_id@),
            r matches Ok(n) ==> n@ == sender_id@ && valid_sender_id(n@),
            sender_id@.len() != 26 ==> r == Err::<Nexa, CodecError>(CodecError::InvalidSenderId),
            sender_id@.len() == 26 && !valid_sender_id(sender_id@) ==> r == Err::<
                Nexa,
                CodecError,
            >(CodecError::IllegalSymbol),
    {
        let n = sender_id.unicode_len();
        if n != 26 {
            return Err(CodecError::InvalidSenderId);
        }
        let mut i: usize = 0;
        while i < n
            invariant
                n == 26,
                n == sender_id@.len(),
                i <= n,
                forall|j: int| 0 <= j < i ==> is_bit_char(#[trigger] sender_id@[j]),
            decreases n - i,
        {
            let c = sender_id.get_char(i);
            if c != '0' && c != '1' {
                return Err(CodecError::IllegalSymbol);
            }
            i = i + 1;
        }
        Ok(Nexa { sender_id: sender_id.to_owned() })
    }

    /// The validated sender id.
    pub fn sender_id(&self) -> (r: &str)
        ensures
            r@ == self@,
    {
        self.sender_id.as_str()
    }

    /// Encode a logical command as its 32-symbol logical code.
    pub fn get_code(&self, whole_group: bool, device_no: DeviceNumber, mode: DeviceMode) -> (code:
        Vec<char>)
        ensures
            code@ == nexa_code(self@, whole_group, device_no, mode),
            code@.len() == 32,
    {
        proof {
            use_type_invariant(&*self);
        }
        let mut code: Vec<char> = Vec::new();
        let id = self.sender_id.as_str();
        let n = id.unicode_len();
        let mut i: usize = 0;
        while i < n
            invariant
                n == id@.len(),
                id@ == self@,
                i <= n,
                code@ == self@.subrange(0, i as int),
            decreases n - i,
        {
            code.push(id.get_char(i));
            proof {
                assert(code@ =~= self@.subrange(0, i + 1));
            }
            i = i + 1;
        }
        proof {
            assert(code@ =~= self@);
        }
        if whole_group {
            code.push('0');
        } else {
            code.push('1');
        }
        code.push(mode.code_char());
        code.push('1');
        code.push('1');
        match device_no {
            DeviceNumber::One => {
                code.push('1');
                code.push('1');
            },
            DeviceNumber::Two => {
                code.push('0');
                code.push('1');
            },
            DeviceNumber::Three => {
                code.push('1');
                code.push('0');
            },
        }
        proof {
            use_type_invariant(&*self);
            assert(code@ =~= nexa_code(self@, whole_group, device_no, mode));
        }
        code
    }

    /// Switch one sub-unit on: five writes of the unit-addressed on-code.
    pub fn turn_device_on(&self, device_no: DeviceNumber, line: &mut OutputLine)
        ensures
            final(line)@ == old(line)@ + train_events(
                nexa_command_train(nexa_code(self@, false, device_no, DeviceMode::On)),
            ),
    {
        let code = self.get_code(false, device_no, DeviceMode::On);
        proof {
            use_type_invariant(&*self);
            lemma_nexa_code_bits(self@, false, device_no, DeviceMode::On);
        }
        self.send_command(&code, line);
    }

    /// Switch one sub-unit off: five writes of the unit-addressed off-code.
    pub fn turn_device_off(&self, device_no: DeviceNumber, line: &mut OutputLine)
        ensures
            final(line)@ == old(line)@ + train_events(
                nexa_command_train(nexa_code(self@, false, device_no, DeviceMode::Off)),
            ),
    {
        let code = self.get_code(false, device_no, DeviceMode::Off);
        proof {
            use_type_invariant(&*self);
            lemma_nexa_code_bits(self@, false, device_no, DeviceMode::Off);
        }
        self.send_command(&code, line);
    }

    /// Switch every sub-unit of this sender on: five writes of the
    /// group-addressed on-code.
    pub fn turn_group_on(&self, line: &mut OutputLine)
        ensures
            final(line)@ == old(line)@ + train_events(
                nexa_command_train(nexa_code(self@, true, DeviceNumber::One, DeviceMode::On)),
            ),
    {
        let code = self.get_code(true, DeviceNumber::One, DeviceMode::On);
        proof {
            use_type_invariant(&*self);
            lemma_nexa_code_bits(self@, true, DeviceNumber::One, DeviceMode::On);
        }
        self.send_command(&code, line);
    }

    /// Switch every sub-unit of this sender off: five writes of the
    /// group-addressed off-code.
    pub fn turn_group_off(&self, line: &mut OutputLine)
        ensures
            final(line)@ == old(line)@ + train_events(
                nexa_command_train(nexa_code(self@, true, DeviceNumber::One, DeviceMode::Off)),
            ),
    {
        let code = self.get_code(true, DeviceNumber::One, DeviceMode::Off);
        proof {
            use_type_invariant(&*self);
            lemma_nexa_code_bits(self@, true, DeviceNumber::One, DeviceMode::Off);
        }
        self.send_command(&code, line);
    }

    /// Issue the same write five times in immediate succession.
    fn send_command(&self, code: &Vec<char>, line: &mut OutputLine)
        requires
            code@.len() == 32,
            forall|i: int| 0 <= i < code@.len() ==> is_bit_char(#[trigger] code@[i]),
        ensures
            final(line)@ == old(line)@ + train_events(nexa_command_train(code@)),
    {
        let mut k: usize = 0;
        while k < 5
            invariant
                k <= 5,
                code@.len() == 32,
                forall|i: int| 0 <= i < code@.len() ==> is_bit_char(#[trigger] code@[i]),
                line@ == old(line)@ + train_events(repeated(nexa_write_train(code@), k as nat)),
            decreases 5 - k,
        {
            self.write_code(code, line);
            k = k + 1;
            proof {
                lemma_repeated_unfold(nexa_write_train(code@), k as nat);
                lemma_train_events_concat(
                    repeated(nexa_write_train(code@), (k - 1) as nat),
                    nexa_write_train(code@),
                );
            }
        }
    }

    /// One framed write: sync pulse, the expanded code, pause pulse.
    fn write_code(&self, code: &Vec<char>, line: &mut OutputLine)
        requires
            code@.len() == 32,
            forall|i: int| 0 <= i < code@.len() ==> is_bit_char(#[trigger] code@[i]),
        ensures
            final(line)@ == old(line)@ + train_events(nexa_write_train(code@)),
    {
        self.send_sync(line);
        let mut i: usize = 0;
        while i < code.len()
            invariant
                code@.len() == 32,
                forall|j: int| 0 <= j < code@.len() ==> is_bit_char(#[trigger] code@[j]),
                i <= code@.len(),
                line@ == old(line)@ + pulse_events(nexa_sync_pulse()) + train_events(
                    nexa_body(code@.subrange(0, i as int)),
                ),
            decreases code@.len() - i,
        {
            let c = code[i];
            if c == '0' {
                self.send_zero(line);
            } else {
                self.send_one(line);
            }
            i = i + 1;
            proof {
                assert(code@.subrange(0, i as int) =~= code@.subrange(0, i - 1) + seq![
                    code@[i - 1],
                ]);
                lemma_nexa_body_concat(code@.subrange(0, i - 1), seq![code@[i - 1]]);
                assert(seq![code@[i - 1]].skip(1) =~= Seq::<char>::empty());
                assert(nexa_body(Seq::<char>::empty()) == Seq::<Pulse>::empty());
                assert(nexa_body(seq![code@[i - 1]]) =~= nexa_bit_train(code@[i - 1]));
                lemma_train_events_concat(
                    nexa_body(code@.subrange(0, i - 1)),
                    nexa_bit_train(code@[i - 1]),
                );
            }
        }
        proof {
            assert(code@.subrange(0, code@.len() as int) =~= code@);
        }
        self.send_pause(line);
        proof {
            lemma_train_events_single(nexa_sync_pulse());
            lemma_train_events_single(nexa_pause_pulse());
            lemma_train_events_concat(seq![nexa_sync_pulse()], nexa_body(code@));
            lemma_train_events_concat(
                seq![nexa_sync_pulse()] + nexa_body(code@),
                seq![nexa_pause_pulse()],
            );
            assert(final(line)@ =~= old(line)@ + train_events(nexa_write_train(code@)));
        }
    }

    /// One logical zero: physical zero then physical one.
    fn send_zero(&self, line: &mut OutputLine)
        ensures
            final(line)@ == old(line)@ + train_events(nexa_bit_train('0')),
    {
        self.send_physical_zero(line);
        self.send_physical_one(line);
        proof {
            lemma_train_events_pair(nexa_zero_pulse(), nexa_one_pulse());
            assert(final(line)@ =~= old(line)@ + train_events(nexa_bit_train('0')));
        }
    }

    /// One logical one: physical one then physical zero.
    fn send_one(&self, line: &mut OutputLine)
        ensures
            final(line)@ == old(line)@ + train_events(nexa_bit_train('1')),
    {
        self.send_physical_one(line);
        self.send_physical_zero(line);
        proof {
            lemma_train_events_pair(nexa_one_pulse(), nexa_zero_pulse());
            assert(final(line)@ =~= old(line)@ + train_events(nexa_bit_train('1')));
        }
    }

    /// One physical one: high and low one unit each.
    fn send_physical_one(&self, line: &mut OutputLine)
        ensures
            final(line)@ == old(line)@ + pulse_events(nexa_one_pulse()),
    {
        send_pulse(line, Pulse { high_units: 1, low_units: 1 });
    }

    /// One physical zero: high one unit, low five units.
    fn send_physical_zero(&self, line: &mut OutputLine)
        ensures
            final(line)@ == old(line)@ + pulse_events(nexa_zero_pulse()),
    {
        send_pulse(line, Pulse { high_units: 1, low_units: 5 });
    }

    /// The sync pulse: high one unit, low ten units.
    fn send_sync(&self, line: &mut OutputLine)
        ensures
            final(line)@ == old(line)@ + pulse_events(nexa_sync_pulse()),
    {
        send_pulse(line, Pulse { high_units: 1, low_units: 10 });
    }

    /// The pause pulse: high one unit, low forty units.
    fn send_pause(&self, line: &mut OutputLine)
        ensures
            final(line)@ == old(line)@ + pulse_events(nexa_pause_pulse()),
    {
        send_pulse(line, Pulse { high_units: 1, low_units: 40 });
    }
}

impl DeviceMode {
    /// The mode flag symbol of this mode.
    pub fn code_char(&self) -> (c: char)
        ensures
            c == mode_char(*self),
    {
        match *self {
            DeviceMode::On => '0',
            DeviceMode::Off => '1',
        }
    }
}

/// For every valid sender id and command, the logical code has exactly 32
/// symbols, and a write's event stream is exactly the sync pulse's 2 timed
/// levels, then the 64 body pulses (32 code symbols, 2 pulses each), then
/// the pause pulse's 2 timed levels — 66 pulses, 132 timed levels in all —
/// and the command is five such writes.
pub proof fn lemma_nexa_write_shape(
    sender: Seq<char>,
    whole_group: bool,
    d: DeviceNumber,
    m: DeviceMode,
)
    requires
        valid_sender_id(sender),
    ensures
        nexa_code(sender, whole_group, d, m).len() == 32,
        train_events(nexa_write_train(nexa_code(sender, whole_group, d, m))) == pulse_events(
            nexa_sync_pulse(),
        ) + train_events(nexa_body(nexa_code(sender, whole_group, d, m))) + pulse_events(
            nexa_pause_pulse(),
        ),
        pulse_events(nexa_sync_pulse()).len() == 2,
        nexa_body(nexa_code(sender, whole_group, d, m)).len() == 64,
        pulse_events(nexa_pause_pulse()).len() == 2,
        nexa_write_train(nexa_code(sender, whole_group, d, m)).len() == 66,
        nexa_write_train(nexa_code(sender, whole_group, d, m))[0] == nexa_sync_pulse(),
        nexa_write_train(nexa_code(sender, whole_group, d, m))[65] == nexa_pause_pulse(),
        train_events(nexa_write_train(nexa_code(sender, whole_group, d, m))).len() == 132,
        nexa_command_train(nexa_code(sender, whole_group, d, m)).len() == 5 * 66,
        train_events(nexa_command_train(nexa_code(sender, whole_group, d, m))).len() == 5 * 132,
{
    let code = nexa_code(sender, whole_group, d, m);
    lemma_nexa_body_len(code);
    lemma_train_events_single(nexa_sync_pulse());
    lemma_train_events_single(nexa_pause_pulse());
    lemma_train_events_concat(seq![nexa_sync_pulse()], nexa_body(code));
    lemma_train_events_concat(seq![nexa_sync_pulse()] + nexa_body(code), seq![nexa_pause_pulse()]);
    crate::line::lemma_train_events_len(nexa_write_train(code));
    crate::line::lemma_repeated_len(nexa_write_train(code), 5);
    crate::line::lemma_train_events_len(nexa_command_train(code));
}

/// The unit-addressed on-code and off-code of the same sender and unit agree
/// everywhere except the mode flag, where they differ.
pub proof fn lemma_on_off_differ_in_mode_bit(sender: Seq<char>, d: DeviceNumber)
    requires
        valid_sender_id(sender),
    ensures
        nexa_code(sender, false, d, DeviceMode::On).len() == 32,
        nexa_code(sender, false, d, DeviceMode::Off).len() == 32,
        nexa_code(sender, false, d, DeviceMode::On)[27] != nexa_code(
            sender,
            false,
            d,
            DeviceMode::Off,
        )[27],
        forall|i: int|
            0 <= i < 32 && i != 27 ==> nexa_code(sender, false, d, DeviceMode::On)[i] == nexa_code(
                sender,
                false,
                d,
                DeviceMode::Off,
            )[i],
{
    let on = nexa_code(sender, false, d, DeviceMode::On);
    let off = nexa_code(sender, false, d, DeviceMode::Off);
    assert forall|i: int| 0 <= i < 32 && i != 27 implies on[i] == off[i] by {
        if i < 26 {
            assert(on[i] == sender[i] && off[i] == sender[i]);
        }
    }
}

} // verus!
