//! The shared output line and the pulse sequencer.
//!
//! The line records every level it is driven through as a `(level, duration)`
//! event; durations are small integer multiples of the protocol base unit.
//! A `Pulse` — a high phase followed by a low phase — is the only shape the
//! protocol encoders ever write.  Exclusive access for a whole transmission
//! is what `&mut OutputLine` grants: a command appends its entire pulse train
//! in one call, so traces of separate commands never interleave.

use vstd::prelude::*;

verus! {

/// The base timing unit, in microseconds, that all pulse durations multiply.
pub const PULSE_LENGTH: u64 = 250;

/// One recorded event: the line held high or low for `units` base units.
#[derive(Clone, Copy, Debug, PartialEq, Eq, Structural)]
pub struct LineEvent {
    pub high: bool,
    pub units: u64,
}

/// A pulse: the line high for `high_units` base units, then low for
/// `low_units` base units.
#[derive(Clone, Copy, Debug, PartialEq, Eq, Structural)]
pub struct Pulse {
    pub high_units: u64,
    pub low_units: u64,
}

/// The two events a single pulse drives the line through.
pub open spec fn pulse_events(p: Pulse) -> Seq<LineEvent> {
    seq![
        LineEvent { high: true, units: p.high_units },
        LineEvent { high: false, units: p.low_units },
    ]
}

/// The event sequence of a whole pulse train.
pub open spec fn train_events(train: Seq<Pulse>) -> Seq<LineEvent>
    decreases train.len(),
{
    if train.len() == 0 {
        Seq::empty()
    } else {
        pulse_events(train[0]) + train_events(train.skip(1))
    }
}

/// `train` repeated `n` times, back to back.
pub open spec fn repeated(train: Seq<Pulse>, n: nat) -> Seq<Pulse>
    decreases n,
{
    if n == 0 {
        Seq::empty()
    } else {
        repeated(train, (n - 1) as nat) + train
    }
}

/// The single shared output line, modelled as the trace of every timed level
/// it has been driven through since construction.
pub struct OutputLine {
    trace: Vec<LineEvent>,
}

impl View for OutputLine {
    type V = Seq<LineEvent>;

    closed spec fn view(&self) -> Seq<LineEvent> {
        self.trace@
    }
}

impl OutputLine {
    /// A fresh line with an empty trace.
    pub fn new() -> (r: OutputLine)
        ensures
            r@ == Seq::<LineEvent>::empty(),
    {
        OutputLine { trace: Vec::new() }
    }

    /// Drive the line high for `units` base units.
    pub fn pulse_high(&mut self, units: u64)
        ensures
            final(self)@ == old(self)@.push(LineEvent { high: true, units }),
    {
        self.trace.push(LineEvent { high: true, units });
    }

    /// Drive the line low for `units` base units.
    pub fn pulse_low(&mut self, units: u64)
        ensures
            final(self)@ == old(self)@.push(LineEvent { high: false, units }),
    {
        self.trace.push(LineEvent { high: false, units });
    }

    /// Keep the line low for `units` base units; recorded like a driven low
    /// phase, since the level on the wire is the same.
    pub fn hold_low(&mut self, units: u64)
        ensures
            final(self)@ == old(self)@.push(LineEvent { high: false, units }),
    {
        self.trace.push(LineEvent { high: false, units });
    }

    /// How many events the trace holds.
    pub fn event_count(&self) -> (n: usize)
        ensures
            n == self@.len(),
    {
        self.trace.len()
    }

    /// The event at position `i` of the trace.
    pub fn event_at(&self, i: usize) -> (e: LineEvent)
        requires
            i < self@.len(),
        ensures
            e == self@[i as int],
    {
        self.trace[i]
    }
}

/// Drive the line through one pulse: high, then low.
pub fn send_pulse(line: &mut OutputLine, p: Pulse)
    ensures
        final(line)@ == old(line)@ + pulse_events(p),
{
    line.pulse_high(p.high_units);
    line.pulse_low(p.low_units);
    proof {
        assert(final(line)@ =~= old(line)@ + pulse_events(p));
    }
}

/// `train_events` distributes over concatenation.
pub proof fn lemma_train_events_concat(a: Seq<Pulse>, b: Seq<Pulse>)
    ensures
        train_events(a + b) == train_events(a) + train_events(b),
    decreases a.len(),
{
    if a.len() == 0 {
        assert(a + b =~= b);
        assert(train_events(a) + train_events(b) =~= train_events(b));
    } else {
        assert((a + b).skip(1) =~= a.skip(1) + b);
        lemma_train_events_concat(a.skip(1), b);
        assert(train_events(a + b) =~= train_events(a) + train_events(b));
    }
}

/// The events of a one-pulse train are that pulse's events.
pub proof fn lemma_train_events_single(p: Pulse)
    ensures
        train_events(seq![p]) == pulse_events(p),
{
    assert(seq![p].skip(1) =~= Seq::<Pulse>::empty());
    assert(train_events(Seq::<Pulse>::empty()) == Seq::<LineEvent>::empty());
    assert(train_events(seq![p]) =~= pulse_events(p));
}

/// The events of a two-pulse train are the two pulses' events in order.
pub proof fn lemma_train_events_pair(p: Pulse, q: Pulse)
    ensures
        train_events(seq![p, q]) == pulse_events(p) + pulse_events(q),
{
    assert(seq![p, q].skip(1) =~= seq![q]);
    lemma_train_events_single(q);
    assert(train_events(seq![p, q]) =~= pulse_events(p) + pulse_events(q));
}

/// Unfolding one repetition from the end.
pub proof fn lemma_repeated_unfold(train: Seq<Pulse>, n: nat)
    requires
        n > 0,
    ensures
        repeated(train, n) == repeated(train, (n - 1) as nat) + train,
{
}

/// A repeated train has `n` times the pulses of the train.
pub proof fn lemma_repeated_len(train: Seq<Pulse>, n: nat)
    ensures
        repeated(train, n).len() == n * train.len(),
    decreases n,
{
    if n > 0 {
        lemma_repeated_len(train, (n - 1) as nat);
        assert((n - 1) * train.len() + train.len() == n * train.len()) by (nonlinear_arith)
            requires
                n > 0,
        ;
    } else {
        assert(n * train.len() == 0) by (nonlinear_arith)
            requires
                n == 0,
        ;
    }
}

/// A train of `k` pulses drives the line through `2 * k` events.
pub proof fn lemma_train_events_len(train: Seq<Pulse>)
    ensures
        train_events(train).len() == 2 * train.len(),
    decreases train.len(),
{
    if train.len() > 0 {
        lemma_train_events_len(train.skip(1));
    }
}

/// Transmissions serialize: when one command appends its whole event train
/// `a` and a second then appends its train `b`, the two trains stand as
/// contiguous, non-overlapping blocks of the final trace, in order, and
/// nothing else was added.
pub proof fn lemma_transmissions_serialize(t0: Seq<LineEvent>, a: Seq<LineEvent>, b: Seq<LineEvent>)
    ensures
        (t0 + a + b).len() == t0.len() + a.len() + b.len(),
        (t0 + a + b).subrange(t0.len() as int, (t0.len() + a.len()) as int) == a,
        (t0 + a + b).subrange((t0.len() + a.len()) as int, (t0.len() + a.len() + b.len()) as int)
            == b,
{
    assert((t0 + a + b).subrange(t0.len() as int, (t0.len() + a.len()) as int) =~= a);
    assert((t0 + a + b).subrange(
        (t0.len() + a.len()) as int,
        (t0.len() + a.len() + b.len()) as int,
    ) =~= b);
}

} // verus!
