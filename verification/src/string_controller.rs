//! LED string controller: latch drivers and the four-phase sequencer.
//!
//! Each LED string is driven by the Q output of a bistable D latch with
//! four control lines: an active-low preset (forces Q high), an active-low
//! clear (forces Q low), a data input, and a clock whose rising edge
//! latches the data input into Q.  [`FlipFlop`] wraps the four lines and
//! models the resulting Q level.
//!
//! [`StringController`] holds one latch driver per string and a four-valued
//! cyclic state; each tick of an external periodic timer advances the state
//! one phase and pulses the relevant driver, producing the alternating
//! red/green pattern.

use vstd::prelude::*;

use crate::line::InputLine;
use crate::line::OutputLine;

verus! {

/// Abstract state of one latch driver.
///
/// The four booleans are the driven levels of the control lines; `q` is
/// the latch's output: `Some(level)` once the output is determined,
/// `None` while it is not established (unknown at hand-over, or
/// implementation-defined while both asynchronous controls are asserted).
pub struct FlipFlopState {
    /// Level of the active-low preset line.
    pub pre_n: bool,
    /// Level of the active-low clear line.
    pub clr_n: bool,
    /// Level of the data line.
    pub data: bool,
    /// Level of the clock line.
    pub clk: bool,
    /// The latched output level, where determined.
    pub q: Option<bool>,
}

/// Both asynchronous controls are released, so the latch is in normal
/// clocked operation and holds its output.
pub open spec fn released(s: FlipFlopState) -> bool {
    s.pre_n && s.clr_n
}

/// Output forced by the asynchronous controls at hand-over: preset alone
/// asserted forces Q high, clear alone forces Q low.  With both released
/// the previously latched level is unknown, and with both asserted the
/// chip's behaviour is implementation-defined; either way the output is
/// not determined until a clock pulse establishes it.
pub open spec fn initial_q(pre_n: bool, clr_n: bool) -> Option<bool> {
    if !pre_n && clr_n {
        Some(true)
    } else if pre_n && !clr_n {
        Some(false)
    } else {
        None
    }
}

/// Effect of clocking `data_level` into a released latch: the data line is
/// driven to the level, the clock is pulsed high then low, and Q latches
/// the level on the rising edge.
pub open spec fn spec_clock(s: FlipFlopState, data_level: bool) -> FlipFlopState {
    FlipFlopState { data: data_level, clk: false, q: Some(data_level), ..s }
}

/// Driver for one bistable latch, wrapping its four control lines.
///
/// The core owns the lines exclusively, so the Q output is a function of
/// the pulses the driver has issued; the driver tracks it alongside the
/// line levels.  There is no read-back from the latch.
pub struct FlipFlop {
    /// Active-low preset line (forces Q high while low).
    fpre_n: OutputLine,
    /// Active-low clear line (forces Q low while low).
    fclr_n: OutputLine,
    /// Data line (level to be clocked into Q).
    fdata: OutputLine,
    /// Clock line (rising edge latches data into Q).
    fclk: OutputLine,
    /// The latch's output level, where determined.
    q: Option<bool>,
}

impl View for FlipFlop {
    type V = FlipFlopState;

    closed spec fn view(&self) -> FlipFlopState {
        FlipFlopState {
            pre_n: self.fpre_n.is_high(),
            clr_n: self.fclr_n.is_high(),
            data: self.fdata.is_high(),
            clk: self.fclk.is_high(),
            q: self.q,
        }
    }
}

impl FlipFlop {
    /// Takes ownership of the four control lines in whatever levels the
    /// embedding layer configured, deriving the output the asynchronous
    /// controls force, if any.
    pub fn new(
        fpre_n: OutputLine,
        fclr_n: OutputLine,
        fdata: OutputLine,
        fclk: OutputLine,
    ) -> (flop: FlipFlop)
        ensures
            flop@ == (FlipFlopState {
                pre_n: fpre_n.is_high(),
                clr_n: fclr_n.is_high(),
                data: fdata.is_high(),
                clk: fclk.is_high(),
                q: initial_q(fpre_n.is_high(), fclr_n.is_high()),
            }),
    {
        let q: Option<bool> = if !fpre_n.is_set_high() && fclr_n.is_set_high() {
            Some(true)
        } else if fpre_n.is_set_high() && !fclr_n.is_set_high() {
            Some(false)
        } else {
            None
        };
        FlipFlop { fpre_n, fclr_n, fdata, fclk, q }
    }

    /// Releases both asynchronous controls, allowing normal clocked
    /// operation.  The latch keeps whatever output it holds; an output the
    /// controls had forced stays latched.  Must run before the first clock
    /// pulse.
    pub fn release_reset(&mut self)
        ensures
            final(self)@ == (FlipFlopState { pre_n: true, clr_n: true, ..old(self)@ }),
            released(final(self)@),
    {
        self.fclr_n.set_high();
        self.fpre_n.set_high();
    }

    /// Clocks the latch output high: data high, then a clock pulse.  Turns
    /// the LED string on.
    pub fn clock_q_high(&mut self)
        requires
            released(old(self)@),
        ensures
            final(self)@ == spec_clock(old(self)@, true),
    {
        self.fdata.set_high();
        self.fclk.set_high();
        self.q = Some(true);
        self.fclk.set_low();
    }

    /// Clocks the latch output low: data low, then a clock pulse.  Turns
    /// the LED string off.
    pub fn clock_q_low(&mut self)
        requires
            released(old(self)@),
        ensures
            final(self)@ == spec_clock(old(self)@, false),
    {
        self.fdata.set_low();
        self.fclk.set_high();
        self.q = Some(false);
        self.fclk.set_low();
    }

    /// Whether the latch output is determined and high (the LED string is
    /// on).
    pub fn q_is_high(&self) -> (high: bool)
        ensures
            high == (self@.q == Some(true)),
    {
        match self.q {
            Some(level) => level,
            None => false,
        }
    }

    /// The latch's output level, where determined.
    pub fn q_level(&self) -> (q: Option<bool>)
        ensures
            q == self@.q,
    {
        self.q
    }

    /// Whether both asynchronous controls are released.
    pub fn is_released(&self) -> (r: bool)
        ensures
            r == released(self@),
    {
        self.fpre_n.is_set_high() && self.fclr_n.is_set_high()
    }
}

/// Phase of the alternating LED pattern, in strict cyclic order
/// `GreenOff → Red → RedOff → Green → GreenOff → …`.
#[derive(Clone, Copy, PartialEq, Eq, Structural, Debug)]
pub enum ActiveString {
    /// Both strings off, about to turn red on.
    GreenOff,
    /// The red string is lit.
    Red,
    /// Both strings off, about to turn green on.
    RedOff,
    /// The green string is lit.
    Green,
}

/// The phase following `phase` in the cycle.
pub open spec fn next_string(phase: ActiveString) -> ActiveString {
    match phase {
        ActiveString::GreenOff => ActiveString::Red,
        ActiveString::Red => ActiveString::RedOff,
        ActiveString::RedOff => ActiveString::Green,
        ActiveString::Green => ActiveString::GreenOff,
    }
}

/// Abstract state of the sequencer: both latch drivers and the current
/// phase.
pub struct StringState {
    /// State of the red string's latch driver.
    pub red: FlipFlopState,
    /// State of the green string's latch driver.
    pub green: FlipFlopState,
    /// Current phase of the pattern.
    pub active: ActiveString,
}

/// Both latch drivers are released, so a tick may clock them.
pub open spec fn ready(s: StringState) -> bool {
    released(s.red) && released(s.green)
}

/// A latch driver directly after a reset: released, data and clock low,
/// output established low.
pub open spec fn reset_flop() -> FlipFlopState {
    FlipFlopState { pre_n: true, clr_n: true, data: false, clk: false, q: Some(false) }
}

/// The sequencer's state after a reset, the same whatever it held before:
/// both outputs established low and the phase at the start of the cycle.
pub open spec fn spec_reset(s: StringState) -> StringState {
    StringState { red: reset_flop(), green: reset_flop(), active: ActiveString::GreenOff }
}

/// Effect of one tick: one phase step, clocking the relevant latch.
pub open spec fn spec_advance(s: StringState) -> StringState {
    match s.active {
        ActiveString::GreenOff => StringState {
            red: spec_clock(s.red, true),
            active: ActiveString::Red,
            ..s
        },
        ActiveString::Red => StringState {
            red: spec_clock(s.red, false),
            active: ActiveString::RedOff,
            ..s
        },
        ActiveString::RedOff => StringState {
            green: spec_clock(s.green, true),
            active: ActiveString::Green,
            ..s
        },
        ActiveString::Green => StringState {
            green: spec_clock(s.green, false),
            active: ActiveString::GreenOff,
            ..s
        },
    }
}

/// Controller alternating the two LED strings.
///
/// Owns the two latch drivers and the two reserved feedback sense inputs;
/// the external periodic tick calls `activate_next_string`.
pub struct StringController {
    /// Latch driver of the red string.
    red_flop: FlipFlop,
    /// Latch driver of the green string.
    green_flop: FlipFlop,
    /// Feedback sense input from the red string, reserved and unread.
    _red_string: InputLine,
    /// Feedback sense input from the green string, reserved and unread.
    _green_string: InputLine,
    /// Current phase of the pattern.
    active_string: ActiveString,
}

impl View for StringController {
    type V = StringState;

    closed spec fn view(&self) -> StringState {
        StringState {
            red: self.red_flop@,
            green: self.green_flop@,
            active: self.active_string,
        }
    }
}

impl StringController {
    /// Takes ownership of the two latch drivers and the two reserved sense
    /// inputs.  The pattern starts at the beginning of the cycle; `reset`
    /// brings the latches to the matching state.
    pub fn new(
        red_flop: FlipFlop,
        green_flop: FlipFlop,
        red_string: InputLine,
        green_string: InputLine,
    ) -> (ctrl: StringController)
        ensures
            ctrl@ == (StringState {
                red: red_flop@,
                green: green_flop@,
                active: ActiveString::GreenOff,
            }),
    {
        StringController {
            red_flop,
            green_flop,
            _red_string: red_string,
            _green_string: green_string,
            active_string: ActiveString::GreenOff,
        }
    }

    /// Brings both strings to the initial state: releases the asynchronous
    /// controls, clocks both outputs low, and restarts the cycle.  Safe to
    /// call at any time, and from any prior state the outcome is the same:
    /// both outputs low, phase at the start of the cycle.
    pub fn reset(&mut self)
        ensures
            final(self)@ == spec_reset(old(self)@),
            ready(final(self)@),
    {
        self.red_flop.release_reset();
        self.green_flop.release_reset();

        self.red_flop.clock_q_low();
        self.green_flop.clock_q_low();

        self.active_string = ActiveString::GreenOff;
    }

    /// Advances the pattern one phase, clocking the relevant latch: red on,
    /// red off, green on, green off, cyclically.  To be called once per
    /// tick of the external periodic timer, after `reset` has run.
    pub fn activate_next_string(&mut self)
        requires
            ready(old(self)@),
        ensures
            final(self)@ == spec_advance(old(self)@),
            ready(final(self)@),
    {
        self.active_string = match self.active_string {
            ActiveString::GreenOff => {
                self.red_flop.clock_q_high();
                ActiveString::Red
            },
            ActiveString::Red => {
                self.red_flop.clock_q_low();
                ActiveString::RedOff
            },
            ActiveString::RedOff => {
                self.green_flop.clock_q_high();
                ActiveString::Green
            },
            ActiveString::Green => {
                self.green_flop.clock_q_low();
                ActiveString::GreenOff
            },
        };
    }

    /// The current phase of the pattern.
    pub fn active(&self) -> (phase: ActiveString)
        ensures
            phase == self@.active,
    {
        self.active_string
    }

    /// Whether the red string is lit.
    pub fn red_is_on(&self) -> (on: bool)
        ensures
            on == (self@.red.q == Some(true)),
    {
        self.red_flop.q_is_high()
    }

    /// Whether the green string is lit.
    pub fn green_is_on(&self) -> (on: bool)
        ensures
            on == (self@.green.q == Some(true)),
    {
        self.green_flop.q_is_high()
    }

    /// Whether both latch drivers are released, as `reset` leaves them —
    /// the condition `activate_next_string` needs.
    pub fn is_ready(&self) -> (r: bool)
        ensures
            r == ready(self@),
    {
        self.red_flop.is_released() && self.green_flop.is_released()
    }
}

/// A reset is idempotent: resetting twice in a row leaves exactly the
/// outward state a single reset leaves.
pub proof fn lemma_reset_idempotent(s: StringState)
    ensures
        spec_reset(spec_reset(s)) == spec_reset(s),
{
}

/// The sequencer's state after `n` ticks from `s`.
pub open spec fn advance_n(s: StringState, n: nat) -> StringState
    decreases n,
{
    if n == 0 {
        s
    } else {
        spec_advance(advance_n(s, (n - 1) as nat))
    }
}

/// The phase at position `k` of the fixed cycle.
pub open spec fn cycle_phase(k: int) -> ActiveString {
    if k == 0 {
        ActiveString::GreenOff
    } else if k == 1 {
        ActiveString::Red
    } else if k == 2 {
        ActiveString::RedOff
    } else {
        ActiveString::Green
    }
}

/// The tick sequence is a fixed four-phase cycle: after `n` ticks from a
/// reset, whatever the state before the reset, the phase is position
/// `n mod 4` of the cycle — after 1 tick red is lit, after 4 the cycle is
/// back at its start, after 100 likewise.
pub proof fn lemma_advance_cycle(s: StringState, n: nat)
    ensures
        advance_n(spec_reset(s), n).active == cycle_phase(n as int % 4),
    decreases n,
{
    if n > 0 {
        lemma_advance_cycle(s, (n - 1) as nat);
    }
}

/// Ticks keep both latch drivers released: a sequencer that is ready stays
/// ready, so any number of ticks may follow a reset.
pub proof fn lemma_advance_preserves_ready(s: StringState)
    requires
        ready(s),
    ensures
        ready(spec_advance(s)),
{
}

/// The string levels a phase determines: exactly the red string is lit in
/// the red phase, exactly the green string in the green phase, neither in
/// the two off phases.
pub open spec fn leds_match_phase(s: StringState) -> bool {
    match s.active {
        ActiveString::GreenOff => s.red.q == Some(false) && s.green.q == Some(false),
        ActiveString::Red => s.red.q == Some(true) && s.green.q == Some(false),
        ActiveString::RedOff => s.red.q == Some(false) && s.green.q == Some(false),
        ActiveString::Green => s.red.q == Some(false) && s.green.q == Some(true),
    }
}

/// The output trace is determined by the phase alone: a reset establishes
/// the phase–output correspondence and every tick preserves it, so the
/// ticks after a reset reproduce the same string levels every time,
/// whatever the state before the reset.
pub proof fn lemma_outputs_follow_phase(s: StringState)
    ensures
        leds_match_phase(spec_reset(s)),
        leds_match_phase(s) ==> leds_match_phase(spec_advance(s)),
{
}

} // verus!
