use vstd::prelude::*;
use crate::message::{InputMessage, FULL_SCALE};
use crate::vehicle::{scale_axis, scaled, HandlerError, InputMessageHandler};

verus! {

/// Share of the commanded value that the right track of the Pi tank gets
/// (0.99).
pub const PI_TANK_RIGHT_SCALE: i32 = 9900;

/// Takes the left and right throttle of a differential drive.
/// Implementations keep the throttle pairs taken so far.
pub trait StringFormatHandler {
    /// Left and right throttle pairs taken so far, oldest first.
    closed spec fn throttles_taken(&self) -> Seq<(i32, i32)> {
        arbitrary()
    }

    fn set_throttles(&mut self, throttle_left: i32, throttle_right: i32) -> (r: Result<
        (),
        HandlerError,
    >)
        ensures
            r is Ok ==> final(self).throttles_taken() == old(self).throttles_taken().push(
                (throttle_left, throttle_right),
            ),
    ;
}

/// A differential-drive tank whose throttles go out as text.
pub struct StringFormatTank<H: StringFormatHandler> {
    pub swap_throttles: bool,
    pub string_format_handler: H,
    /// The commands actuated so far.
    pub actuated: Ghost<Seq<InputMessage>>,
}

/// Left and right throttle of a command, swapped when asked.
pub open spec fn throttles_spec(swap: bool, m: InputMessage) -> (i32, i32) {
    if swap {
        (m.throttle_right, m.throttle_left)
    } else {
        (m.throttle_left, m.throttle_right)
    }
}

impl<H: StringFormatHandler> StringFormatTank<H> {
    pub fn new(swap_throttles: bool, string_format_handler: H) -> (r: Self)
        ensures
            r.swap_throttles == swap_throttles,
            r.string_format_handler == string_format_handler,
            r.actuated@ == Seq::<InputMessage>::empty(),
    {
        StringFormatTank { swap_throttles, string_format_handler, actuated: Ghost(Seq::empty()) }
    }

    /// The left and right throttle handed on for a command.
    pub fn throttles(&self, input_message: &InputMessage) -> (r: (i32, i32))
        ensures
            r == throttles_spec(self.swap_throttles, *input_message),
    {
        if self.swap_throttles {
            (input_message.throttle_right, input_message.throttle_left)
        } else {
            (input_message.throttle_left, input_message.throttle_right)
        }
    }
}

impl<H: StringFormatHandler> InputMessageHandler for StringFormatTank<H> {
    open spec fn received(&self) -> Seq<InputMessage> {
        self.actuated@
    }

    /// Hands the throttles that `throttles` gives to the handler.
    fn handle_input_message(&mut self, input_message: InputMessage) -> (r: Result<(), HandlerError>)
        ensures
            final(self).swap_throttles == old(self).swap_throttles,
            r is Ok ==> final(self).string_format_handler.throttles_taken()
                == old(self).string_format_handler.throttles_taken().push(
                throttles_spec(old(self).swap_throttles, input_message),
            ),
    {
        let (throttle_left, throttle_right) = self.throttles(&input_message);
        self.string_format_handler.set_throttles(throttle_left, throttle_right)?;
        self.actuated = Ghost(self.actuated@.push(input_message));
        Ok(())
    }
}

/// ASCII digit of `d` in `0..10`.
pub open spec fn digit(d: int) -> u8 {
    (48 + d) as u8
}

/// Decimal digits of `n`, most significant first, without leading zeros.
pub open spec fn decimal(n: nat) -> Seq<u8>
    decreases n,
{
    if n < 10 {
        seq![digit(n as int)]
    } else {
        decimal(n / 10).push(digit((n % 10) as int))
    }
}

/// Four decimal digits of `n` in `0..10000`, zero-padded.
pub open spec fn fraction(n: int) -> Seq<u8> {
    seq![digit(n / 1000), digit(n / 100 % 10), digit(n / 10 % 10), digit(n % 10)]
}

/// Number of decimals written per value on the serial line.
pub const LINE_DECIMALS: usize = 20;

/// `n` ASCII zeros.
pub open spec fn zeros(n: nat) -> Seq<u8> {
    Seq::new(n, |i: int| 48u8)
}

/// An axis value as text with `LINE_DECIMALS` decimals: the four digits
/// the fixed-point value holds, then zeros (`-0.50000000000000000000`).
pub open spec fn fixed_text(v: int) -> Seq<u8> {
    let m = if v < 0 { -v } else { v };
    let sign: Seq<u8> = if v < 0 { seq![45u8] } else { seq![] };
    sign + decimal((m / FULL_SCALE as int) as nat) + seq![46u8] + fraction(m % FULL_SCALE as int)
        + zeros((LINE_DECIMALS - 4) as nat)
}

/// The serial line for a pair of throttles: `<left>,<right>` and CRLF.
pub open spec fn throttles_line_spec(left: int, right: int) -> Seq<u8> {
    fixed_text(left) + seq![44u8] + fixed_text(right) + seq![13u8, 10u8]
}

fn push_decimal(n: u32, out: &mut Vec<u8>)
    ensures
        final(out)@ == old(out)@ + decimal(n as nat),
    decreases n,
{
    if n >= 10 {
        push_decimal(n / 10, out);
    }
    out.push(48u8 + (n % 10) as u8);
    assert(n >= 10 ==> decimal(n as nat) == decimal((n / 10) as nat).push(digit((n % 10) as int)));
}

fn push_fixed(v: i32, out: &mut Vec<u8>)
    ensures
        final(out)@ == old(out)@ + fixed_text(v as int),
{
    let ghost start = out@;
    let m: u32 = if v < 0 { (-(v as i64)) as u32 } else { v as u32 };
    if v < 0 {
        out.push(45u8);
    }
    push_decimal(m / (FULL_SCALE as u32), out);
    out.push(46u8);
    let f: u32 = m % (FULL_SCALE as u32);
    out.push(48u8 + (f / 1000) as u8);
    out.push(48u8 + (f / 100 % 10) as u8);
    out.push(48u8 + (f / 10 % 10) as u8);
    out.push(48u8 + (f % 10) as u8);
    let ghost digits = out@;
    let pad: usize = LINE_DECIMALS - 4;
    let mut k: usize = 0;
    while k < pad
        invariant
            k <= pad,
            pad == LINE_DECIMALS - 4,
            out@ == digits + zeros(k as nat),
        decreases pad - k,
    {
        out.push(48u8);
        k = k + 1;
        assert(out@ =~= digits + zeros(k as nat));
    }
    assert(digits =~= start + (if v < 0 { seq![45u8] } else { Seq::<u8>::empty() }) + decimal(
        (m / 10000) as nat,
    ) + seq![46u8] + fraction((m % 10000) as int));
    assert(out@ =~= start + fixed_text(v as int));
}

/// The serial line for a pair of throttles: each with `LINE_DECIMALS`
/// decimals, separated by a comma, ended by CRLF.
pub fn throttles_line(throttle_left: i32, throttle_right: i32) -> (r: Vec<u8>)
    ensures
        r@ == throttles_line_spec(throttle_left as int, throttle_right as int),
{
    let mut out: Vec<u8> = Vec::new();
    push_fixed(throttle_left, &mut out);
    out.push(44u8);
    push_fixed(throttle_right, &mut out);
    out.push(13u8);
    out.push(10u8);
    assert(out@ =~= throttles_line_spec(throttle_left as int, throttle_right as int));
    out
}

/// The serial line sent to the Pi tank's motor controller: the right
/// throttle is scaled by `PI_TANK_RIGHT_SCALE`.
pub fn pi_tank_line(throttle_left: i32, throttle_right: i32) -> (r: Vec<u8>)
    ensures
        r@ == throttles_line_spec(
            throttle_left as int,
            scaled(throttle_right as int, PI_TANK_RIGHT_SCALE as int),
        ),
{
    throttles_line(throttle_left, scale_axis(throttle_right, PI_TANK_RIGHT_SCALE))
}

} // verus!
