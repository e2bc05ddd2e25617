//! Consistency rules between reported FSM state and [`VehicleContext`].
use crate::fsm::{FsmState, VehicleContext};
use vstd::prelude::*;

verus! {

/// Stall level: a driving vehicle must turn faster than this.
pub const RPM_STALL_THRESHOLD: u16 = 500;

/// The decimal digit character of `d` (below 10).
pub open spec fn digit_char(d: nat) -> char {
    seq!['0', '1', '2', '3', '4', '5', '6', '7', '8', '9'][d as int]
}

/// Decimal notation of a natural number, most significant digit first, no leading zeros.
pub open spec fn decimal(n: nat) -> Seq<char>
    decreases n,
{
    if n < 10 {
        seq![digit_char(n % 10)]
    } else {
        decimal(n / 10).push(digit_char(n % 10))
    }
}

/// Decimal notation of a byte is its one, two or three digits, most significant
/// first, each digit `d` written as the character with code `48 + d`.
pub proof fn law_decimal_digits(n: u8)
    ensures
        n < 10 ==> decimal(n as nat) == seq![digit_char(n as nat)],
        10 <= n < 100 ==> decimal(n as nat) == seq![
            digit_char((n / 10) as nat),
            digit_char((n % 10) as nat),
        ],
        n >= 100 ==> decimal(n as nat) == seq![
            digit_char((n / 100) as nat),
            digit_char(((n / 10) % 10) as nat),
            digit_char((n % 10) as nat),
        ],
        forall|d: nat| d < 10 ==> #[trigger] digit_char(d) as u32 == 48 + d,
{
    let m = n as nat;
    if m >= 100 {
        assert(decimal(m / 100) == seq![digit_char(m / 100)]);
        assert(decimal(m / 10) == decimal(m / 100).push(digit_char((m / 10) % 10)));
        assert(decimal(m) =~= seq![
            digit_char(m / 100),
            digit_char((m / 10) % 10),
            digit_char(m % 10),
        ]);
    } else if m >= 10 {
        assert(decimal(m / 10) == seq![digit_char(m / 10)]);
        assert(decimal(m) =~= seq![digit_char(m / 10), digit_char(m % 10)]);
    }
    assert forall|d: nat| d < 10 implies #[trigger] digit_char(d) as u32 == 48 + d by {
        let digits = seq!['0', '1', '2', '3', '4', '5', '6', '7', '8', '9'];
        assert(digit_char(d) == digits[d as int]);
    }
}

/// Kinetic locking: a vehicle that is off must not be moving.
pub open spec fn kinetic_locking_holds(state: FsmState, ctx: VehicleContext) -> bool {
    !(state == FsmState::Off && ctx.speed > 0)
}

/// Engine logic: driving implies RPM at or above the stall level.
pub open spec fn rpm_above_threshold_holds(state: FsmState, ctx: VehicleContext) -> bool {
    !(state == FsmState::Driving && ctx.rpm < RPM_STALL_THRESHOLD)
}

pub open spec fn kinetic_breach_message(speed: u8) -> Seq<char> {
    "Safety Breach: Car is Off but moving at "@ + decimal(speed as nat) + " km/h"@
}

pub open spec fn stall_breach_message() -> Seq<char> {
    "Logic Breach: State is Driving but RPM is below stall levels"@
}

/// The one-character string of a decimal digit.
fn digit_str(d: u8) -> (r: &'static str)
    requires
        d < 10,
    ensures
        r@ == seq![digit_char(d as nat)],
{
    proof {
        reveal_strlit("0");
        reveal_strlit("1");
        reveal_strlit("2");
        reveal_strlit("3");
        reveal_strlit("4");
        reveal_strlit("5");
        reveal_strlit("6");
        reveal_strlit("7");
        reveal_strlit("8");
        reveal_strlit("9");
    }
    match d {
        0 => "0",
        1 => "1",
        2 => "2",
        3 => "3",
        4 => "4",
        5 => "5",
        6 => "6",
        7 => "7",
        8 => "8",
        _ => "9",
    }
}

/// Decimal notation of a byte.
fn decimal_string(n: u8) -> (r: String)
    ensures
        r@ == decimal(n as nat),
{
    let mut r = String::new();
    if n >= 100 {
        r.append(digit_str(n / 100));
    }
    if n >= 10 {
        r.append(digit_str((n / 10) % 10));
    }
    r.append(digit_str(n % 10));
    proof {
        let m = n as nat;
        if m >= 100 {
            assert(decimal(m / 100) == seq![digit_char(m / 100)]);
            assert(decimal(m / 10) == decimal(m / 100).push(digit_char((m / 10) % 10)));
        } else if m >= 10 {
            assert(decimal(m / 10) == seq![digit_char(m / 10)]);
        }
        assert(r@ =~= decimal(m));
    }
    r
}

/// The kinetic-locking breach report for a vehicle moving at `speed` km/h.
fn format_kinetic_breach(speed: u8) -> (r: String)
    ensures
        r@ == kinetic_breach_message(speed),
{
    let mut r = "Safety Breach: Car is Off but moving at ".to_owned();
    let digits = decimal_string(speed);
    r.append(digits.as_str());
    r.append(" km/h");
    r
}

/// 1. Kinetic locking: must not report motion while logically off.
pub fn law_kinetic_locking_holds(state: &FsmState, ctx: &VehicleContext) -> (r: Result<(), String>)
    ensures
        r is Ok <==> kinetic_locking_holds(*state, *ctx),
        r matches Err(m) ==> m@ == kinetic_breach_message(ctx.speed),
{
    if *state == FsmState::Off && ctx.speed > 0 {
        return Err(format_kinetic_breach(ctx.speed));
    }
    Ok(())
}

/// 2. Engine logic: driving implies RPM above stall threshold.
pub fn law_rpm_above_threshold_holds(state: &FsmState, ctx: &VehicleContext) -> (r: Result<
    (),
    String,
>)
    ensures
        r is Ok <==> rpm_above_threshold_holds(*state, *ctx),
        r matches Err(m) ==> m@ == stall_breach_message(),
{
    if *state == FsmState::Driving && ctx.rpm < RPM_STALL_THRESHOLD {
        return Err("Logic Breach: State is Driving but RPM is below stall levels".to_owned());
    }
    Ok(())
}

} // verus!
