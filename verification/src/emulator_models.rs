//! Integer part of the emulator's RPM model: which target phase an epoch falls in.
use vstd::prelude::*;

verus! {

/// The RPM target alternates between a high and a low phase, each
/// `target_flip_period_secs` long, starting with the high phase at epoch 0.
pub open spec fn high_target_phase(epoch_secs: u64, target_flip_period_secs: u64) -> bool {
    (epoch_secs / target_flip_period_secs) % 2 == 0
}

/// Whether the RPM model targets its high RPM at `epoch_secs`.
pub fn target_phase_is_high(epoch_secs: u64, target_flip_period_secs: u64) -> (r: bool)
    requires
        target_flip_period_secs > 0,
    ensures
        r == high_target_phase(epoch_secs, target_flip_period_secs),
{
    (epoch_secs / target_flip_period_secs) % 2 == 0
}

/// The target phase flips every period: one period later, the other phase applies.
pub proof fn law_phase_alternates(epoch_secs: u64, target_flip_period_secs: u64)
    requires
        target_flip_period_secs > 0,
        epoch_secs + target_flip_period_secs <= u64::MAX,
    ensures
        high_target_phase((epoch_secs + target_flip_period_secs) as u64, target_flip_period_secs)
            == !high_target_phase(epoch_secs, target_flip_period_secs),
{
    let e = epoch_secs as int;
    let p = target_flip_period_secs as int;
    assert((e + p) / p == e / p + 1) by (nonlinear_arith)
        requires
            p > 0,
            e >= 0,
    {
        vstd::arithmetic::div_mod::lemma_div_plus_one(e, p);
    }
}

} // verus!
