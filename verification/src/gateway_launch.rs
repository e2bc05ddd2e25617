//! Launch parameters of the gateway program.
use vstd::prelude::*;

verus! {

pub struct GatewayLaunchConfig<'a> {
    pub car_identity: &'a str,
    pub print_timer_tick: bool,
    pub can_interface: &'a str,
}

} // verus!
