//! Static configuration: which side effects are enabled, the accept delay,
//! and the multi-search provider name.

use vstd::prelude::*;
use vstd::string::StringExecFns;

verus! {

pub struct Config {
    pub auto_open: bool,
    pub auto_accept: bool,
    pub accept_delay: u32,
    pub multi_provider: String,
}

impl Default for Config {
    /// Both side effects on, a two second accept delay, and the default
    /// provider.
    fn default() -> (c: Self)
        ensures
            c.auto_open,
            c.auto_accept,
            c.accept_delay == 2000,
            c.multi_provider@ == "opgg"@,
    {
        Config {
            auto_open: true,
            auto_accept: true,
            accept_delay: 2000,
            multi_provider: String::from_str("opgg"),
        }
    }
}

/// The wait before the accept call, in milliseconds: the configured delay
/// less one second, floored at zero.
pub open spec fn accept_wait(delay: u32) -> u64 {
    if delay >= 1000 {
        (delay - 1000) as u64
    } else {
        0
    }
}

/// Computes the accept wait. A delay under one second gives no wait at
/// all; the subtraction can never wrap below zero.
pub fn accept_wait_ms(delay: u32) -> (r: u64)
    ensures
        r == accept_wait(delay),
{
    (delay as u64).saturating_sub(1000)
}

} // verus!
