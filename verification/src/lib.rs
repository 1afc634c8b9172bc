//! Brightness control for external monitors over DDC/CI.
//!
//! The library holds the decision logic of the control engine: building
//! monitor records from what the transport reports, validating and scaling a
//! brightness percentage, and selecting the one monitor a write applies to.
//! The hardware transport itself (enumerating displays, reading and writing
//! VCP features) is I/O and lives outside the library; callers hand its
//! results in as plain values.

use vstd::prelude::*;

pub mod digits;
pub mod monitor;

pub use monitor::MonitorInfo;
pub use monitor::collect_monitors;
pub use monitor::set_brightness;

verus! {

/// Scale a brightness percentage to a raw VCP value: the greatest raw value
/// not above `maximum * percent / 100`, i.e. the exact product truncated
/// toward zero.
pub fn scale_brightness(maximum: u16, percent: u16) -> (r: u16)
    requires
        percent <= 100,
    ensures
        r as int == (maximum as int * percent as int) / 100,
{
    proof {
        assert(maximum as int * percent as int <= 65535 * 100) by (nonlinear_arith)
            requires
                maximum <= 65535 && percent <= 100,
        ;
        assert(maximum as int * percent as int >= 0) by (nonlinear_arith)
            requires
                maximum >= 0 && percent >= 0,
        ;
        assert((maximum as int * percent as int) / 100 <= 65535) by (nonlinear_arith)
            requires
                0 <= maximum as int * percent as int <= 65535 * 100,
        ;
    }
    ((maximum as u32 * percent as u32) / 100) as u16
}

} // verus!
