//! Flash wait-state lookup: how many extra cycles an instruction fetch needs
//! at a given system-clock frequency and supply voltage. Programming fewer
//! wait states than the table demands risks corrupted fetches at speed.

use vstd::prelude::*;

verus! {

/// Supply-voltage band, the second key of the wait-state table.
#[derive(Clone, Copy, Debug, PartialEq, Eq, Structural)]
pub enum VoltageRange {
    /// 2.7 V to 3.6 V
    V2p7To3p6,
    /// 2.4 V to 2.7 V
    V2p4To2p7,
    /// 2.1 V to 2.4 V
    V2p1To2p4,
    /// 1.71 V to 2.1 V
    V1p71To2p1,
}

/// Minimum number of flash wait states required at `freq_hz` in the given
/// voltage band, per the device's wait-state table (valid up to 84 MHz).
pub open spec fn min_wait_states(freq_hz: nat, v: VoltageRange) -> nat {
    match v {
        VoltageRange::V2p7To3p6 => {
            if freq_hz <= 30_000_000 {
                0
            } else if freq_hz <= 60_000_000 {
                1
            } else {
                2
            }
        },
        VoltageRange::V2p4To2p7 => {
            if freq_hz <= 24_000_000 {
                0
            } else if freq_hz <= 48_000_000 {
                1
            } else if freq_hz <= 72_000_000 {
                2
            } else {
                3
            }
        },
        VoltageRange::V2p1To2p4 => {
            if freq_hz <= 18_000_000 {
                0
            } else if freq_hz <= 36_000_000 {
                1
            } else if freq_hz <= 54_000_000 {
                2
            } else if freq_hz <= 72_000_000 {
                3
            } else {
                4
            }
        },
        VoltageRange::V1p71To2p1 => {
            if freq_hz <= 16_000_000 {
                0
            } else if freq_hz <= 32_000_000 {
                1
            } else if freq_hz <= 48_000_000 {
                2
            } else if freq_hz <= 64_000_000 {
                3
            } else if freq_hz <= 80_000_000 {
                4
            } else {
                5
            }
        },
    }
}

/// Wait-state count to program for `freq_hz` in voltage band `v`: exactly the
/// table minimum, so in particular never fewer wait states than required.
pub fn required_wait_states(freq_hz: u32, v: VoltageRange) -> (ws: u8)
    requires
        freq_hz <= 84_000_000,
    ensures
        ws == min_wait_states(freq_hz as nat, v),
        ws >= min_wait_states(freq_hz as nat, v),
{
    match v {
        VoltageRange::V2p7To3p6 => {
            if freq_hz <= 30_000_000 {
                0
            } else if freq_hz <= 60_000_000 {
                1
            } else {
                2
            }
        },
        VoltageRange::V2p4To2p7 => {
            if freq_hz <= 24_000_000 {
                0
            } else if freq_hz <= 48_000_000 {
                1
            } else if freq_hz <= 72_000_000 {
                2
            } else {
                3
            }
        },
        VoltageRange::V2p1To2p4 => {
            if freq_hz <= 18_000_000 {
                0
            } else if freq_hz <= 36_000_000 {
                1
            } else if freq_hz <= 54_000_000 {
                2
            } else if freq_hz <= 72_000_000 {
                3
            } else {
                4
            }
        },
        VoltageRange::V1p71To2p1 => {
            if freq_hz <= 16_000_000 {
                0
            } else if freq_hz <= 32_000_000 {
                1
            } else if freq_hz <= 48_000_000 {
                2
            } else if freq_hz <= 64_000_000 {
                3
            } else if freq_hz <= 80_000_000 {
                4
            } else {
                5
            }
        },
    }
}

} // verus!
