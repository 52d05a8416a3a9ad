//! Combinations of OUT endpoint interrupts for control transfers.
use vstd::prelude::*;

use crate::constants::{EP_INT_SETUP, EP_INT_STS_PHSE_RCVD, EP_INT_XFER_COMPL};

verus! {

/// The cases of Table 10.7 in the Programming Guide.
#[derive(Copy, Clone, PartialEq, Eq, Structural, Debug)]
pub enum TableCase {
    /// OUT descriptor updated; check the SR bit to see if Setup or OUT.
    ///
    /// * StsPhseRcvd: 0
    /// * SetUp: 0
    /// * XferCompl: 1
    A,
    /// Setup phase done for the previously decoded Setup packet.
    ///
    /// * StsPhseRcvd: 0
    /// * SetUp: 1
    /// * XferCompl: 0
    B,
    /// OUT descriptor updated for a Setup packet, Setup complete.
    ///
    /// * StsPhseRcvd: 0
    /// * SetUp: 1
    /// * XferCompl: 1
    C,
    /// Status phase of a Control OUT transfer.
    ///
    /// * StsPhseRcvd: 1
    /// * SetUp: 0
    /// * XferCompl: 0
    D,
    /// OUT descriptor updated; check the SR bit to see if Setup or OUT. The
    /// host is now in the Control Write Status phase.
    ///
    /// * StsPhseRcvd: 1
    /// * SetUp: 0
    /// * XferCompl: 1
    E,
}

/// The case for each combination of the XferCompl, SetUp and StsPhseRcvd bits.
pub open spec fn table_case(xfer_compl: bool, setup: bool, sts_phse_rcvd: bool) -> TableCase {
    match (xfer_compl, setup) {
        (true, true) => TableCase::C,
        (true, false) => if sts_phse_rcvd {
            TableCase::E
        } else {
            TableCase::A
        },
        (false, true) => TableCase::B,
        (false, false) => TableCase::D,
    }
}

/// The case that a value of the OUT endpoint interrupt register stands for.
pub open spec fn decoded(device_out_int: u32) -> TableCase {
    table_case(
        device_out_int & EP_INT_XFER_COMPL != 0,
        device_out_int & EP_INT_SETUP != 0,
        device_out_int & EP_INT_STS_PHSE_RCVD != 0,
    )
}

impl TableCase {
    /// Decodes a value from the OUT endpoint interrupt register.
    ///
    /// Only the combinations in the programming guide are told apart properly;
    /// StsPhseRcvd is ignored beside SetUp, and no bit at all decodes as `D`.
    pub fn decode_interrupt(device_out_int: u32) -> (r: TableCase)
        ensures
            r == decoded(device_out_int),
    {
        if device_out_int & EP_INT_XFER_COMPL != 0 {
            if device_out_int & EP_INT_SETUP != 0 {
                TableCase::C
            } else if device_out_int & EP_INT_STS_PHSE_RCVD != 0 {
                TableCase::E
            } else {
                TableCase::A
            }
        } else if device_out_int & EP_INT_SETUP != 0 {
            TableCase::B
        } else {
            TableCase::D
        }
    }
}

} // verus!
