//! The interrupt handler, one word from the hardware at a time.
use vstd::prelude::*;

use crate::action::{Action, Register, Source};
use crate::constants::{
    ALL_EP_IN0, ALL_EP_OUT0, CONTROL_CLEAR_GLOBAL_IN_NAK, CONTROL_CLEAR_GLOBAL_OUT_NAK,
    DESC_SETUP_READY, EP_ENABLE, EP_INT_XFER_COMPL, GINNAKEFF, GOUTNAKEFF, IEPINT, OEPINT, SOF,
    USB_RESET,
};
use crate::model::{
    enable_and_clear_nak, expect_setup_actions, only_if, reset_actions, reset_model, rx_actions,
    rx_model, stall_actions, waiting_model, Model, USBState,
};
use crate::request::{setup_actions, setup_fault, setup_model, Fault};
use crate::setup::setup_request;
use crate::table_case::{decoded, TableCase};

verus! {

/// How far the handler has come: each stage but the last waits for one word.
#[derive(Copy, Clone, PartialEq, Eq, Structural, Debug)]
pub enum Interrupt {
    /// Waits for the interrupt status.
    Status,
    /// Waits for the interrupt mask.
    Mask { status: u32 },
    /// Waits for the all-endpoints interrupt register.
    AllEndpoints { status: u32 },
    /// Waits for the interrupts of OUT endpoint 0.
    OutEndpoint { status: u32, inter_out: bool, inter_in: bool },
    /// Waits for the interrupts of IN endpoint 0.
    InEndpoint { status: u32, inter_out: bool, inter_in: bool, out_interrupts: u32 },
    /// Waits for the flags of the current OUT descriptor.
    Flags {
        status: u32,
        inter_out: bool,
        inter_in: bool,
        out_interrupts: u32,
        in_interrupts: u32,
        index: usize,
    },
    /// Waits for the first word of a SETUP packet.
    SetupLow { status: u32, transfer_type: TableCase, index: usize },
    /// Waits for the second word of a SETUP packet.
    SetupHigh { status: u32, transfer_type: TableCase, index: usize, low: u32 },
    /// The interrupt has been handled.
    Done,
}

/// The word that a stage waits for.
pub open spec fn stage_source(stage: Interrupt) -> Option<Source> {
    match stage {
        Interrupt::Status => Some(Source::Register(Register::InterruptStatus)),
        Interrupt::Mask { .. } => Some(Source::Register(Register::InterruptMask)),
        Interrupt::AllEndpoints { .. } => Some(Source::Register(Register::DeviceAllEpInterrupt)),
        Interrupt::OutEndpoint { .. } => Some(Source::Register(Register::OutInterrupt(0))),
        Interrupt::InEndpoint { .. } => Some(Source::Register(Register::InInterrupt(0))),
        Interrupt::Flags { index, .. } => Some(Source::OutFlags(index)),
        Interrupt::SetupLow { index, .. } => Some(Source::OutWord { index, word: 0 }),
        Interrupt::SetupHigh { index, .. } => Some(Source::OutWord { index, word: 1 }),
        Interrupt::Done => None,
    }
}

impl Interrupt {
    /// The word that is to be read and handed to the driver next; `None` once
    /// the interrupt has been handled.
    pub fn source(self) -> (r: Option<Source>)
        ensures
            r == stage_source(self),
    {
        match self {
            Interrupt::Status => Some(Source::Register(Register::InterruptStatus)),
            Interrupt::Mask { .. } => Some(Source::Register(Register::InterruptMask)),
            Interrupt::AllEndpoints { .. } => Some(
                Source::Register(Register::DeviceAllEpInterrupt),
            ),
            Interrupt::OutEndpoint { .. } => Some(Source::Register(Register::OutInterrupt(0))),
            Interrupt::InEndpoint { .. } => Some(Source::Register(Register::InInterrupt(0))),
            Interrupt::Flags { index, .. } => Some(Source::OutFlags(index)),
            Interrupt::SetupLow { index, .. } => Some(Source::OutWord { index, word: 0 }),
            Interrupt::SetupHigh { index, .. } => Some(Source::OutWord { index, word: 1 }),
            Interrupt::Done => None,
        }
    }
}

/// Whether descriptor flags say that the buffer holds a SETUP packet.
pub open spec fn setup_ready(flags: u32) -> bool {
    flags & DESC_SETUP_READY == DESC_SETUP_READY
}

/// Whether the OUT interrupts report an updated descriptor outside a status phase.
pub open spec fn received(out_interrupts: u32) -> bool {
    decoded(out_interrupts) == TableCase::A || decoded(out_interrupts) == TableCase::C
}

/// Whether endpoint 0 has a SETUP packet to be handled.
pub open spec fn setup_due(m: Model, inter_out: bool, out_interrupts: u32, flags: u32) -> bool {
    &&& received(out_interrupts)
    &&& setup_ready(flags)
    &&& m.state == USBState::WaitingForSetupPacket || inter_out
}

/// Whether a packet other than SETUP came while one was expected.
pub open spec fn stray_packet(m: Model, out_interrupts: u32, flags: u32) -> bool {
    &&& m.state == USBState::WaitingForSetupPacket
    &&& received(out_interrupts)
    &&& !setup_ready(flags)
}

/// Whether a transfer that was under way is over and a SETUP packet is expected
/// again.
pub open spec fn transfer_over(m: Model, inter_out: bool, out_interrupts: u32, flags: u32) -> bool {
    let case = decoded(out_interrupts);
    match m.state {
        USBState::WaitingForSetupPacket => false,
        USBState::DataStageIn => inter_out && received(out_interrupts) && !setup_ready(flags),
        USBState::NoDataStage => inter_out && case != TableCase::B && !(received(out_interrupts)
            && setup_ready(flags)),
    }
}

/// The state after the events of endpoint 0, before a SETUP packet is looked at.
pub open spec fn ep0_model(m: Model, inter_out: bool, out_interrupts: u32, flags: u32) -> Model {
    if transfer_over(m, inter_out, out_interrupts, flags) {
        waiting_model(m)
    } else {
        m
    }
}

/// What is done about the events of endpoint 0, before a SETUP packet is looked at.
pub open spec fn ep0_actions(
    m: Model,
    inter_out: bool,
    inter_in: bool,
    out_interrupts: u32,
    in_interrupts: u32,
    flags: u32,
) -> Seq<Action> {
    let setup_phase_done = decoded(out_interrupts) == TableCase::B;
    if m.state == USBState::WaitingForSetupPacket {
        only_if(setup_phase_done, stall_actions(m))
    } else {
        only_if(
            inter_in && in_interrupts & EP_INT_XFER_COMPL != 0,
            seq![Action::Write { register: Register::InControl(0), value: EP_ENABLE }],
        ) + only_if(
            inter_out && setup_phase_done,
            seq![
                Action::Write { register: Register::InControl(0), value: enable_and_clear_nak() },
                Action::Write { register: Register::OutControl(0), value: enable_and_clear_nak() },
            ],
        ) + only_if(
            transfer_over(m, inter_out, out_interrupts, flags),
            expect_setup_actions(m),
        )
    }
}

/// The state after the last part of the handler.
pub open spec fn finish_model(m: Model, status: u32) -> Model {
    if status & USB_RESET != 0 {
        reset_model(m)
    } else {
        m
    }
}

/// The last part of the handler: a USB RESET, and the acknowledgement of exactly
/// those interrupts that were pending at the start.
pub open spec fn finish_actions(m: Model, status: u32) -> Seq<Action> {
    only_if(status & USB_RESET != 0, reset_actions(m)) + seq![
        Action::Write { register: Register::InterruptStatus, value: status },
    ]
}

/// Answers to the interrupts that do not concern an endpoint.
pub open spec fn global_actions(status: u32, mask: u32) -> Seq<Action> {
    only_if(
        mask & status & SOF != 0,
        seq![Action::Modify { register: Register::InterruptMask, clear: SOF, set: 0 }],
    ) + only_if(
        status & GOUTNAKEFF != 0,
        seq![
            Action::Modify {
                register: Register::DeviceControl,
                clear: 0,
                set: CONTROL_CLEAR_GLOBAL_OUT_NAK,
            },
        ],
    ) + only_if(
        status & GINNAKEFF != 0,
        seq![
            Action::Modify {
                register: Register::DeviceControl,
                clear: 0,
                set: CONTROL_CLEAR_GLOBAL_IN_NAK,
            },
        ],
    )
}

/// Whether an endpoint interrupt is pending.
pub open spec fn endpoints_pending(status: u32) -> bool {
    status & (OEPINT | IEPINT) != 0
}

/// Whether the transfer on OUT endpoint 0 is complete.
pub open spec fn packet_received(inter_out: bool, out_interrupts: u32) -> bool {
    inter_out && out_interrupts & EP_INT_XFER_COMPL != 0
}

/// The stage that follows when `word` is handed over.
pub open spec fn next_stage(m: Model, stage: Interrupt, word: u32) -> Interrupt {
    match stage {
        Interrupt::Status => Interrupt::Mask { status: word },
        Interrupt::Mask { status } => if endpoints_pending(status) {
            Interrupt::AllEndpoints { status }
        } else {
            Interrupt::Done
        },
        Interrupt::AllEndpoints { status } => {
            let inter_out = word & ALL_EP_OUT0 != 0;
            let inter_in = word & ALL_EP_IN0 != 0;
            if inter_out || inter_in {
                Interrupt::OutEndpoint { status, inter_out, inter_in }
            } else {
                Interrupt::Done
            }
        },
        Interrupt::OutEndpoint { status, inter_out, inter_in } => Interrupt::InEndpoint {
            status,
            inter_out,
            inter_in,
            out_interrupts: word,
        },
        Interrupt::InEndpoint { status, inter_out, inter_in, out_interrupts } => Interrupt::Flags {
            status,
            inter_out,
            inter_in,
            out_interrupts,
            in_interrupts: word,
            index: next_model(m, stage, word).cur_out_idx,
        },
        Interrupt::Flags { status, inter_out, out_interrupts, .. } => if setup_due(
            m,
            inter_out,
            out_interrupts,
            word,
        ) {
            Interrupt::SetupLow {
                status,
                transfer_type: decoded(out_interrupts),
                index: m.cur_out_idx,
            }
        } else {
            Interrupt::Done
        },
        Interrupt::SetupLow { status, transfer_type, index } => Interrupt::SetupHigh {
            status,
            transfer_type,
            index,
            low: word,
        },
        Interrupt::SetupHigh { .. } => Interrupt::Done,
        Interrupt::Done => Interrupt::Done,
    }
}

/// The state that follows when `word` is handed over.
pub open spec fn next_model(m: Model, stage: Interrupt, word: u32) -> Model {
    match stage {
        Interrupt::Status => m,
        Interrupt::Mask { status } => if endpoints_pending(status) {
            m
        } else {
            finish_model(m, status)
        },
        Interrupt::AllEndpoints { status } => if word & ALL_EP_OUT0 != 0 || word & ALL_EP_IN0
            != 0 {
            m
        } else {
            finish_model(m, status)
        },
        Interrupt::OutEndpoint { .. } => m,
        Interrupt::InEndpoint { inter_out, out_interrupts, .. } => if packet_received(
            inter_out,
            out_interrupts,
        ) {
            rx_model(m)
        } else {
            m
        },
        Interrupt::Flags { status, inter_out, out_interrupts, .. } => if setup_due(
            m,
            inter_out,
            out_interrupts,
            word,
        ) {
            m
        } else {
            finish_model(ep0_model(m, inter_out, out_interrupts, word), status)
        },
        Interrupt::SetupLow { .. } => m,
        Interrupt::SetupHigh { status, low, .. } => finish_model(
            setup_model(m, setup_request(low, word)),
            status,
        ),
        Interrupt::Done => m,
    }
}

/// What is done when `word` is handed over.
pub open spec fn stage_actions(m: Model, stage: Interrupt, word: u32) -> Seq<Action> {
    match stage {
        Interrupt::Status => seq![],
        Interrupt::Mask { status } => global_actions(status, word) + only_if(
            !endpoints_pending(status),
            finish_actions(m, status),
        ),
        Interrupt::AllEndpoints { status } => only_if(
            word & ALL_EP_OUT0 == 0 && word & ALL_EP_IN0 == 0,
            finish_actions(m, status),
        ),
        Interrupt::OutEndpoint { inter_out, .. } => only_if(
            inter_out,
            seq![Action::Write { register: Register::OutInterrupt(0), value: word }],
        ),
        Interrupt::InEndpoint { inter_out, inter_in, out_interrupts, .. } => only_if(
            inter_in,
            seq![Action::Write { register: Register::InInterrupt(0), value: word }],
        ) + only_if(packet_received(inter_out, out_interrupts), rx_actions(m)),
        Interrupt::Flags { status, inter_out, inter_in, out_interrupts, in_interrupts, .. } => {
            ep0_actions(m, inter_out, inter_in, out_interrupts, in_interrupts, word) + only_if(
                !setup_due(m, inter_out, out_interrupts, word),
                finish_actions(ep0_model(m, inter_out, out_interrupts, word), status),
            )
        },
        Interrupt::SetupLow { .. } => seq![],
        Interrupt::SetupHigh { status, transfer_type, low, .. } => setup_actions(
            m,
            transfer_type,
            setup_request(low, word),
        ) + finish_actions(setup_model(m, setup_request(low, word)), status),
        Interrupt::Done => seq![],
    }
}

/// Why the driver cannot go on with `word`, if it cannot.
pub open spec fn stage_fault(m: Model, stage: Interrupt, word: u32) -> Option<Fault> {
    match stage {
        Interrupt::Flags { out_interrupts, .. } => if m.memory is None {
            Some(Fault::NotInitialized)
        } else if stray_packet(m, out_interrupts, word) {
            Some(Fault::NotSetupPacket)
        } else {
            None
        },
        Interrupt::SetupHigh { low, .. } => if m.memory is None {
            None
        } else {
            setup_fault(setup_request(low, word))
        },
        _ => None,
    }
}

} // verus!
