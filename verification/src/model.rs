//! The mathematical model of the driver: its state, and for every operation the
//! state that follows and the actions that are asked for.
use vstd::prelude::*;

use crate::action::{Action, Register};
use crate::constants::{
    ALL_EP_IN0, ALL_EP_OUT0, ALL_TX_FIFOS, DESC_HOST_BUSY, DESC_HOST_READY, DESC_IOC, DESC_LAST,
    DESC_SHORT, EP_CNAK, EP_ENABLE, EP_STALL, IN_DESCRIPTORS, MAX_PACKET_SIZE, OUT_DESCRIPTORS,
    RESET_FIFO_UNIT, RESET_RX_FLUSH, RESET_TX_FLUSH,
};
use crate::descriptor::DeviceDescriptor;
use crate::table_case::TableCase;

verus! {

/// Where the driver stands in a control transfer on endpoint 0.
#[derive(Clone, Copy, PartialEq, Eq, Structural, Debug)]
pub enum USBState {
    WaitingForSetupPacket,
    DataStageIn,
    NoDataStage,
}

/// The addresses of the buffers of endpoint 0.
#[derive(Clone, Copy, PartialEq, Eq, Structural, Debug)]
pub struct Ep0Memory {
    /// Two OUT buffers of 64 bytes each, one after the other.
    pub out_buffers: usize,
    /// One IN buffer of 256 bytes, shared by the four IN descriptors.
    pub in_buffers: usize,
}

impl Ep0Memory {
    /// The buffers lie inside the address space.
    pub open spec fn wf(self) -> bool {
        &&& self.out_buffers + 128 <= usize::MAX
        &&& self.in_buffers + 256 <= usize::MAX
    }
}

/// The state of the driver.
pub struct Model {
    pub state: USBState,
    /// The buffers of endpoint 0; there are none before `init`.
    pub memory: Option<Ep0Memory>,
    /// Index of the OUT descriptor that will receive the next packet.
    pub next_out_idx: usize,
    /// Index of the OUT descriptor that received the most recent packet.
    pub cur_out_idx: usize,
    pub device_class: u8,
    pub vendor_id: u16,
    pub product_id: u16,
    pub configuration_value: u8,
}

impl Model {
    /// Both indices name an OUT descriptor, and the buffers are sound.
    pub open spec fn wf(self) -> bool {
        &&& self.next_out_idx < OUT_DESCRIPTORS
        &&& self.cur_out_idx < OUT_DESCRIPTORS
        &&& self.memory matches Some(memory) ==> memory.wf()
    }
}

/// The actions, if the condition holds; none otherwise.
pub open spec fn only_if(condition: bool, actions: Seq<Action>) -> Seq<Action> {
    if condition {
        actions
    } else {
        seq![]
    }
}

/// Flags of an OUT descriptor that is ready for one packet, the last of its
/// transfer, and that raises an interrupt on completion.
pub open spec fn out_ready() -> u32 {
    (DESC_HOST_READY + DESC_LAST + DESC_IOC + MAX_PACKET_SIZE) as u32
}

/// Flags of an IN descriptor that is ready to send `len` bytes as the last,
/// short packet of its transfer, and that raises an interrupt on completion.
pub open spec fn in_ready(len: int) -> u32 {
    (DESC_HOST_READY + DESC_LAST + DESC_SHORT + DESC_IOC + len) as u32
}

/// Control word that enables an endpoint and clears its NAK bit.
pub open spec fn enable_and_clear_nak() -> u32 {
    (EP_ENABLE + EP_CNAK) as u32
}

/// Control word that enables an endpoint and makes it answer with STALL.
pub open spec fn enable_and_stall() -> u32 {
    (EP_ENABLE + EP_STALL) as u32
}

/// Flushes transmit FIFO `fifo_num`, or all of them for a number that names none.
pub open spec fn flush_tx_actions(fifo_num: u8) -> Seq<Action> {
    let number = if fifo_num < ALL_TX_FIFOS {
        fifo_num
    } else {
        ALL_TX_FIFOS
    };
    seq![
        Action::Write {
            register: Register::Reset,
            value: (RESET_TX_FLUSH + RESET_FIFO_UNIT * number) as u32,
        },
        Action::WaitClear { register: Register::Reset, mask: RESET_TX_FLUSH },
    ]
}

/// Flushes the receive FIFO.
pub open spec fn flush_rx_actions() -> Seq<Action> {
    seq![
        Action::Write { register: Register::Reset, value: RESET_RX_FLUSH },
        Action::WaitClear { register: Register::Reset, mask: RESET_RX_FLUSH },
    ]
}

/// Offers the next OUT descriptor to the controller.
pub open spec fn offer_out_descriptor(m: Model) -> Seq<Action> {
    only_if(m.memory is Some, seq![Action::OutFlags { index: m.next_out_idx, flags: out_ready() }])
}

/// Unmasks the OUT interrupt of endpoint 0 and masks its IN interrupt.
pub open spec fn listen_to_host() -> Seq<Action> {
    seq![
        Action::Modify {
            register: Register::DeviceAllEpInterruptMask,
            clear: 0,
            set: ALL_EP_OUT0,
        },
        Action::Modify { register: Register::DeviceAllEpInterruptMask, clear: ALL_EP_IN0, set: 0 },
    ]
}

/// The state in which a SETUP packet is expected.
pub open spec fn waiting_model(m: Model) -> Model {
    Model { state: USBState::WaitingForSetupPacket, ..m }
}

/// Prepares endpoint 0 to receive a SETUP packet.
pub open spec fn expect_setup_actions(m: Model) -> Seq<Action> {
    offer_out_descriptor(m) + listen_to_host() + seq![
        Action::Write { register: Register::OutControl(0), value: enable_and_clear_nak() },
    ]
}

/// Stalls endpoint 0 in both directions.
pub open spec fn stall_actions(m: Model) -> Seq<Action> {
    offer_out_descriptor(m) + listen_to_host() + seq![
        Action::Write { register: Register::OutControl(0), value: enable_and_stall() },
    ] + flush_tx_actions(0) + seq![
        Action::Write { register: Register::InControl(0), value: enable_and_stall() },
    ]
}

/// The other of the two OUT descriptors.
pub open spec fn other_out_idx(index: usize) -> usize {
    if index == 0 {
        1
    } else {
        0
    }
}

/// The next OUT descriptor becomes the current one, and the other one the next.
pub open spec fn rx_model(m: Model) -> Model {
    if m.memory is Some {
        Model {
            cur_out_idx: m.next_out_idx,
            next_out_idx: other_out_idx(m.next_out_idx),
            ..m
        }
    } else {
        m
    }
}

/// Points the controller at the OUT descriptor that is to receive next.
pub open spec fn rx_actions(m: Model) -> Seq<Action> {
    only_if(m.memory is Some, seq![Action::OutDma { index: other_out_idx(m.next_out_idx) }])
}

/// The OUT descriptor with index `i`, owned by the driver, with its own buffer.
pub open spec fn idle_out_descriptor(memory: Ep0Memory, i: int) -> Action {
    Action::OutDescriptor {
        index: i as usize,
        flags: DESC_HOST_BUSY,
        addr: (memory.out_buffers + 64 * i) as usize,
    }
}

/// The IN descriptor with index `i`, owned by the driver, with its quarter of
/// the IN buffer.
pub open spec fn idle_in_descriptor(memory: Ep0Memory, i: int) -> Action {
    Action::InDescriptor {
        index: i as usize,
        flags: DESC_HOST_BUSY,
        addr: (memory.in_buffers + 64 * i) as usize,
    }
}

/// Puts all descriptors of endpoint 0 into a clean state and points the
/// controller at the first of each kind.
pub open spec fn clean_descriptors(memory: Ep0Memory) -> Seq<Action> {
    Seq::new(OUT_DESCRIPTORS as nat, |i: int| idle_out_descriptor(memory, i)) + seq![
        Action::OutDma { index: 0 },
    ] + Seq::new(IN_DESCRIPTORS as nat, |i: int| idle_in_descriptor(memory, i)) + seq![
        Action::InDma { index: 0 },
    ]
}

/// The state after the descriptors were put into a clean state.
pub open spec fn reset_model(m: Model) -> Model {
    Model {
        state: USBState::WaitingForSetupPacket,
        next_out_idx: if m.memory is Some {
            0
        } else {
            m.next_out_idx
        },
        ..m
    }
}

/// Cleans the descriptors and prepares for a SETUP packet.
pub open spec fn reset_actions(m: Model) -> Seq<Action> {
    (match m.memory {
        Some(memory) => clean_descriptors(memory),
        None => seq![],
    }) + expect_setup_actions(reset_model(m))
}

/// The control word for both endpoints when a transfer is set up: only in case C
/// may the NAK bit be cleared already.
pub open spec fn phase_control(transfer_type: TableCase) -> u32 {
    if transfer_type == TableCase::C {
        enable_and_clear_nak()
    } else {
        EP_ENABLE
    }
}

/// Starts sending from IN descriptor 0 and receiving into the next OUT
/// descriptor, and unmasks both interrupts of endpoint 0.
pub open spec fn start_in_phase(m: Model, transfer_type: TableCase) -> Seq<Action> {
    flush_tx_actions(0) + seq![
        Action::InDma { index: 0 },
        Action::Write { register: Register::InControl(0), value: phase_control(transfer_type) },
        Action::OutFlags { index: m.next_out_idx, flags: out_ready() },
        Action::Write { register: Register::OutControl(0), value: phase_control(transfer_type) },
        Action::Modify {
            register: Register::DeviceAllEpInterruptMask,
            clear: 0,
            set: (ALL_EP_IN0 + ALL_EP_OUT0) as u32,
        },
    ]
}

/// Sends what has been put behind the IN descriptors.
pub open spec fn data_phase_actions(m: Model, transfer_type: TableCase) -> Seq<Action> {
    only_if(m.memory is Some, start_in_phase(m, transfer_type))
}

/// Sends a packet of no bytes as the status phase.
pub open spec fn status_phase_actions(m: Model, transfer_type: TableCase) -> Seq<Action> {
    match m.memory {
        Some(memory) => seq![
            Action::InDescriptor { index: 0, flags: in_ready(0), addr: memory.in_buffers },
        ] + start_in_phase(m, transfer_type),
        None => seq![],
    }
}

/// The device descriptor that the driver reports.
pub open spec fn device_descriptor(m: Model) -> DeviceDescriptor {
    DeviceDescriptor {
        b_length: 18,
        b_descriptor_type: 1,
        bcd_usb: 0x0200,
        b_device_class: m.device_class,
        b_device_sub_class: 0,
        b_device_protocol: 0,
        b_max_packet_size0: 64,
        id_vendor: m.vendor_id,
        id_product: m.product_id,
        bcd_device: 0x0100,
        i_manufacturer: 0,
        i_product: 0,
        i_serial_number: 0,
        b_num_configurations: 1,
    }
}

/// Stores bytes at the start of the IN buffer.
pub open spec fn fill_in_buffer(bytes: Seq<u8>) -> Seq<Action> {
    Seq::new(bytes.len(), |i: int| Action::InByte { offset: i as usize, byte: bytes[i] })
}

/// How many bytes of a reply are sent: no more than the host asked for.
pub open spec fn reply_length(bytes: Seq<u8>, w_length: u16) -> int {
    if bytes.len() <= w_length {
        bytes.len() as int
    } else {
        w_length as int
    }
}

/// How many IN descriptors a reply of `n` bytes takes: one for each 64 bytes, and one
/// for a reply of no bytes.
pub open spec fn reply_descriptors(n: int) -> int {
    if n <= 64 {
        1
    } else {
        (n + 63) / 64
    }
}

/// How many bytes of a reply of `n` bytes IN descriptor `i` carries.
pub open spec fn chunk_length(n: int, i: int) -> int {
    if n - 64 * i <= 64 {
        n - 64 * i
    } else {
        64
    }
}

/// The flags of IN descriptor `i` for a reply of `n` bytes: ready to send its part, and
/// only the final one marked as the last of the transfer.
pub open spec fn chunk_flags(n: int, i: int) -> u32 {
    if i == reply_descriptors(n) - 1 {
        in_ready(chunk_length(n, i))
    } else {
        (DESC_HOST_READY + chunk_length(n, i)) as u32
    }
}

/// Readies the IN descriptors for a reply of `n` bytes, one after the other.
pub open spec fn load_in_descriptors(n: int) -> Seq<Action> {
    Seq::new(
        reply_descriptors(n) as nat,
        |i: int| Action::InFlags { index: i as usize, flags: chunk_flags(n, i) },
    )
}

/// Puts a reply behind the IN descriptors and sends it.
pub open spec fn reply_actions(
    m: Model,
    transfer_type: TableCase,
    bytes: Seq<u8>,
    w_length: u16,
) -> Seq<Action> {
    only_if(
        m.memory is Some,
        fill_in_buffer(bytes) + load_in_descriptors(reply_length(bytes, w_length)),
    ) + data_phase_actions(m, transfer_type)
}

} // verus!
