//! Laws of packets, descriptors, registers and the state of the driver.
use vstd::prelude::*;

use crate::action::{register_offset, Action, Register};
use crate::constants::{
    ENDPOINTS, EP_CNAK, EP_ENABLE, EP_INT_SETUP, EP_INT_STS_PHSE_RCVD, EP_INT_XFER_COMPL,
    IN_EP_TX_FIFOS, RX_FIFO_SIZE, SOFT_RESET_TIMEOUT, TX_FIFO_SIZE,
};
use crate::descriptor::{high_byte, low_byte, ConfigurationDescriptor, DeviceDescriptor};
use crate::interrupt::{next_model, next_stage, Interrupt};
use crate::model::{phase_control, rx_model, Ep0Memory, Model};
use crate::request::{setup_actions, setup_fault, setup_model};
use crate::setup::{setup_request, SetupDirection, SetupRecipient, SetupRequest, SetupRequestType};
use crate::startup::{
    configure_actions, fifo_region, init_model, next_startup, startup_actions, tx_fifo_start,
    Startup,
};
use crate::table_case::{decoded, TableCase};

verus! {

/// Each row of the table of OUT interrupts decodes to its own case.
pub proof fn table_rows_decode(out_interrupts: u32)
    ensures
        ({
            let xfer_compl = out_interrupts & EP_INT_XFER_COMPL != 0;
            let setup = out_interrupts & EP_INT_SETUP != 0;
            let sts_phse_rcvd = out_interrupts & EP_INT_STS_PHSE_RCVD != 0;
            let case = decoded(out_interrupts);
            &&& !sts_phse_rcvd && !setup && xfer_compl ==> case == TableCase::A
            &&& !sts_phse_rcvd && setup && !xfer_compl ==> case == TableCase::B
            &&& !sts_phse_rcvd && setup && xfer_compl ==> case == TableCase::C
            &&& sts_phse_rcvd && !setup && !xfer_compl ==> case == TableCase::D
            &&& sts_phse_rcvd && !setup && xfer_compl ==> case == TableCase::E
        }),
{
}

/// Reading a SETUP packet out of the words that hold it gives the packet back.
pub proof fn setup_packet_reads_back(req: SetupRequest)
    ensures
        setup_request(req.low_word(), req.high_word()) == req,
{
}

/// Two words hold exactly the packet that is read out of them.
pub proof fn setup_words_read_back(low: u32, high: u32)
    ensures
        setup_request(low, high).low_word() == low,
        setup_request(low, high).high_word() == high,
{
}

proof fn halves_determine(x: u16, y: u16)
    requires
        low_byte(x) == low_byte(y),
        high_byte(x) == high_byte(y),
    ensures
        x == y,
{
}

/// The host can tell any two device descriptors apart by their bytes, and there
/// are as many bytes as a device descriptor has.
pub proof fn device_descriptor_is_recoverable(a: DeviceDescriptor, b: DeviceDescriptor)
    ensures
        a.bytes().len() == 18,
        a.bytes() == b.bytes() ==> a == b,
{
    if a.bytes() == b.bytes() {
        assert forall|i: int| 0 <= i < 18 implies a.bytes()[i] == b.bytes()[i] by {}
        assert(a.bytes()[0] == a.b_length && b.bytes()[0] == b.b_length);
        assert(a.bytes()[1] == b.bytes()[1]);
        assert(a.bytes()[2] == b.bytes()[2]);
        assert(a.bytes()[3] == b.bytes()[3]);
        halves_determine(a.bcd_usb, b.bcd_usb);
        assert(a.bytes()[4] == b.bytes()[4]);
        assert(a.bytes()[5] == b.bytes()[5]);
        assert(a.bytes()[6] == b.bytes()[6]);
        assert(a.bytes()[7] == b.bytes()[7]);
        assert(a.bytes()[8] == b.bytes()[8]);
        assert(a.bytes()[9] == b.bytes()[9]);
        halves_determine(a.id_vendor, b.id_vendor);
        assert(a.bytes()[10] == b.bytes()[10]);
        assert(a.bytes()[11] == b.bytes()[11]);
        halves_determine(a.id_product, b.id_product);
        assert(a.bytes()[12] == b.bytes()[12]);
        assert(a.bytes()[13] == b.bytes()[13]);
        halves_determine(a.bcd_device, b.bcd_device);
        assert(a.bytes()[14] == b.bytes()[14]);
        assert(a.bytes()[15] == b.bytes()[15]);
        assert(a.bytes()[16] == b.bytes()[16]);
        assert(a.bytes()[17] == b.bytes()[17]);
    }
}

/// The host can tell any two configuration descriptors apart by their bytes, and
/// there are as many bytes as a configuration descriptor has.
pub proof fn configuration_descriptor_is_recoverable(
    a: ConfigurationDescriptor,
    b: ConfigurationDescriptor,
)
    ensures
        a.bytes().len() == 9,
        a.bytes() == b.bytes() ==> a == b,
{
    if a.bytes() == b.bytes() {
        assert(a.bytes()[0] == b.bytes()[0]);
        assert(a.bytes()[1] == b.bytes()[1]);
        assert(a.bytes()[2] == b.bytes()[2]);
        assert(a.bytes()[3] == b.bytes()[3]);
        halves_determine(a.w_total_length, b.w_total_length);
        assert(a.bytes()[4] == b.bytes()[4]);
        assert(a.bytes()[5] == b.bytes()[5]);
        assert(a.bytes()[6] == b.bytes()[6]);
        assert(a.bytes()[7] == b.bytes()[7]);
        assert(a.bytes()[8] == b.bytes()[8]);
    }
}

/// The dedicated transmit FIFOs follow the receive FIFO without a gap and without
/// an overlap, and their size registers say so.
pub proof fn fifos_are_adjacent(i: int)
    requires
        0 <= i < IN_EP_TX_FIFOS,
    ensures
        tx_fifo_start(0) == RX_FIFO_SIZE,
        tx_fifo_start(i + 1) == tx_fifo_start(i) + TX_FIFO_SIZE,
        fifo_region(tx_fifo_start(i)) % 0x1_0000 == tx_fifo_start(i),
        fifo_region(tx_fifo_start(i)) / 0x1_0000 == TX_FIFO_SIZE,
{
    assert(i * TX_FIFO_SIZE == 32 * i && (i + 1) * TX_FIFO_SIZE == 32 * (i + 1))
        by (nonlinear_arith)
        requires
            TX_FIFO_SIZE == 32,
    ;
    assert(0 * TX_FIFO_SIZE == 0);
}

/// No two registers share an address.
pub proof fn registers_are_distinct(a: Register, b: Register)
    requires
        endpoint_in_range(a),
        endpoint_in_range(b),
        register_offset(a) == register_offset(b),
    ensures
        a == b,
{
}

/// The register exists: its endpoint or FIFO number is one that the controller has.
pub open spec fn endpoint_in_range(register: Register) -> bool {
    match register {
        Register::DeviceInEpTxFifoSize(i) => i < IN_EP_TX_FIFOS,
        Register::InControl(ep) => ep < ENDPOINTS,
        Register::InInterrupt(ep) => ep < ENDPOINTS,
        Register::InDmaAddress(ep) => ep < ENDPOINTS,
        Register::OutControl(ep) => ep < ENDPOINTS,
        Register::OutInterrupt(ep) => ep < ENDPOINTS,
        Register::OutDmaAddress(ep) => ep < ENDPOINTS,
        _ => true,
    }
}

/// The packet that was received and the one that will be received next are in
/// different buffers, and after two packets each buffer has its turn again.
pub proof fn buffers_alternate(m: Model)
    requires
        m.wf(),
        m.memory is Some,
    ensures
        rx_model(m).cur_out_idx == m.next_out_idx,
        rx_model(m).next_out_idx != rx_model(m).cur_out_idx,
        rx_model(rx_model(m)).next_out_idx == m.next_out_idx,
        rx_model(rx_model(m)).cur_out_idx != m.next_out_idx,
{
}

/// The driver stays well-formed through every stage of the interrupt handler.
pub proof fn interrupts_keep_wf(m: Model, stage: Interrupt, word: u32)
    requires
        m.wf(),
    ensures
        next_model(m, stage, word).wf(),
{
}

/// Once `init` has handed the buffers over, no interrupt takes them away, and the
/// identity of the device does not change.
pub proof fn interrupts_keep_memory_and_identity(m: Model, stage: Interrupt, word: u32)
    ensures
        next_model(m, stage, word).memory == m.memory,
        next_model(m, stage, word).device_class == m.device_class,
        next_model(m, stage, word).vendor_id == m.vendor_id,
        next_model(m, stage, word).product_id == m.product_id,
{
}

/// After `init` there are buffers, and what was not given keeps its value.
pub proof fn init_provides_memory(
    m: Model,
    memory: Ep0Memory,
    device_class: Option<u8>,
    vendor_id: Option<u16>,
    product_id: Option<u16>,
)
    ensures
        ({
            let after = init_model(m, memory, device_class, vendor_id, product_id);
            &&& after.memory == Some(memory)
            &&& after.device_class == device_class.unwrap_or(m.device_class)
            &&& after.vendor_id == vendor_id.unwrap_or(m.vendor_id)
            &&& after.product_id == product_id.unwrap_or(m.product_id)
            &&& after.state == m.state
            &&& after.configuration_value == m.configuration_value
        }),
{
}

/// How many words the handler can still ask for.
pub open spec fn words_left(stage: Interrupt) -> nat {
    match stage {
        Interrupt::Status => 8,
        Interrupt::Mask { .. } => 7,
        Interrupt::AllEndpoints { .. } => 6,
        Interrupt::OutEndpoint { .. } => 5,
        Interrupt::InEndpoint { .. } => 4,
        Interrupt::Flags { .. } => 3,
        Interrupt::SetupLow { .. } => 2,
        Interrupt::SetupHigh { .. } => 1,
        Interrupt::Done => 0,
    }
}

/// The interrupt handler always comes to an end: each word brings it closer.
pub proof fn handler_advances(m: Model, stage: Interrupt, word: u32)
    requires
        !(stage is Done),
    ensures
        words_left(next_stage(m, stage, word)) < words_left(stage),
{
}

/// How many polls the soft reset can still take.
pub open spec fn polls_left(stage: Startup) -> nat {
    match stage {
        Startup::AwaitReset { timeout } => timeout as nat + SOFT_RESET_TIMEOUT as nat + 2,
        Startup::AwaitIdle { timeout } => timeout as nat + 1,
        Startup::Done => 0,
    }
}

/// The soft reset always comes to an end, whatever the reset register reads.
pub proof fn soft_reset_advances(stage: Startup, reset: u32)
    requires
        !(stage is Done),
    ensures
        polls_left(next_startup(stage, reset)) < polls_left(stage),
{
}

/// Nothing but a SET_CONFIGURATION request changes the configuration that the device
/// reports.
pub proof fn configuration_is_kept(m: Model, stage: Interrupt, word: u32)
    ensures
        next_model(m, stage, word).configuration_value == m.configuration_value || (stage matches
            Interrupt::SetupHigh { low, .. } && {
            let req = setup_request(low, word);
            &&& req.is_standard_device()
            &&& req.direction_view() == SetupDirection::HostToDevice
            &&& req.request_view() == SetupRequestType::SetConfiguration
            &&& next_model(m, stage, word).configuration_value == req.w_value % 0x100
        }),
{
}

/// A request that is neither a standard request to the device nor addressed to an
/// interface is passed over: nothing is done and nothing changes.
pub proof fn foreign_requests_are_passed_over(
    m: Model,
    transfer_type: TableCase,
    req: SetupRequest,
)
    requires
        !req.is_standard_device(),
        req.recipient_view() != SetupRecipient::Interface,
    ensures
        setup_fault(req) is None,
        setup_model(m, req) == m,
        setup_actions(m, transfer_type, req) == Seq::<Action>::empty(),
{
}

/// The controller is configured exactly once, when the soft reset is over, and in the
/// same way whether the reset succeeded or was given up.
pub proof fn startup_configures_once(stage: Startup, reset: u32)
    ensures
        next_startup(stage, reset) is Done && !(stage is Done) ==> startup_actions(stage, reset)
            == configure_actions(),
        !(next_startup(stage, reset) is Done) ==> startup_actions(stage, reset) == Seq::<
            Action,
        >::empty(),
        startup_actions(Startup::Done, reset) == Seq::<Action>::empty(),
{
}

/// Setting up a transfer clears the NAK bit only in case C, when the setup phase is
/// complete; in any other case that would answer a packet other than the SETUP packet.
pub proof fn nak_is_cleared_only_after_setup(transfer_type: TableCase)
    ensures
        phase_control(transfer_type) & EP_ENABLE == EP_ENABLE,
        phase_control(transfer_type) & EP_CNAK != 0 <==> transfer_type == TableCase::C,
{
    assert(0x8400_0000u32 & 0x8000_0000u32 == 0x8000_0000u32 && 0x8400_0000u32 & 0x0400_0000u32 != 0
        && 0x8000_0000u32 & 0x8000_0000u32 == 0x8000_0000u32 && 0x8000_0000u32 & 0x0400_0000u32
        == 0) by (bit_vector);
}

} // verus!
