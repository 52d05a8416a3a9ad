//! The driver itself.
use vstd::prelude::*;

use crate::action::{Action, ClockLine, Register};
use crate::constants::{
    ALL_EP_IN0, ALL_EP_OUT0, ALL_TX_FIFOS, CONFIG_ADDRESS, CONFIG_FULL_SPEED, CONFIG_SCATTER_GATHER,
    CONTROL_CLEAR_GLOBAL_IN_NAK, CONTROL_CLEAR_GLOBAL_OUT_NAK, CONTROL_POWER_ON_DONE,
    CONTROL_SOFT_DISCONNECT, DESC_HOST_BUSY, DESC_HOST_READY, DESC_IOC, DESC_LAST, DESC_SETUP_READY,
    DESC_SHORT, EARLY_SUSPEND, ENDPOINTS, ENUM_DONE, EP_CNAK, EP_ENABLE, EP_INT_DISABLED,
    EP_INT_SETUP, EP_INT_XFER_COMPL, EP_STALL, GET_DESCRIPTOR_CONFIGURATION, GET_DESCRIPTOR_DEVICE,
    GET_DESCRIPTOR_DEVICE_QUALIFIER, GINNAKEFF, GOUTNAKEFF, IEPINT, IN_DESCRIPTORS, IN_EP_TX_FIFOS,
    MAX_PACKET_SIZE, OEPINT, OUT_DESCRIPTORS, POWER_ON_NOPS, RESET_AHB_IDLE, RESET_CORE,
    RESET_FIFO_UNIT, RESET_RX_FLUSH, RESET_TX_FLUSH, RX_FIFO_SIZE, SOF, SOFT_RESET_TIMEOUT,
    TX_FIFO_SIZE, USB_RESET, USB_SUSPEND,
};
use crate::descriptor::{ConfigurationDescriptor, DeviceDescriptor};
use crate::interrupt::{
    ep0_actions, ep0_model, finish_actions, finish_model, global_actions, next_model, next_stage,
    setup_due, stage_actions, stage_fault, stray_packet, Interrupt,
};
use crate::model::{
    chunk_flags, clean_descriptors, data_phase_actions, device_descriptor, enable_and_clear_nak,
    enable_and_stall, expect_setup_actions, fill_in_buffer, flush_rx_actions, flush_tx_actions,
    idle_in_descriptor, idle_out_descriptor, in_ready, listen_to_host, load_in_descriptors,
    offer_out_descriptor, out_ready, reply_actions, reset_actions, reset_model, rx_actions,
    rx_model, stall_actions, start_in_phase, status_phase_actions, waiting_model, Ep0Memory, Model,
    USBState,
};
use crate::request::{
    device_to_host_actions, device_to_host_fault, device_to_host_model, no_data_actions,
    no_data_fault, no_data_model, setup_actions, setup_fault, setup_model, Fault,
};
use crate::setup::{
    SetupDirection, SetupRecipient, SetupRequest, SetupRequestClass, SetupRequestType,
};
use crate::startup::{
    chip_configuration, clear_interrupts, configure_actions, fifo_actions, go_online, init_model,
    next_startup, open_all_regions, open_region, phy_selection, power_up_actions, startup_actions,
    tx_fifo_sizes, PHY, Startup,
};
use crate::table_case::{decoded, TableCase};

verus! {

/// Appending one list after another is appending both at once.
proof fn lemma_append_twice(before: Seq<Action>, first: Seq<Action>, second: Seq<Action>)
    ensures
        before + first + second == before + (first + second),
{
    assert(before + first + second =~= before + (first + second));
}

/// Appending no actions changes nothing.
proof fn lemma_append_none(before: Seq<Action>)
    ensures
        before + seq![] == before,
{
    assert(before + seq![] =~= before);
}

/// Flags for an OUT descriptor that is to receive one packet.
fn out_ready_flags() -> (r: u32)
    ensures
        r == out_ready(),
{
    assert(0u32 | 0x0800_0000u32 | 0x0200_0000u32 | 64u32 == 0x0a00_0040u32) by (bit_vector);
    DESC_HOST_READY | DESC_LAST | DESC_IOC | MAX_PACKET_SIZE as u32
}

/// Flags for an IN descriptor that is to send one packet of `len` bytes.
fn in_ready_flags(len: u16) -> (r: u32)
    ensures
        r == in_ready(len as int),
{
    let bytes: u32 = len as u32;
    assert(0u32 | 0x0800_0000u32 | 0x0400_0000u32 | 0x0200_0000u32 | bytes == 0x0e00_0000u32
        + bytes) by (bit_vector)
        requires
            bytes <= 0xffff,
    ;
    DESC_HOST_READY | DESC_LAST | DESC_SHORT | DESC_IOC | bytes
}

fn enable_cnak_bits() -> (r: u32)
    ensures
        r == enable_and_clear_nak(),
{
    assert(0x8000_0000u32 | 0x0400_0000u32 == 0x8400_0000u32) by (bit_vector);
    EP_ENABLE | EP_CNAK
}

fn enable_stall_bits() -> (r: u32)
    ensures
        r == enable_and_stall(),
{
    assert(0x8000_0000u32 | 0x0020_0000u32 == 0x8020_0000u32) by (bit_vector);
    EP_ENABLE | EP_STALL
}

/// Driver for the controller in device mode.
///
/// The driver can enumerate (appear as a device to a host) but cannot perform
/// any other operations. It operates in Scatter-Gather DMA mode and performs the
/// initial handshakes with the host on endpoint 0. By default it appears as an
/// "Unknown counterfeit flash drive" (ID 0011:7788).
///
/// For endpoint 0 there are two OUT descriptors and four IN descriptors, each
/// with a buffer of 64 bytes. Two OUT descriptors let the device receive a packet
/// while it processes the previous one.
pub struct USB {
    state: USBState,
    memory: Option<Ep0Memory>,
    next_out_idx: usize,
    cur_out_idx: usize,
    device_class: u8,
    vendor_id: u16,
    product_id: u16,
    configuration_value: u8,
}

impl USB {
    /// The state of the driver, as the contracts speak of it.
    pub closed spec fn view(&self) -> Model {
        Model {
            state: self.state,
            memory: self.memory,
            next_out_idx: self.next_out_idx,
            cur_out_idx: self.cur_out_idx,
            device_class: self.device_class,
            vendor_id: self.vendor_id,
            product_id: self.product_id,
            configuration_value: self.configuration_value,
        }
    }

    #[verifier::type_invariant]
    spec fn inv(self) -> bool {
        self@.wf()
    }

    /// Creates the driver. It has no buffers until `init`.
    pub fn new() -> (r: USB)
        ensures
            r@ == (Model {
                state: USBState::WaitingForSetupPacket,
                memory: None,
                next_out_idx: 0,
                cur_out_idx: 0,
                device_class: 0x00,
                vendor_id: 0x0011,
                product_id: 0x7788,
                configuration_value: 0,
            }),
    {
        USB {
            state: USBState::WaitingForSetupPacket,
            memory: None,
            next_out_idx: 0,
            cur_out_idx: 0,
            device_class: 0x00,
            vendor_id: 0x0011,  // unknown counterfeit flash drive
            product_id: 0x7788,  // unknown counterfeit flash drive
            configuration_value: 0,
        }
    }

    // ---- FIFOs ----
    /// Flushes a transmit FIFO.
    ///
    /// `fifo_num` is 0x0-0xF for a particular FIFO, or 0x10 for all FIFOs. Only to
    /// be called when no transaction is under way and no data from this FIFO is
    /// being copied.
    pub fn flush_tx_fifo(&self, fifo_num: u8, actions: &mut Vec<Action>)
        ensures
            final(actions)@ == old(actions)@ + flush_tx_actions(fifo_num),
    {
        let number: u8 = if fifo_num < ALL_TX_FIFOS {
            fifo_num
        } else {
            ALL_TX_FIFOS
        };
        assert(0 <= RESET_FIFO_UNIT * number <= 0x400) by (nonlinear_arith)
            requires
                number <= 0x10,
                RESET_FIFO_UNIT == 0x40,
        ;
        actions.push(
            Action::Write {
                register: Register::Reset,
                value: RESET_TX_FLUSH + RESET_FIFO_UNIT * number as u32,
            },
        );
        actions.push(Action::WaitClear { register: Register::Reset, mask: RESET_TX_FLUSH });
    }

    /// Flushes the receive FIFO.
    ///
    /// Only to be called when no transaction is under way and no data from this
    /// FIFO is being copied.
    pub fn flush_rx_fifo(&self, actions: &mut Vec<Action>)
        ensures
            final(actions)@ == old(actions)@ + flush_rx_actions(),
    {
        actions.push(Action::Write { register: Register::Reset, value: RESET_RX_FLUSH });
        actions.push(Action::WaitClear { register: Register::Reset, mask: RESET_RX_FLUSH });
    }

    // ---- Endpoint 0 ----
    fn offer_out_descriptor(&self, actions: &mut Vec<Action>)
        ensures
            final(actions)@ == old(actions)@ + offer_out_descriptor(self@),
    {
        if self.memory.is_some() {
            actions.push(Action::OutFlags { index: self.next_out_idx, flags: out_ready_flags() });
        }
    }

    fn listen_to_host(&self, actions: &mut Vec<Action>)
        ensures
            final(actions)@ == old(actions)@ + listen_to_host(),
    {
        actions.push(
            Action::Modify {
                register: Register::DeviceAllEpInterruptMask,
                clear: 0,
                set: ALL_EP_OUT0,
            },
        );
        actions.push(
            Action::Modify {
                register: Register::DeviceAllEpInterruptMask,
                clear: ALL_EP_IN0,
                set: 0,
            },
        );
    }

    /// Sets endpoint 0 up to receive a SETUP packet from the host, whose reception
    /// will trigger an interrupt.
    ///
    /// A SETUP packet is less than 64 bytes, so only one OUT descriptor is needed.
    /// IN interrupts are disabled, as the device is not to send anything, and OUT
    /// interrupts are enabled.
    pub fn expect_setup_packet(&mut self, actions: &mut Vec<Action>)
        ensures
            final(self)@ == waiting_model(old(self)@),
            final(self)@.wf(),
            final(actions)@ == old(actions)@ + expect_setup_actions(old(self)@),
    {
        proof {
            use_type_invariant(&*self);
        }
        self.state = USBState::WaitingForSetupPacket;
        self.offer_out_descriptor(actions);
        self.listen_to_host(actions);
        // Clearing the NAK bit tells the host that the device is ready to receive.
        actions.push(
            Action::Write { register: Register::OutControl(0), value: enable_cnak_bits() },
        );
    }

    /// Stalls both the IN and OUT endpoints for endpoint 0.
    ///
    /// A STALL indicates that an endpoint is unable to transmit or receive data.
    /// Stalling while waiting for a SETUP packet forces the host to send a new one;
    /// it tells the host that the request was not understood or is to be sent again.
    pub fn stall_both_fifos(&mut self, actions: &mut Vec<Action>)
        ensures
            final(self)@ == waiting_model(old(self)@),
            final(self)@.wf(),
            final(actions)@ == old(actions)@ + stall_actions(old(self)@),
    {
        proof {
            use_type_invariant(&*self);
        }
        self.state = USBState::WaitingForSetupPacket;
        self.offer_out_descriptor(actions);
        self.listen_to_host(actions);
        actions.push(
            Action::Write { register: Register::OutControl(0), value: enable_stall_bits() },
        );
        self.flush_tx_fifo(0, actions);
        actions.push(
            Action::Write { register: Register::InControl(0), value: enable_stall_bits() },
        );
    }

    /// Swaps which descriptor is set up to receive, so that a new packet can be
    /// received while the current one is processed.
    pub fn got_rx_packet(&mut self, actions: &mut Vec<Action>)
        ensures
            final(self)@ == rx_model(old(self)@),
            final(self)@.wf(),
            final(actions)@ == old(actions)@ + rx_actions(old(self)@),
    {
        proof {
            use_type_invariant(&*self);
        }
        if self.memory.is_some() {
            let noi: usize = self.next_out_idx;
            self.cur_out_idx = noi;
            let noi: usize = (noi + 1) % OUT_DESCRIPTORS;
            self.next_out_idx = noi;
            actions.push(Action::OutDma { index: noi });
        }
    }

    /// Initializes the descriptors of endpoint 0.
    ///
    /// This puts the descriptors into a clean state and waits for a SETUP packet
    /// from the host, the first message of an enumeration.
    pub fn init_descriptors(&mut self, actions: &mut Vec<Action>)
        ensures
            final(self)@ == reset_model(old(self)@),
            final(self)@.wf(),
            final(actions)@ == old(actions)@ + reset_actions(old(self)@),
    {
        proof {
            use_type_invariant(&*self);
        }
        if let Some(memory) = self.memory {
            self.next_out_idx = 0;
            Self::clean_descriptors(memory, actions);
        }
        self.expect_setup_packet(actions);
    }

    fn clean_descriptors(memory: Ep0Memory, actions: &mut Vec<Action>)
        requires
            memory.wf(),
        ensures
            final(actions)@ == old(actions)@ + clean_descriptors(memory),
    {
        let ghost before = actions@;
        let mut i: usize = 0;
        while i < OUT_DESCRIPTORS
            invariant
                i <= OUT_DESCRIPTORS,
                memory.wf(),
                actions@ == before + Seq::new(
                    i as nat,
                    |k: int| idle_out_descriptor(memory, k),
                ),
            decreases OUT_DESCRIPTORS - i,
        {
            actions.push(
                Action::OutDescriptor {
                    index: i,
                    flags: DESC_HOST_BUSY,
                    addr: memory.out_buffers + 64 * i,
                },
            );
            i += 1;
        }
        actions.push(Action::OutDma { index: 0 });
        let ghost between = actions@;
        let mut j: usize = 0;
        while j < IN_DESCRIPTORS
            invariant
                j <= IN_DESCRIPTORS,
                memory.wf(),
                actions@ == between + Seq::new(
                    j as nat,
                    |k: int| idle_in_descriptor(memory, k),
                ),
            decreases IN_DESCRIPTORS - j,
        {
            actions.push(
                Action::InDescriptor {
                    index: j,
                    flags: DESC_HOST_BUSY,
                    addr: memory.in_buffers + 64 * j,
                },
            );
            j += 1;
        }
        actions.push(Action::InDma { index: 0 });
    }

    /// Resets the driver in response to a USB RESET.
    pub fn reset(&mut self, actions: &mut Vec<Action>)
        ensures
            final(self)@ == reset_model(old(self)@),
            final(self)@.wf(),
            final(actions)@ == old(actions)@ + reset_actions(old(self)@),
    {
        proof {
            use_type_invariant(&*self);
        }
        self.state = USBState::WaitingForSetupPacket;
        self.init_descriptors(actions);
    }

    fn start_in_phase(&self, transfer_type: TableCase, actions: &mut Vec<Action>)
        ensures
            final(actions)@ == old(actions)@ + start_in_phase(self@, transfer_type),
    {
        // Clearing the NAK bit where the setup phase is not complete would answer
        // a packet other than the SETUP packet that has to be answered first.
        let control: u32 = if transfer_type == TableCase::C {
            enable_cnak_bits()
        } else {
            EP_ENABLE
        };
        assert(0x0000_0001u32 | 0x0001_0000u32 == 0x0001_0001u32) by (bit_vector);
        self.flush_tx_fifo(0, actions);
        actions.push(Action::InDma { index: 0 });
        actions.push(Action::Write { register: Register::InControl(0), value: control });
        actions.push(Action::OutFlags { index: self.next_out_idx, flags: out_ready_flags() });
        actions.push(Action::Write { register: Register::OutControl(0), value: control });
        actions.push(
            Action::Modify {
                register: Register::DeviceAllEpInterruptMask,
                clear: 0,
                set: ALL_EP_IN0 | ALL_EP_OUT0,
            },
        );
    }

    /// Sends data to the host; the data must already be behind the IN descriptors.
    pub fn expect_data_phase_in(&mut self, transfer_type: TableCase, actions: &mut Vec<Action>)
        ensures
            final(self)@ == (Model { state: USBState::DataStageIn, ..old(self)@ }),
            final(self)@.wf(),
            final(actions)@ == old(actions)@ + data_phase_actions(old(self)@, transfer_type),
    {
        proof {
            use_type_invariant(&*self);
        }
        self.state = USBState::DataStageIn;
        if self.memory.is_some() {
            self.start_in_phase(transfer_type, actions);
        }
    }

    /// Sets endpoint 0 up for a status phase with no data phase.
    pub fn expect_status_phase_in(&mut self, transfer_type: TableCase, actions: &mut Vec<Action>)
        ensures
            final(self)@ == (Model { state: USBState::NoDataStage, ..old(self)@ }),
            final(self)@.wf(),
            final(actions)@ == old(actions)@ + status_phase_actions(old(self)@, transfer_type),
    {
        proof {
            use_type_invariant(&*self);
        }
        self.state = USBState::NoDataStage;
        if let Some(memory) = self.memory {
            // The address does not matter, since the length is zero.
            actions.push(
                Action::InDescriptor {
                    index: 0,
                    flags: in_ready_flags(0),
                    addr: memory.in_buffers,
                },
            );
            self.start_in_phase(transfer_type, actions);
        }
    }

    // ---- Requests ----
    fn fill_in_buffer(bytes: &Vec<u8>, actions: &mut Vec<Action>)
        ensures
            final(actions)@ == old(actions)@ + fill_in_buffer(bytes@),
    {
        let ghost before = actions@;
        let mut i: usize = 0;
        while i < bytes.len()
            invariant
                i <= bytes.len(),
                actions@ == before + fill_in_buffer(bytes@).take(i as int),
            decreases bytes.len() - i,
        {
            actions.push(Action::InByte { offset: i, byte: bytes[i] });
            i += 1;
        }
        assert(fill_in_buffer(bytes@).take(i as int) =~= fill_in_buffer(bytes@));
    }

    fn load_in_descriptors(n: u16, actions: &mut Vec<Action>)
        requires
            n <= 256,
        ensures
            final(actions)@ == old(actions)@ + load_in_descriptors(n as int),
    {
        let ghost before = actions@;
        let ghost all = load_in_descriptors(n as int);
        let mut index: usize = 0;
        let mut left: u16 = n;
        while left > MAX_PACKET_SIZE
            invariant
                n <= 256,
                left == n - 64 * index,
                index > 0 ==> left > 0,
                all == load_in_descriptors(n as int),
                actions@ == before + all.take(index as int),
            decreases left,
        {
            let flags: u32 = DESC_HOST_READY | MAX_PACKET_SIZE as u32;
            assert(0u32 | 64u32 == 64u32) by (bit_vector);
            assert(flags == chunk_flags(n as int, index as int));
            actions.push(Action::InFlags { index, flags });
            assert(all[index as int] == (Action::InFlags { index, flags }));
            left = left - MAX_PACKET_SIZE;
            index += 1;
        }
        actions.push(Action::InFlags { index, flags: in_ready_flags(left) });
        assert(all.take(index as int).push(all[index as int]) =~= all);
    }

    /// Sends bytes to the host, no more than it asked for.
    ///
    /// The bytes go into the IN buffer as one blob. Each IN descriptor sends 64 of
    /// them, so that up to 256 bytes can be sent in one step.
    pub fn reply(
        &mut self,
        transfer_type: TableCase,
        bytes: &Vec<u8>,
        w_length: u16,
        actions: &mut Vec<Action>,
    )
        requires
            bytes@.len() <= 256,
        ensures
            final(self)@ == (Model { state: USBState::DataStageIn, ..old(self)@ }),
            final(self)@.wf(),
            final(actions)@ == old(actions)@ + reply_actions(
                old(self)@,
                transfer_type,
                bytes@,
                w_length,
            ),
    {
        if self.memory.is_some() {
            Self::fill_in_buffer(bytes, actions);
            let len: u16 = if bytes.len() <= w_length as usize {
                bytes.len() as u16
            } else {
                w_length
            };
            Self::load_in_descriptors(len, actions);
        }
        self.expect_data_phase_in(transfer_type, actions);
    }

    fn device_descriptor(&self) -> (r: DeviceDescriptor)
        ensures
            r == device_descriptor(self@),
    {
        DeviceDescriptor {
            b_length: 18,
            b_descriptor_type: 1,
            bcd_usb: 0x0200,
            b_device_class: self.device_class,
            b_device_sub_class: 0x00,
            b_device_protocol: 0x00,
            b_max_packet_size0: MAX_PACKET_SIZE as u8,
            id_vendor: self.vendor_id,
            id_product: self.product_id,
            bcd_device: 0x0100,
            i_manufacturer: 0,
            i_product: 0,
            i_serial_number: 0,
            b_num_configurations: 1,
        }
    }

    /// Handles a standard request in which the device sends data: GET_DESCRIPTOR
    /// for the device, configuration and device qualifier descriptors, and
    /// GET_CONFIGURATION. There is no device qualifier, so that is stalled.
    pub fn handle_setup_device_to_host(
        &mut self,
        transfer_type: TableCase,
        req: &SetupRequest,
        actions: &mut Vec<Action>,
    )
        requires
            device_to_host_fault(*req) is None,
        ensures
            final(self)@ == device_to_host_model(old(self)@, *req),
            final(self)@.wf(),
            final(actions)@ == old(actions)@ + device_to_host_actions(
                old(self)@,
                transfer_type,
                *req,
            ),
    {
        proof {
            use_type_invariant(&*self);
        }
        match req.request() {
            SetupRequestType::GetConfiguration => {
                let mut bytes: Vec<u8> = Vec::new();
                bytes.push(self.configuration_value);
                assert(bytes@ =~= seq![self.configuration_value]);
                self.reply(transfer_type, &bytes, req.w_length, actions);
            },
            _ => {
                let descriptor_type: u8 = req.descriptor_type();
                if descriptor_type == GET_DESCRIPTOR_DEVICE {
                    let bytes: Vec<u8> = self.device_descriptor().serialize();
                    self.reply(transfer_type, &bytes, req.w_length, actions);
                } else if descriptor_type == GET_DESCRIPTOR_CONFIGURATION {
                    let bytes: Vec<u8> = ConfigurationDescriptor::new().into_buf();
                    self.reply(transfer_type, &bytes, req.w_length, actions);
                } else {
                    self.stall_both_fifos(actions);
                }
            },
        }
    }

    /// Handles a standard request without a data stage: SET_ADDRESS and
    /// SET_CONFIGURATION.
    pub fn handle_setup_no_data_phase(
        &mut self,
        transfer_type: TableCase,
        req: &SetupRequest,
        actions: &mut Vec<Action>,
    )
        requires
            no_data_fault(*req) is None,
        ensures
            final(self)@ == no_data_model(old(self)@, *req),
            final(self)@.wf(),
            final(actions)@ == old(actions)@ + no_data_actions(old(self)@, transfer_type, *req),
    {
        proof {
            use_type_invariant(&*self);
        }
        match req.request() {
            SetupRequestType::SetAddress => {
                // The address takes effect after the status phase: the controller
                // knows to wait, so it can be set now.
                let address: u32 = (req.w_value % 0x80) as u32;
                actions.push(
                    Action::Modify {
                        register: Register::DeviceConfig,
                        clear: CONFIG_ADDRESS,
                        set: 0x10 * address,
                    },
                );
            },
            _ => {
                self.configuration_value = (req.w_value % 0x100) as u8;
            },
        }
        self.expect_status_phase_in(transfer_type, actions);
    }

    /// Handles a SETUP packet to endpoint 0 OUT.
    ///
    /// `transfer_type` is the case found in endpoint 0's interrupt register. Only
    /// standard requests to the device are supported; others are passed over,
    /// except that those to an interface, and those that [`Self::request_fault`]
    /// reports, must not be handed over.
    pub fn handle_setup(
        &mut self,
        transfer_type: TableCase,
        req: &SetupRequest,
        actions: &mut Vec<Action>,
    )
        requires
            old(self)@.memory is Some ==> setup_fault(*req) is None,
        ensures
            final(self)@ == setup_model(old(self)@, *req),
            final(self)@.wf(),
            final(actions)@ == old(actions)@ + setup_actions(old(self)@, transfer_type, *req),
    {
        proof {
            use_type_invariant(&*self);
        }
        if self.memory.is_some() && req.req_type() == SetupRequestClass::Standard
            && req.recipient() == SetupRecipient::Device {
            if req.data_direction() == SetupDirection::DeviceToHost {
                self.handle_setup_device_to_host(transfer_type, req, actions);
            } else {
                self.handle_setup_no_data_phase(transfer_type, req, actions);
            }
        }
    }

    /// Why the driver cannot answer a request, if it cannot.
    pub fn request_fault(req: &SetupRequest) -> (r: Option<Fault>)
        ensures
            r == setup_fault(*req),
    {
        if req.req_type() == SetupRequestClass::Standard && req.recipient()
            == SetupRecipient::Device {
            if req.data_direction() == SetupDirection::DeviceToHost {
                match req.request() {
                    SetupRequestType::GetDescriptor => {
                        let descriptor_type: u8 = req.descriptor_type();
                        if descriptor_type == GET_DESCRIPTOR_DEVICE || descriptor_type
                            == GET_DESCRIPTOR_CONFIGURATION || descriptor_type
                            == GET_DESCRIPTOR_DEVICE_QUALIFIER {
                            None
                        } else {
                            Some(Fault::DescriptorType(descriptor_type))
                        }
                    },
                    SetupRequestType::GetConfiguration => None,
                    _ => Some(Fault::DeviceToHostRequest(req.b_request)),
                }
            } else if req.w_length > 0 {
                Some(Fault::HostToDeviceData)
            } else {
                match req.request() {
                    SetupRequestType::GetStatus => Some(Fault::GetStatusNoData),
                    SetupRequestType::SetAddress => None,
                    SetupRequestType::SetConfiguration => None,
                    _ => Some(Fault::NoDataRequest(req.b_request)),
                }
            }
        } else if req.recipient() == SetupRecipient::Interface {
            Some(Fault::InterfaceRecipient)
        } else {
            None
        }
    }

    // ---- Interrupts ----
    /// Handles the IN and OUT events of endpoint 0, after the interrupts have been
    /// acknowledged and the descriptors swapped. `flags` are those of the current
    /// OUT descriptor.
    ///
    /// Returns the case to hand to [`Self::handle_setup`] where the current OUT
    /// buffer holds a SETUP packet that is to be handled.
    pub fn handle_ep0(
        &mut self,
        inter_out: bool,
        inter_in: bool,
        out_interrupts: u32,
        in_interrupts: u32,
        flags: u32,
        actions: &mut Vec<Action>,
    ) -> (r: Option<TableCase>)
        requires
            old(self)@.memory is Some,
            !stray_packet(old(self)@, out_interrupts, flags),
        ensures
            final(self)@ == ep0_model(old(self)@, inter_out, out_interrupts, flags),
            final(self)@.wf(),
            final(actions)@ == old(actions)@ + ep0_actions(
                old(self)@,
                inter_out,
                inter_in,
                out_interrupts,
                in_interrupts,
                flags,
            ),
            r == (if setup_due(old(self)@, inter_out, out_interrupts, flags) {
                Some(decoded(out_interrupts))
            } else {
                None
            }),
    {
        proof {
            use_type_invariant(&*self);
        }
        let transfer_type: TableCase = TableCase::decode_interrupt(out_interrupts);
        let received: bool = transfer_type == TableCase::A || transfer_type == TableCase::C;
        let setup_ready: bool = flags & DESC_SETUP_READY == DESC_SETUP_READY;
        match self.state {
            USBState::WaitingForSetupPacket => {
                if received {
                    return Some(transfer_type);
                } else if transfer_type == TableCase::B {
                    // Only happens when stalling, so keep waiting for a SETUP.
                    self.stall_both_fifos(actions);
                }
            },
            USBState::DataStageIn => {
                if inter_in && in_interrupts & EP_INT_XFER_COMPL != 0 {
                    actions.push(
                        Action::Write { register: Register::InControl(0), value: EP_ENABLE },
                    );
                }
                if inter_out {
                    if transfer_type == TableCase::B {
                        // IN detected
                        Self::clear_naks(actions);
                    } else if received {
                        if setup_ready {
                            return Some(transfer_type);
                        } else {
                            self.expect_setup_packet(actions);
                        }
                    }
                }
            },
            USBState::NoDataStage => {
                if inter_in && in_interrupts & ALL_EP_IN0 != 0 {
                    actions.push(
                        Action::Write { register: Register::InControl(0), value: EP_ENABLE },
                    );
                }
                if inter_out {
                    if transfer_type == TableCase::B {
                        // IN detected
                        Self::clear_naks(actions);
                    } else if received && setup_ready {
                        return Some(transfer_type);
                    } else {
                        self.expect_setup_packet(actions);
                    }
                }
            },
        }
        None
    }

    fn clear_naks(actions: &mut Vec<Action>)
        ensures
            final(actions)@ == old(actions)@ + seq![
                Action::Write { register: Register::InControl(0), value: enable_and_clear_nak() },
                Action::Write { register: Register::OutControl(0), value: enable_and_clear_nak() },
            ],
    {
        actions.push(Action::Write { register: Register::InControl(0), value: enable_cnak_bits() });
        actions.push(
            Action::Write { register: Register::OutControl(0), value: enable_cnak_bits() },
        );
    }

    fn handle_global(status: u32, mask: u32, actions: &mut Vec<Action>)
        ensures
            final(actions)@ == old(actions)@ + global_actions(status, mask),
    {
        if mask & status & SOF != 0 {
            actions.push(Action::Modify { register: Register::InterruptMask, clear: SOF, set: 0 });
        }
        if status & GOUTNAKEFF != 0 {
            actions.push(
                Action::Modify {
                    register: Register::DeviceControl,
                    clear: 0,
                    set: CONTROL_CLEAR_GLOBAL_OUT_NAK,
                },
            );
        }
        if status & GINNAKEFF != 0 {
            actions.push(
                Action::Modify {
                    register: Register::DeviceControl,
                    clear: 0,
                    set: CONTROL_CLEAR_GLOBAL_IN_NAK,
                },
            );
        }
    }

    fn finish_interrupt(&mut self, status: u32, actions: &mut Vec<Action>)
        ensures
            final(self)@ == finish_model(old(self)@, status),
            final(self)@.wf(),
            final(actions)@ == old(actions)@ + finish_actions(old(self)@, status),
    {
        proof {
            use_type_invariant(&*self);
        }
        if status & USB_RESET != 0 {
            self.reset(actions);
        }
        actions.push(Action::Write { register: Register::InterruptStatus, value: status });
    }

    /// Interrupt handler: takes the word that `stage` waits for, and returns the
    /// stage that the handler has come to.
    ///
    /// A run starts with [`Interrupt::Status`] when an interrupt is received on the
    /// USB line, and ends with [`Interrupt::Done`]. After each call the actions are
    /// carried out, and only then the word that the next stage waits for is read.
    ///
    /// Directly handles events related to device initialization, connection and
    /// disconnection, as well as control transfers on endpoint 0. Exactly the
    /// interrupts that were pending at the start are cleared at the end.
    pub fn handle_interrupt(
        &mut self,
        stage: Interrupt,
        word: u32,
        actions: &mut Vec<Action>,
    ) -> (r: Interrupt)
        requires
            stage_fault(old(self)@, stage, word) is None,
        ensures
            final(self)@ == next_model(old(self)@, stage, word),
            final(self)@.wf(),
            final(actions)@ == old(actions)@ + stage_actions(old(self)@, stage, word),
            r == next_stage(old(self)@, stage, word),
    {
        proof {
            use_type_invariant(&*self);
        }
        match stage {
            Interrupt::Status => Interrupt::Mask { status: word },
            Interrupt::Mask { status } => {
                let ghost before = actions@;
                Self::handle_global(status, word, actions);
                proof {
                    let global = global_actions(status, word);
                    lemma_append_none(global);
                    lemma_append_twice(before, global, finish_actions(self@, status));
                }
                if status & (OEPINT | IEPINT) != 0 {
                    Interrupt::AllEndpoints { status }
                } else {
                    self.finish_interrupt(status, actions);
                    Interrupt::Done
                }
            },
            Interrupt::AllEndpoints { status } => {
                let inter_out: bool = word & ALL_EP_OUT0 != 0;
                let inter_in: bool = word & ALL_EP_IN0 != 0;
                if inter_out || inter_in {
                    Interrupt::OutEndpoint { status, inter_out, inter_in }
                } else {
                    self.finish_interrupt(status, actions);
                    Interrupt::Done
                }
            },
            Interrupt::OutEndpoint { status, inter_out, inter_in } => {
                if inter_out {
                    actions.push(
                        Action::Write { register: Register::OutInterrupt(0), value: word },
                    );
                }
                Interrupt::InEndpoint { status, inter_out, inter_in, out_interrupts: word }
            },
            Interrupt::InEndpoint { status, inter_out, inter_in, out_interrupts } => {
                if inter_in {
                    actions.push(Action::Write { register: Register::InInterrupt(0), value: word });
                }
                // Prepare the next OUT descriptor if the transfer is complete.
                if inter_out && out_interrupts & EP_INT_XFER_COMPL != 0 {
                    self.got_rx_packet(actions);
                }
                Interrupt::Flags {
                    status,
                    inter_out,
                    inter_in,
                    out_interrupts,
                    in_interrupts: word,
                    index: self.cur_out_idx,
                }
            },
            Interrupt::Flags {
                status,
                inter_out,
                inter_in,
                out_interrupts,
                in_interrupts,
                index: _,
            } => {
                let ghost before = actions@;
                let ghost m = self@;
                let setup: Option<TableCase> = self.handle_ep0(
                    inter_out,
                    inter_in,
                    out_interrupts,
                    in_interrupts,
                    word,
                    actions,
                );
                proof {
                    let events = ep0_actions(
                        m,
                        inter_out,
                        inter_in,
                        out_interrupts,
                        in_interrupts,
                        word,
                    );
                    lemma_append_none(events);
                    lemma_append_twice(before, events, finish_actions(self@, status));
                }
                match setup {
                    Some(transfer_type) => Interrupt::SetupLow {
                        status,
                        transfer_type,
                        index: self.cur_out_idx,
                    },
                    None => {
                        self.finish_interrupt(status, actions);
                        Interrupt::Done
                    },
                }
            },
            Interrupt::SetupLow { status, transfer_type, index } => Interrupt::SetupHigh {
                status,
                transfer_type,
                index,
                low: word,
            },
            Interrupt::SetupHigh { status, transfer_type, index: _, low } => {
                let ghost before = actions@;
                let ghost m = self@;
                let req: SetupRequest = SetupRequest::new(low, word);
                self.handle_setup(transfer_type, &req, actions);
                proof {
                    lemma_append_twice(
                        before,
                        setup_actions(m, transfer_type, req),
                        finish_actions(self@, status),
                    );
                }
                self.finish_interrupt(status, actions);
                Interrupt::Done
            },
            Interrupt::Done => Interrupt::Done,
        }
    }

    /// Why the interrupt handler cannot go on with `word`, if it cannot.
    pub fn interrupt_fault(&self, stage: Interrupt, word: u32) -> (r: Option<Fault>)
        ensures
            r == stage_fault(self@, stage, word),
    {
        match stage {
            Interrupt::Flags { out_interrupts, .. } => {
                if self.memory.is_none() {
                    return Some(Fault::NotInitialized);
                }
                let transfer_type: TableCase = TableCase::decode_interrupt(out_interrupts);
                if self.state == USBState::WaitingForSetupPacket && (transfer_type == TableCase::A
                    || transfer_type == TableCase::C) && word & DESC_SETUP_READY
                    != DESC_SETUP_READY {
                    Some(Fault::NotSetupPacket)
                } else {
                    None
                }
            },
            Interrupt::SetupHigh { low, .. } => {
                if self.memory.is_none() {
                    None
                } else {
                    Self::request_fault(&SetupRequest::new(low, word))
                }
            },
            _ => None,
        }
    }

    // ---- Startup ----
    /// Initializes the hardware data FIFOs.
    // A size that is too large leaves the size register at 0, which is too small
    // to transfer anything. A `TX_FIFO_SIZE` of 32 works and 512 is too large.
    pub fn setup_data_fifos(&self, actions: &mut Vec<Action>)
        ensures
            final(actions)@ == old(actions)@ + fifo_actions(),
    {
        actions.push(
            Action::Write { register: Register::ReceiveFifoSize, value: RX_FIFO_SIZE as u32 },
        );
        actions.push(
            Action::Write {
                register: Register::TransmitFifoSize,
                value: 0x1_0000 * TX_FIFO_SIZE as u32 + RX_FIFO_SIZE as u32,
            },
        );
        let ghost between = actions@;
        let mut i: u8 = 0;
        while i < IN_EP_TX_FIFOS
            invariant
                i <= IN_EP_TX_FIFOS,
                actions@ == between + tx_fifo_sizes().take(i as int),
            decreases IN_EP_TX_FIFOS - i,
        {
            assert(0 <= i * TX_FIFO_SIZE <= 480) by (nonlinear_arith)
                requires
                    i < 15,
                    TX_FIFO_SIZE == 32,
            ;
            let start: u32 = RX_FIFO_SIZE as u32 + i as u32 * TX_FIFO_SIZE as u32;
            actions.push(
                Action::Write {
                    register: Register::DeviceInEpTxFifoSize(i),
                    value: 0x1_0000 * TX_FIFO_SIZE as u32 + start,
                },
            );
            i += 1;
        }
        assert(tx_fifo_sizes().take(i as int) =~= tx_fifo_sizes());
        self.flush_tx_fifo(ALL_TX_FIFOS, actions);
        self.flush_rx_fifo(actions);
    }

    fn open_region(base: u32, actions: &mut Vec<Action>)
        requires
            base <= u32::MAX - 16,
        ensures
            final(actions)@ == old(actions)@ + open_region(base),
    {
        actions.push(Action::Store { address: base, value: !0u32 });
        actions.push(Action::Store { address: base + 4, value: !0u32 });
        actions.push(Action::Store { address: base + 8, value: !0u32 });
        actions.push(Action::Store { address: base + 12, value: !0u32 });
        assert(!0u32 == u32::MAX) by (bit_vector);
    }

    fn phy_selection(phy: PHY) -> (r: u32)
        ensures
            r == phy_selection(phy),
    {
        assert((1u32 << 15 | 0b100u32 << 4) << 16 == 0x8040_0000u32) by (bit_vector);
        assert((1u32 << 15 | 0b101u32 << 4) << 16 == 0x8050_0000u32) by (bit_vector);
        let sel_phy: u32 = match phy {
            PHY::A => 0b100,  // USB PHY0
            PHY::B => 0b101,  // USB PHY1
        };
        // WRITE mode, PHY selected and active, CUSTOM_CFG register
        (1u32 << 15 | sel_phy << 4) << 16
    }

    fn chip_configuration() -> (r: u32)
        ensures
            r == chip_configuration(),
    {
        assert(1u32 << 6 | 14u32 << 10 | 7u32 == 0x0000_3847u32) by (bit_vector);
        // USB 1.1 full speed, turnaround time, timeout calibration
        1u32 << 6 | 14u32 << 10 | 7
    }

    /// Starts a soft reset of the core. The wait for its end is left to
    /// [`Self::continue_init`]; it gives up if the reset takes too long.
    pub fn soft_reset(&self, actions: &mut Vec<Action>) -> (r: Startup)
        ensures
            final(actions)@ == old(actions)@ + seq![
                Action::Write { register: Register::Reset, value: RESET_CORE },
            ],
            r == (Startup::AwaitReset { timeout: SOFT_RESET_TIMEOUT }),
    {
        actions.push(Action::Write { register: Register::Reset, value: RESET_CORE });
        Startup::AwaitReset { timeout: SOFT_RESET_TIMEOUT }
    }

    /// Initializes the driver in device mode.
    ///
    /// This takes the buffers of endpoint 0 and powers the controller up to its
    /// soft reset; [`Self::continue_init`] does the rest. Once complete, the driver
    /// will begin communicating with a connected host.
    pub fn init(
        &mut self,
        memory: Ep0Memory,
        phy: PHY,
        device_class: Option<u8>,
        vendor_id: Option<u16>,
        product_id: Option<u16>,
        actions: &mut Vec<Action>,
    ) -> (r: Startup)
        requires
            memory.wf(),
        ensures
            final(self)@ == init_model(old(self)@, memory, device_class, vendor_id, product_id),
            final(self)@.wf(),
            final(actions)@ == old(actions)@ + power_up_actions(phy),
            r == (Startup::AwaitReset { timeout: SOFT_RESET_TIMEOUT }),
    {
        proof {
            use_type_invariant(&*self);
        }
        let ghost before = actions@;
        self.memory = Some(memory);
        if let Some(dclass) = device_class {
            self.device_class = dclass;
        }
        if let Some(vid) = vendor_id {
            self.vendor_id = vid;
        }
        if let Some(pid) = product_id {
            self.product_id = pid;
        }
        // GLOBALSEC, GLOBALSEC_DDMA0-DDMA3, GLOBALSEC_DUSB_REGION0-DUSB_REGION3
        Self::open_region(0x4009_0000, actions);
        Self::open_region(0x4009_0080, actions);
        Self::open_region(0x4009_00c0, actions);
        assert(actions@ =~= before + open_all_regions());

        actions.push(Action::EnableClock { clock: ClockLine::Core });
        actions.push(Action::EnableClock { clock: ClockLine::Timer });

        actions.push(Action::Write { register: Register::InterruptMask, value: 0 });
        actions.push(Action::Write { register: Register::DeviceAllEpInterruptMask, value: 0 });
        actions.push(Action::Write { register: Register::DeviceInEpInterruptMask, value: 0 });
        actions.push(Action::Write { register: Register::DeviceOutEpInterruptMask, value: 0 });

        actions.push(Action::Write { register: Register::Gpio, value: Self::phy_selection(phy) });
        actions.push(
            Action::Write {
                register: Register::Configuration,
                value: Self::chip_configuration(),
            },
        );
        self.soft_reset(actions)
    }

    /// Goes on with the initialization: takes the value of the reset register, and
    /// returns the stage that the initialization has come to.
    ///
    /// The wait for the soft reset gives up after a number of polls; the controller
    /// is configured all the same.
    pub fn continue_init(&self, stage: Startup, reset: u32, actions: &mut Vec<Action>) -> (r:
        Startup)
        ensures
            final(actions)@ == old(actions)@ + startup_actions(stage, reset),
            r == next_startup(stage, reset),
    {
        proof {
            lemma_append_none(actions@);
        }
        match stage {
            Startup::AwaitReset { timeout } => {
                if timeout == 0 {
                    self.configure(actions);
                    Startup::Done
                } else if reset & RESET_CORE == RESET_CORE {
                    Startup::AwaitReset { timeout: timeout - 1 }
                } else {
                    Startup::AwaitIdle { timeout: SOFT_RESET_TIMEOUT }
                }
            },
            Startup::AwaitIdle { timeout } => {
                if timeout > 0 && reset & RESET_AHB_IDLE == 0 {
                    Startup::AwaitIdle { timeout: timeout - 1 }
                } else {
                    self.configure(actions);
                    Startup::Done
                }
            },
            Startup::Done => Startup::Done,
        }
    }

    fn clear_interrupts(actions: &mut Vec<Action>)
        ensures
            final(actions)@ == old(actions)@ + clear_interrupts(),
    {
        assert(!0u32 == u32::MAX) by (bit_vector);
        let ghost before = actions@;
        let mut i: u8 = 0;
        while i < ENDPOINTS
            invariant
                i <= ENDPOINTS,
                !0u32 == u32::MAX,
                actions@ == before + Seq::new(
                    i as nat,
                    |k: int|
                        Action::Write {
                            register: Register::OutInterrupt(k as u8),
                            value: u32::MAX,
                        },
                ),
            decreases ENDPOINTS - i,
        {
            actions.push(Action::Write { register: Register::OutInterrupt(i), value: !0u32 });
            i += 1;
        }
        let ghost between = actions@;
        let mut j: u8 = 0;
        while j < ENDPOINTS
            invariant
                j <= ENDPOINTS,
                !0u32 == u32::MAX,
                actions@ == between + Seq::new(
                    j as nat,
                    |k: int|
                        Action::Write {
                            register: Register::InInterrupt(k as u8),
                            value: u32::MAX,
                        },
                ),
            decreases ENDPOINTS - j,
        {
            actions.push(Action::Write { register: Register::InInterrupt(j), value: !0u32 });
            j += 1;
        }
        actions.push(Action::Write { register: Register::InterruptStatus, value: !0u32 });
    }

    fn go_online(actions: &mut Vec<Action>)
        ensures
            final(actions)@ == old(actions)@ + go_online(),
    {
        assert(0x01u32 | 0x02u32 | 0x08u32 == 0x0bu32) by (bit_vector);
        assert(0x01u32 | 0x02u32 == 0x03u32) by (bit_vector);
        assert(0x0400u32 | 0x0100u32 == 0x0500u32) by (bit_vector);
        assert(0x80u32 | 0x40u32 | 0x1000u32 | 0x2000u32 | 0x0008_0000u32 | 0x0004_0000u32
            | 0x0400u32 | 0x0800u32 | 0x08u32 == 0x000c_3cc8u32) by (bit_vector);
        // Device OUT: transfer complete, disabled, SETUP
        actions.push(
            Action::Write {
                register: Register::DeviceOutEpInterruptMask,
                value: EP_INT_XFER_COMPL | EP_INT_DISABLED | EP_INT_SETUP,
            },
        );
        // Device IN: transfer complete, disabled
        actions.push(
            Action::Write {
                register: Register::DeviceInEpInterruptMask,
                value: EP_INT_XFER_COMPL | EP_INT_DISABLED,
            },
        );
        actions.push(
            Action::Write {
                register: Register::InterruptMask,
                value: GOUTNAKEFF | GINNAKEFF | USB_RESET | ENUM_DONE | OEPINT | IEPINT
                    | EARLY_SUSPEND | USB_SUSPEND | SOF,
            },
        );
        // Power-on programming done
        actions.push(
            Action::Modify {
                register: Register::DeviceControl,
                clear: 0,
                set: CONTROL_POWER_ON_DONE,
            },
        );
        actions.push(Action::Nops { count: POWER_ON_NOPS });
        actions.push(
            Action::Modify {
                register: Register::DeviceControl,
                clear: CONTROL_POWER_ON_DONE,
                set: 0,
            },
        );
        actions.push(
            Action::Modify {
                register: Register::DeviceControl,
                clear: 0,
                set: CONTROL_CLEAR_GLOBAL_OUT_NAK | CONTROL_CLEAR_GLOBAL_IN_NAK,
            },
        );
        // Reconnect: allow the core to issue a connect.
        actions.push(
            Action::Modify {
                register: Register::DeviceControl,
                clear: CONTROL_SOFT_DISCONNECT,
                set: 0,
            },
        );
    }

    fn configure(&self, actions: &mut Vec<Action>)
        ensures
            final(actions)@ == old(actions)@ + configure_actions(),
    {
        let ghost before = actions@;
        assert(1u32 | 1u32 << 5 | 1u32 << 7 == 0xa1u32) by (bit_vector);
        assert(0x0000_0003u32 | 0x0080_0000u32 == 0x0080_0003u32) by (bit_vector);
        actions.push(
            Action::Write {
                register: Register::Configuration,
                value: Self::chip_configuration(),
            },
        );
        // Global interrupt unmask, DMA enable, non-periodic transmit FIFO empty
        actions.push(
            Action::Write { register: Register::AhbConfig, value: 1u32 | 1u32 << 5 | 1u32 << 7 },
        );
        // Make sure that the device is in disconnected state.
        actions.push(
            Action::Modify {
                register: Register::DeviceControl,
                clear: 0,
                set: CONTROL_SOFT_DISCONNECT,
            },
        );
        actions.push(
            Action::Modify {
                register: Register::DeviceConfig,
                clear: 0,
                set: CONFIG_FULL_SPEED | CONFIG_SCATTER_GATHER,
            },
        );
        let ghost core = actions@.skip(before.len() as int);
        assert(actions@ =~= before + core);
        self.setup_data_fifos(actions);
        Self::clear_interrupts(actions);
        Self::go_online(actions);
        proof {
            lemma_append_twice(before, core, fifo_actions());
            lemma_append_twice(before, core + fifo_actions(), clear_interrupts());
            lemma_append_twice(before, core + fifo_actions() + clear_interrupts(), go_online());
            assert(core + fifo_actions() + clear_interrupts() + go_online()
                == configure_actions());
        }
    }
}

} // verus!
