use hotel_usb::action::{Action, Register, Source};
use hotel_usb::driver::USB;
use hotel_usb::interrupt::Interrupt;
use hotel_usb::model::Ep0Memory;
use hotel_usb::request::Fault;
use hotel_usb::setup::SetupRequest;
use hotel_usb::startup::PHY;
use hotel_usb::table_case::TableCase;

const OUT_BUFFERS: usize = 0x1_0000;
const IN_BUFFERS: usize = 0x1_1000;

const SOF: u32 = 1 << 3;
const GINNAKEFF: u32 = 1 << 6;
const GOUTNAKEFF: u32 = 1 << 7;
const USB_RESET: u32 = 1 << 12;
const IEPINT: u32 = 1 << 18;
const OEPINT: u32 = 1 << 19;

const IN0: u32 = 1 << 0;
const OUT0: u32 = 1 << 16;

const XFER_COMPL: u32 = 1 << 0;
const SETUP: u32 = 1 << 3;
const STS_PHSE_RCVD: u32 = 1 << 5;
const CASE_A: u32 = XFER_COMPL;
const CASE_B: u32 = SETUP;
const CASE_C: u32 = XFER_COMPL | SETUP;
const CASE_D: u32 = STS_PHSE_RCVD;

const SETUP_READY: u32 = 1 << 24;
const HOST_BUSY: u32 = 0b11 << 30;
const OUT_READY: u32 = 1 << 27 | 1 << 25 | 64;
const IN_READY: u32 = 1 << 27 | 1 << 26 | 1 << 25;

const ENABLE: u32 = 1 << 31;
const CNAK: u32 = 1 << 26;
const STALL: u32 = 1 << 21;

const GET_DEVICE: (u32, u32) = (0x0100_0680, 64 << 16);
const GET_CONFIGURATION_DESCRIPTOR: (u32, u32) = (0x0200_0680, 255 << 16);
const GET_QUALIFIER: (u32, u32) = (0x0600_0680, 10 << 16);
const SET_ADDRESS_5: (u32, u32) = (0x0005_0500, 0);

fn write(register: Register, value: u32) -> Action {
    Action::Write { register, value }
}

fn mask(clear: u32, set: u32) -> Action {
    Action::Modify {
        register: Register::DeviceAllEpInterruptMask,
        clear,
        set,
    }
}

fn flush() -> Vec<Action> {
    vec![
        write(Register::Reset, 0x20),
        Action::WaitClear { register: Register::Reset, mask: 0x20 },
    ]
}

fn expect_setup(next: usize) -> Vec<Action> {
    vec![
        Action::OutFlags { index: next, flags: OUT_READY },
        mask(0, OUT0),
        mask(IN0, 0),
        write(Register::OutControl(0), ENABLE | CNAK),
    ]
}

fn stall(next: usize) -> Vec<Action> {
    let mut actions = vec![
        Action::OutFlags { index: next, flags: OUT_READY },
        mask(0, OUT0),
        mask(IN0, 0),
        write(Register::OutControl(0), ENABLE | STALL),
    ];
    actions.extend(flush());
    actions.push(write(Register::InControl(0), ENABLE | STALL));
    actions
}

fn start(next: usize, control: u32) -> Vec<Action> {
    let mut actions = flush();
    actions.extend([
        Action::InDma { index: 0 },
        write(Register::InControl(0), control),
        Action::OutFlags { index: next, flags: OUT_READY },
        write(Register::OutControl(0), control),
        mask(0, IN0 | OUT0),
    ]);
    actions
}

fn reply(bytes: &[u8], length: u32, next: usize, control: u32) -> Vec<Action> {
    let mut actions = Vec::new();
    for (offset, byte) in bytes.iter().enumerate() {
        actions.push(Action::InByte { offset, byte: *byte });
    }
    actions.push(Action::InFlags { index: 0, flags: IN_READY | length });
    actions.extend(start(next, control));
    actions
}

/// A driver with its buffers, before the first USB RESET.
fn driver() -> USB {
    let mut usb = USB::new();
    let memory = Ep0Memory {
        out_buffers: OUT_BUFFERS,
        in_buffers: IN_BUFFERS,
    };
    usb.init(memory, PHY::A, None, None, None, &mut Vec::new());
    usb
}

/// Hands words over until they run out; gives the actions and the stage reached.
fn run(usb: &mut USB, words: &[u32]) -> (Vec<Action>, Interrupt) {
    let mut actions = Vec::new();
    let mut stage = Interrupt::Status;
    for word in words {
        assert_eq!(usb.interrupt_fault(stage, *word), None);
        stage = usb.handle_interrupt(stage, *word, &mut actions);
    }
    (actions, stage)
}

/// The fault that the last word brings.
fn fault(usb: &mut USB, words: &[u32]) -> Option<Fault> {
    let last = words.len() - 1;
    let (_, stage) = run(usb, &words[..last]);
    usb.interrupt_fault(stage, words[last])
}

/// A run that brings a SETUP packet; gives the actions after the packet was read.
fn setup(usb: &mut USB, case: u32, packet: (u32, u32)) -> Vec<Action> {
    let (_, stage) = run(usb, &[OEPINT, 0, OUT0, case, 0, SETUP_READY]);
    assert!(matches!(stage, Interrupt::SetupLow { .. }));
    let mut actions = Vec::new();
    let stage = usb.handle_interrupt(stage, packet.0, &mut actions);
    assert!(actions.is_empty());
    assert_eq!(usb.interrupt_fault(stage, packet.1), None);
    let stage = usb.handle_interrupt(stage, packet.1, &mut actions);
    assert_eq!(stage, Interrupt::Done);
    assert_eq!(actions.pop(), Some(write(Register::InterruptStatus, OEPINT)));
    actions
}

#[test]
fn usb_reset_cleans_the_descriptors() {
    let mut usb = driver();
    let (actions, stage) = run(&mut usb, &[USB_RESET, 0]);
    let mut expected = vec![
        Action::OutDescriptor { index: 0, flags: HOST_BUSY, addr: OUT_BUFFERS },
        Action::OutDescriptor { index: 1, flags: HOST_BUSY, addr: OUT_BUFFERS + 64 },
        Action::OutDma { index: 0 },
        Action::InDescriptor { index: 0, flags: HOST_BUSY, addr: IN_BUFFERS },
        Action::InDescriptor { index: 1, flags: HOST_BUSY, addr: IN_BUFFERS + 64 },
        Action::InDescriptor { index: 2, flags: HOST_BUSY, addr: IN_BUFFERS + 128 },
        Action::InDescriptor { index: 3, flags: HOST_BUSY, addr: IN_BUFFERS + 192 },
        Action::InDma { index: 0 },
    ];
    expected.extend(expect_setup(0));
    expected.push(write(Register::InterruptStatus, USB_RESET));
    assert_eq!(actions, expected);
    assert_eq!(stage, Interrupt::Done);
}

#[test]
fn usb_reset_before_init_has_no_descriptors_to_clean() {
    let mut usb = USB::new();
    let (actions, stage) = run(&mut usb, &[USB_RESET, 0]);
    assert_eq!(
        actions,
        vec![
            mask(0, OUT0),
            mask(IN0, 0),
            write(Register::OutControl(0), ENABLE | CNAK),
            write(Register::InterruptStatus, USB_RESET),
        ]
    );
    assert_eq!(stage, Interrupt::Done);
}

#[test]
fn usb_reset_starts_over_with_the_first_buffer() {
    let mut usb = driver();
    setup(&mut usb, CASE_C, GET_DEVICE);
    run(&mut usb, &[USB_RESET, 0]);
    let (actions, stage) = run(&mut usb, &[OEPINT, 0, OUT0, CASE_C, 0]);
    assert_eq!(actions[1], Action::OutDma { index: 1 });
    assert_eq!(stage.source(), Some(Source::OutFlags(0)));
}

#[test]
fn global_interrupts() {
    let mut usb = driver();
    let status = SOF | GOUTNAKEFF | GINNAKEFF;
    let (actions, stage) = run(&mut usb, &[status, SOF]);
    assert_eq!(
        actions,
        vec![
            Action::Modify { register: Register::InterruptMask, clear: SOF, set: 0 },
            Action::Modify { register: Register::DeviceControl, clear: 0, set: 1 << 10 },
            Action::Modify { register: Register::DeviceControl, clear: 0, set: 1 << 8 },
            write(Register::InterruptStatus, status),
        ]
    );
    assert_eq!(stage, Interrupt::Done);
}

#[test]
fn start_of_frame_that_is_masked_is_left_alone() {
    let (actions, _) = run(&mut driver(), &[SOF, !SOF]);
    assert_eq!(actions, vec![write(Register::InterruptStatus, SOF)]);
}

#[test]
fn words_are_asked_for_in_order() {
    let mut usb = driver();
    let words = [OEPINT | IEPINT, 0, OUT0 | IN0, CASE_C, 0x1f, SETUP_READY, GET_DEVICE.0];
    let sources = [
        Source::Register(Register::InterruptStatus),
        Source::Register(Register::InterruptMask),
        Source::Register(Register::DeviceAllEpInterrupt),
        Source::Register(Register::OutInterrupt(0)),
        Source::Register(Register::InInterrupt(0)),
        Source::OutFlags(0),
        Source::OutWord { index: 0, word: 0 },
        Source::OutWord { index: 0, word: 1 },
    ];
    let mut actions = Vec::new();
    let mut stage = Interrupt::Status;
    for i in 0..7 {
        assert_eq!(stage.source(), Some(sources[i]));
        stage = usb.handle_interrupt(stage, words[i], &mut actions);
    }
    assert_eq!(stage.source(), Some(sources[7]));
    assert_eq!(
        actions,
        vec![
            write(Register::OutInterrupt(0), CASE_C),
            write(Register::InInterrupt(0), 0x1f),
            Action::OutDma { index: 1 },
        ]
    );
    stage = usb.handle_interrupt(stage, GET_DEVICE.1, &mut actions);
    assert_eq!(stage.source(), None);
    assert_eq!(actions.last(), Some(&write(Register::InterruptStatus, OEPINT | IEPINT)));
}

#[test]
fn other_endpoints_are_only_acknowledged() {
    let (actions, stage) = run(&mut driver(), &[OEPINT, 0, 1 << 17 | 1 << 1]);
    assert_eq!(actions, vec![write(Register::InterruptStatus, OEPINT)]);
    assert_eq!(stage, Interrupt::Done);
}

#[test]
fn done_stays_done() {
    let mut usb = driver();
    let mut actions = Vec::new();
    assert_eq!(usb.handle_interrupt(Interrupt::Done, 7, &mut actions), Interrupt::Done);
    assert!(actions.is_empty());
}

#[test]
fn buffers_take_turns() {
    let mut usb = driver();
    for (received, next) in [(0usize, 1usize), (1, 0), (0, 1)] {
        let mut actions = Vec::new();
        let (first, stage) = run(&mut usb, &[OEPINT, 0, OUT0, CASE_C, 0]);
        assert_eq!(first[1], Action::OutDma { index: next });
        assert_eq!(stage.source(), Some(Source::OutFlags(received)));
        let stage = usb.handle_interrupt(stage, SETUP_READY, &mut actions);
        assert_eq!(stage.source(), Some(Source::OutWord { index: received, word: 0 }));
    }
}

#[test]
fn got_rx_packet_before_init_does_nothing() {
    let mut usb = USB::new();
    let mut actions = Vec::new();
    usb.got_rx_packet(&mut actions);
    assert!(actions.is_empty());
}

#[test]
fn device_descriptor_of_the_default_device() {
    let mut usb = driver();
    let bytes = [18, 1, 0x00, 0x02, 0, 0, 0, 64, 0x11, 0x00, 0x88, 0x77, 0x00, 0x01, 0, 0, 0, 1];
    let actions = setup(&mut usb, CASE_C, GET_DEVICE);
    assert_eq!(actions, reply(&bytes, 18, 1, ENABLE | CNAK));
}

#[test]
fn device_descriptor_of_a_device_with_an_identity() {
    let mut usb = USB::new();
    let memory = Ep0Memory {
        out_buffers: OUT_BUFFERS,
        in_buffers: IN_BUFFERS,
    };
    usb.init(memory, PHY::B, Some(0xff), Some(0x18d1), Some(0x5026), &mut Vec::new());
    let bytes =
        [18, 1, 0x00, 0x02, 0xff, 0, 0, 64, 0xd1, 0x18, 0x26, 0x50, 0x00, 0x01, 0, 0, 0, 1];
    let actions = setup(&mut usb, CASE_C, GET_DEVICE);
    assert_eq!(actions, reply(&bytes, 18, 1, ENABLE | CNAK));
}

#[test]
fn replies_are_cut_off_at_the_requested_length() {
    let mut usb = driver();
    let bytes = [18, 1, 0x00, 0x02, 0, 0, 0, 64, 0x11, 0x00, 0x88, 0x77, 0x00, 0x01, 0, 0, 0, 1];
    let actions = setup(&mut usb, CASE_A, (GET_DEVICE.0, 8 << 16));
    assert_eq!(actions, reply(&bytes, 8, 1, ENABLE));
    let actions = setup(&mut usb, CASE_A, (GET_DEVICE.0, 17 << 16));
    assert_eq!(actions, reply(&bytes, 17, 0, ENABLE));
    let actions = setup(&mut usb, CASE_A, (GET_DEVICE.0, 0));
    assert_eq!(actions, reply(&bytes, 0, 1, ENABLE));
}

#[test]
fn configuration_descriptor_is_sent() {
    let mut usb = driver();
    let actions = setup(&mut usb, CASE_C, GET_CONFIGURATION_DESCRIPTOR);
    assert_eq!(actions, reply(&[9, 2, 9, 0, 0, 1, 0, 0x80, 50], 9, 1, ENABLE | CNAK));
}

/// The flags that a reply of this many bytes gives the IN descriptors.
fn reply_flags(available: usize, w_length: u16) -> Vec<(usize, u32)> {
    let mut usb = driver();
    let mut actions = Vec::new();
    let bytes: Vec<u8> = (0..available).map(|i| (i % 251) as u8).collect();
    usb.reply(TableCase::C, &bytes, w_length, &mut actions);
    for (offset, byte) in bytes.iter().enumerate() {
        assert_eq!(actions[offset], Action::InByte { offset, byte: *byte });
    }
    let tail = start(0, ENABLE | CNAK);
    let end = actions.len() - tail.len();
    assert_eq!(actions[end..], tail[..]);
    let mut flags = Vec::new();
    for action in &actions[available..end] {
        match action {
            Action::InFlags { index, flags: value } => flags.push((*index, *value)),
            _ => panic!("{:?}", action),
        }
    }
    flags
}

#[test]
fn long_replies_use_several_descriptors_in_sequence() {
    assert_eq!(reply_flags(0, 64), vec![(0, IN_READY)]);
    assert_eq!(reply_flags(64, 255), vec![(0, IN_READY | 64)]);
    assert_eq!(reply_flags(65, 255), vec![(0, 64), (1, IN_READY | 1)]);
    assert_eq!(reply_flags(128, 255), vec![(0, 64), (1, IN_READY | 64)]);
    assert_eq!(
        reply_flags(200, 255),
        vec![(0, 64), (1, 64), (2, 64), (3, IN_READY | 8)]
    );
    assert_eq!(
        reply_flags(256, 256),
        vec![(0, 64), (1, 64), (2, 64), (3, IN_READY | 64)]
    );
}

#[test]
fn long_replies_are_cut_off_at_the_requested_length() {
    assert_eq!(reply_flags(256, 64), vec![(0, IN_READY | 64)]);
    assert_eq!(reply_flags(256, 130), vec![(0, 64), (1, 64), (2, IN_READY | 2)]);
    assert_eq!(reply_flags(256, 0), vec![(0, IN_READY)]);
}

#[test]
fn device_qualifier_is_stalled() {
    let mut usb = driver();
    assert_eq!(setup(&mut usb, CASE_C, GET_QUALIFIER), stall(1));
    // The host sends a new SETUP packet, which is handled.
    assert!(!setup(&mut usb, CASE_C, GET_DEVICE).is_empty());
}

#[test]
fn address_goes_into_the_device_configuration() {
    let mut usb = driver();
    let mut expected = vec![
        Action::Modify { register: Register::DeviceConfig, clear: 0x7f0, set: 0x50 },
        Action::InDescriptor { index: 0, flags: IN_READY, addr: IN_BUFFERS },
    ];
    expected.extend(start(1, ENABLE | CNAK));
    assert_eq!(setup(&mut usb, CASE_C, SET_ADDRESS_5), expected);
    // Only seven bits of the value are the address.
    let actions = setup(&mut usb, CASE_C, (0x00ff_0500, 0));
    assert_eq!(
        actions[0],
        Action::Modify { register: Register::DeviceConfig, clear: 0x7f0, set: 0x7f0 }
    );
}

#[test]
fn chosen_configuration_reads_back() {
    let mut usb = driver();
    let get = (0x0000_0880, 1 << 16);
    assert_eq!(setup(&mut usb, CASE_C, get), reply(&[0], 1, 1, ENABLE | CNAK));
    let mut expected = vec![Action::InDescriptor { index: 0, flags: IN_READY, addr: IN_BUFFERS }];
    expected.extend(start(0, ENABLE));
    assert_eq!(setup(&mut usb, CASE_A, (0x0107_0900, 0)), expected);
    run(&mut usb, &[USB_RESET, 0]);
    assert_eq!(setup(&mut usb, CASE_C, get), reply(&[7], 1, 1, ENABLE | CNAK));
    assert_eq!(setup(&mut usb, CASE_C, (0x0000_0880, 0)), reply(&[7], 0, 0, ENABLE | CNAK));
}

#[test]
fn foreign_requests_do_nothing() {
    let mut usb = driver();
    // Class and vendor requests to the device, standard requests to an endpoint.
    for low in [0x0000_06a0u32, 0x0000_0640, 0x0000_0082] {
        assert_eq!(setup(&mut usb, CASE_C, (low, 0)), vec![]);
    }
}

#[test]
fn setup_before_init_does_nothing() {
    let mut usb = USB::new();
    let mut actions = Vec::new();
    let req = SetupRequest::new(GET_DEVICE.0, GET_DEVICE.1);
    usb.handle_setup(TableCase::C, &req, &mut actions);
    assert!(actions.is_empty());
}

#[test]
fn setup_phase_done_while_waiting_stalls() {
    let mut usb = driver();
    let (actions, stage) = run(&mut usb, &[OEPINT, 0, OUT0, CASE_B, 0, 0]);
    let mut expected = vec![write(Register::OutInterrupt(0), CASE_B)];
    expected.extend(stall(0));
    expected.push(write(Register::InterruptStatus, OEPINT));
    assert_eq!(actions, expected);
    assert_eq!(stage, Interrupt::Done);
}

#[test]
fn status_phase_while_waiting_is_passed_over() {
    let mut usb = driver();
    let (actions, _) = run(&mut usb, &[OEPINT, 0, OUT0, CASE_D, 0, 0]);
    assert_eq!(
        actions,
        vec![
            write(Register::OutInterrupt(0), CASE_D),
            write(Register::InterruptStatus, OEPINT),
        ]
    );
}

/// What a run does about endpoint 0 after its interrupts were acknowledged.
fn events(usb: &mut USB, daint: u32, out: u32, inn: u32, flags: u32) -> Vec<Action> {
    let (before, stage) = run(usb, &[OEPINT, 0, daint, out, inn]);
    assert!(matches!(stage, Interrupt::Flags { .. }));
    assert!(!before.is_empty());
    let mut actions = Vec::new();
    let stage = usb.handle_interrupt(stage, flags, &mut actions);
    if stage == Interrupt::Done {
        assert_eq!(actions.pop(), Some(write(Register::InterruptStatus, OEPINT)));
    }
    actions
}

#[test]
fn data_stage() {
    let mut usb = driver();
    setup(&mut usb, CASE_C, GET_DEVICE);
    assert_eq!(
        events(&mut usb, IN0, 0, XFER_COMPL, 0),
        vec![write(Register::InControl(0), ENABLE)]
    );
    assert_eq!(events(&mut usb, IN0, 0, 2, 0), vec![]);
    assert_eq!(
        events(&mut usb, OUT0 | IN0, CASE_B, XFER_COMPL, 0),
        vec![
            write(Register::InControl(0), ENABLE),
            write(Register::InControl(0), ENABLE | CNAK),
            write(Register::OutControl(0), ENABLE | CNAK),
        ]
    );
    assert_eq!(events(&mut usb, OUT0, CASE_D, 0, 0), vec![]);
    // The packet that ends the transfer: a SETUP packet is expected again.
    assert_eq!(events(&mut usb, OUT0, CASE_A, 0, 0), expect_setup(0));
    assert_eq!(events(&mut usb, OUT0, CASE_B, 0, 0), stall(0));
}

#[test]
fn data_stage_can_be_cut_short_by_a_setup_packet() {
    let mut usb = driver();
    setup(&mut usb, CASE_C, GET_DEVICE);
    let mut expected = vec![
        Action::Modify { register: Register::DeviceConfig, clear: 0x7f0, set: 0x50 },
        Action::InDescriptor { index: 0, flags: IN_READY, addr: IN_BUFFERS },
    ];
    expected.extend(start(0, ENABLE | CNAK));
    assert_eq!(setup(&mut usb, CASE_C, SET_ADDRESS_5), expected);
}

#[test]
fn no_data_stage() {
    let mut usb = driver();
    setup(&mut usb, CASE_C, SET_ADDRESS_5);
    assert_eq!(
        events(&mut usb, IN0, 0, XFER_COMPL, 0),
        vec![write(Register::InControl(0), ENABLE)]
    );
    assert_eq!(
        events(&mut usb, OUT0, CASE_B, 0, 0),
        vec![
            write(Register::InControl(0), ENABLE | CNAK),
            write(Register::OutControl(0), ENABLE | CNAK),
        ]
    );
    assert_eq!(events(&mut usb, OUT0, CASE_D, 0, 0), expect_setup(1));
    setup(&mut usb, CASE_C, SET_ADDRESS_5);
    assert_eq!(events(&mut usb, OUT0, CASE_A, 0, 0), expect_setup(1));
}

#[test]
fn faults_of_endpoint_0() {
    let stray = [OEPINT, 0, OUT0, CASE_A, 0, 0];
    assert_eq!(fault(&mut USB::new(), &stray), Some(Fault::NotInitialized));
    assert_eq!(fault(&mut driver(), &stray), Some(Fault::NotSetupPacket));
    let mut usb = driver();
    setup(&mut usb, CASE_C, GET_DEVICE);
    assert_eq!(fault(&mut usb, &stray), None);
}

#[test]
fn faults_of_requests() {
    let of = |low: u32, high: u32| {
        let words = [OEPINT, 0, OUT0, CASE_C, 0, SETUP_READY, low, high];
        let found = fault(&mut driver(), &words);
        assert_eq!(found, USB::request_fault(&SetupRequest::new(low, high)));
        found
    };
    assert_eq!(of(0x0000_0681, 0), Some(Fault::InterfaceRecipient));
    assert_eq!(of(0x0000_0621, 0), Some(Fault::InterfaceRecipient));
    assert_eq!(of(0x0000_0700, 1 << 16), Some(Fault::HostToDeviceData));
    assert_eq!(of(0x0000_0000, 0), Some(Fault::GetStatusNoData));
    assert_eq!(of(0x0300_0680, 0), Some(Fault::DescriptorType(3)));
    assert_eq!(of(0x0000_0080, 2 << 16), Some(Fault::DeviceToHostRequest(0)));
    assert_eq!(of(0x0000_0100, 0), Some(Fault::NoDataRequest(1)));
    assert_eq!(of(0x0000_0800, 0), Some(Fault::NoDataRequest(8)));
    assert_eq!(of(GET_QUALIFIER.0, GET_QUALIFIER.1), None);
    assert_eq!(of(0x0000_06a0, 0), None);
}
