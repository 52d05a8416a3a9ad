use hotel_usb::action::{Action, ClockLine, Register, Source};
use hotel_usb::driver::USB;
use hotel_usb::model::Ep0Memory;
use hotel_usb::startup::{Startup, PHY};

const MEMORY: Ep0Memory = Ep0Memory {
    out_buffers: 0x1_0000,
    in_buffers: 0x1_1000,
};

const IN_RESET: u32 = 1;
const BUSY: u32 = 0;
const IDLE: u32 = 0x8000_0000;

fn write(register: Register, value: u32) -> Action {
    Action::Write { register, value }
}

fn started(phy: PHY) -> (USB, Vec<Action>, Startup) {
    let mut usb = USB::new();
    let mut actions = Vec::new();
    let stage = usb.init(MEMORY, phy, None, None, None, &mut actions);
    (usb, actions, stage)
}

#[test]
fn init_powers_the_controller_up() {
    let (_, actions, stage) = started(PHY::A);
    let mut expected: Vec<Action> = Vec::new();
    for address in [
        0x4009_0000u32, 0x4009_0004, 0x4009_0008, 0x4009_000c, 0x4009_0080, 0x4009_0084,
        0x4009_0088, 0x4009_008c, 0x4009_00c0, 0x4009_00c4, 0x4009_00c8, 0x4009_00cc,
    ] {
        expected.push(Action::Store { address, value: !0 });
    }
    expected.extend([
        Action::EnableClock { clock: ClockLine::Core },
        Action::EnableClock { clock: ClockLine::Timer },
        write(Register::InterruptMask, 0),
        write(Register::DeviceAllEpInterruptMask, 0),
        write(Register::DeviceInEpInterruptMask, 0),
        write(Register::DeviceOutEpInterruptMask, 0),
        write(Register::Gpio, 0x8040_0000),
        write(Register::Configuration, 0x3847),
        write(Register::Reset, 1),
    ]);
    assert_eq!(actions, expected);
    assert_eq!(stage, Startup::AwaitReset { timeout: 10000 });
    assert_eq!(stage.source(), Some(Source::Register(Register::Reset)));
}

#[test]
fn init_selects_the_other_phy() {
    let (_, actions, _) = started(PHY::B);
    assert!(actions.contains(&write(Register::Gpio, 0x8050_0000)));
}

#[test]
fn configuration_follows_the_soft_reset() {
    let (usb, _, stage) = started(PHY::A);
    let mut actions = Vec::new();
    let stage = usb.continue_init(stage, IN_RESET, &mut actions);
    assert_eq!(stage, Startup::AwaitReset { timeout: 9999 });
    let stage = usb.continue_init(stage, BUSY, &mut actions);
    assert_eq!(stage, Startup::AwaitIdle { timeout: 10000 });
    let stage = usb.continue_init(stage, BUSY, &mut actions);
    assert_eq!(stage, Startup::AwaitIdle { timeout: 9999 });
    assert!(actions.is_empty());
    let stage = usb.continue_init(stage, IDLE, &mut actions);
    assert_eq!(stage, Startup::Done);
    assert_eq!(stage.source(), None);

    let mut expected = vec![
        write(Register::Configuration, 0x3847),
        write(Register::AhbConfig, 0xa1),
        Action::Modify { register: Register::DeviceControl, clear: 0, set: 1 << 1 },
        Action::Modify { register: Register::DeviceConfig, clear: 0, set: 1 << 23 | 0b11 },
        write(Register::ReceiveFifoSize, 512),
        write(Register::TransmitFifoSize, 32 << 16 | 512),
    ];
    for i in 0..15u8 {
        expected.push(write(
            Register::DeviceInEpTxFifoSize(i),
            32 << 16 | (512 + 32 * i as u32),
        ));
    }
    expected.extend([
        write(Register::Reset, 1 << 5 | 0x10 << 6),
        Action::WaitClear { register: Register::Reset, mask: 1 << 5 },
        write(Register::Reset, 1 << 4),
        Action::WaitClear { register: Register::Reset, mask: 1 << 4 },
    ]);
    for ep in 0..16u8 {
        expected.push(write(Register::OutInterrupt(ep), !0));
    }
    for ep in 0..16u8 {
        expected.push(write(Register::InInterrupt(ep), !0));
    }
    expected.extend([
        write(Register::InterruptStatus, !0),
        write(Register::DeviceOutEpInterruptMask, 1 << 0 | 1 << 1 | 1 << 3),
        write(Register::DeviceInEpInterruptMask, 1 << 0 | 1 << 1),
        write(
            Register::InterruptMask,
            1 << 3 | 1 << 6 | 1 << 7 | 1 << 10 | 1 << 11 | 1 << 12 | 1 << 13 | 1 << 18 | 1 << 19,
        ),
        Action::Modify { register: Register::DeviceControl, clear: 0, set: 1 << 11 },
        Action::Nops { count: 10000 },
        Action::Modify { register: Register::DeviceControl, clear: 1 << 11, set: 0 },
        Action::Modify { register: Register::DeviceControl, clear: 0, set: 1 << 10 | 1 << 8 },
        Action::Modify { register: Register::DeviceControl, clear: 1 << 1, set: 0 },
    ]);
    assert_eq!(actions, expected);
    assert_eq!(usb.continue_init(stage, IDLE, &mut actions), Startup::Done);
    assert_eq!(actions, expected);
}

#[test]
fn soft_reset_gives_up_on_a_core_that_stays_in_reset() {
    let (usb, _, mut stage) = started(PHY::A);
    let mut actions = Vec::new();
    let mut polls = 0;
    while stage.source().is_some() {
        stage = usb.continue_init(stage, IN_RESET, &mut actions);
        polls += 1;
    }
    assert_eq!(polls, 10001);
    assert_eq!(actions[0], write(Register::Configuration, 0x3847));
    assert_eq!(actions.len(), 4 + 2 + 15 + 4 + 33 + 8);
}

#[test]
fn soft_reset_gives_up_on_a_bus_that_stays_busy() {
    let (usb, _, mut stage) = started(PHY::A);
    let mut actions = Vec::new();
    let mut polls = 0;
    while stage.source().is_some() {
        stage = usb.continue_init(stage, BUSY, &mut actions);
        polls += 1;
    }
    assert_eq!(polls, 1 + 10001);
    assert_eq!(actions.len(), 4 + 2 + 15 + 4 + 33 + 8);
}

#[test]
fn a_reset_that_ends_with_the_last_poll_is_too_late() {
    let (usb, _, _) = started(PHY::A);
    let mut actions = Vec::new();
    let last = Startup::AwaitReset { timeout: 0 };
    assert_eq!(usb.continue_init(last, BUSY, &mut actions), Startup::Done);
    let before_last = Startup::AwaitReset { timeout: 1 };
    assert_eq!(
        usb.continue_init(before_last, BUSY, &mut actions),
        Startup::AwaitIdle { timeout: 10000 }
    );
}

#[test]
fn flushing_a_transmit_fifo() {
    let usb = USB::new();
    for (number, value) in [(0u8, 0x020u32), (1, 0x060), (15, 0x3e0), (16, 0x420), (200, 0x420)] {
        let mut actions = Vec::new();
        usb.flush_tx_fifo(number, &mut actions);
        assert_eq!(
            actions,
            vec![
                write(Register::Reset, value),
                Action::WaitClear { register: Register::Reset, mask: 0x20 },
            ]
        );
    }
}

#[test]
fn flushing_the_receive_fifo() {
    let mut actions = Vec::new();
    USB::new().flush_rx_fifo(&mut actions);
    assert_eq!(
        actions,
        vec![
            write(Register::Reset, 0x10),
            Action::WaitClear { register: Register::Reset, mask: 0x10 },
        ]
    );
}
