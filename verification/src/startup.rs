//! Bringing the controller up in device mode.
use vstd::prelude::*;

use crate::action::{Action, ClockLine, Register, Source};
use crate::constants::{
    ALL_TX_FIFOS, CONFIG_FULL_SPEED, CONFIG_SCATTER_GATHER, CONTROL_CLEAR_GLOBAL_IN_NAK,
    CONTROL_CLEAR_GLOBAL_OUT_NAK, CONTROL_POWER_ON_DONE, CONTROL_SOFT_DISCONNECT, EARLY_SUSPEND,
    ENDPOINTS, ENUM_DONE, EP_INT_DISABLED, EP_INT_SETUP, EP_INT_XFER_COMPL, GINNAKEFF, GOUTNAKEFF,
    IEPINT, IN_EP_TX_FIFOS, OEPINT, POWER_ON_NOPS, RESET_AHB_IDLE, RESET_CORE, RX_FIFO_SIZE, SOF,
    SOFT_RESET_TIMEOUT, TX_FIFO_SIZE, USB_RESET, USB_SUSPEND,
};
use crate::model::{flush_rx_actions, flush_tx_actions, Ep0Memory, Model};

verus! {

/// Which physical connection to use.
#[derive(Copy, Clone, PartialEq, Eq, Structural, Debug)]
pub enum PHY {
    A,
    B,
}

/// How far a soft reset has come: each stage but the last waits for the value of
/// the reset register.
#[derive(Copy, Clone, PartialEq, Eq, Structural, Debug)]
pub enum Startup {
    /// Waits for the core to leave reset, for this many more polls.
    AwaitReset { timeout: u32 },
    /// Waits for the AHB master to be idle, for this many more polls.
    AwaitIdle { timeout: u32 },
    /// The controller has been brought up.
    Done,
}

/// The word that a stage waits for.
pub open spec fn startup_source(stage: Startup) -> Option<Source> {
    if stage is Done {
        None
    } else {
        Some(Source::Register(Register::Reset))
    }
}

impl Startup {
    /// The word that is to be read and handed to the driver next; `None` once the
    /// controller has been brought up.
    pub fn source(self) -> (r: Option<Source>)
        ensures
            r == startup_source(self),
    {
        match self {
            Startup::Done => None,
            _ => Some(Source::Register(Register::Reset)),
        }
    }
}

/// The stage that follows when the reset register reads `reset`. A wait that has
/// used up its polls ends the soft reset.
pub open spec fn next_startup(stage: Startup, reset: u32) -> Startup {
    match stage {
        Startup::AwaitReset { timeout } => if timeout == 0 {
            Startup::Done
        } else if reset & RESET_CORE == RESET_CORE {
            Startup::AwaitReset { timeout: (timeout - 1) as u32 }
        } else {
            Startup::AwaitIdle { timeout: SOFT_RESET_TIMEOUT }
        },
        Startup::AwaitIdle { timeout } => if timeout > 0 && reset & RESET_AHB_IDLE == 0 {
            Startup::AwaitIdle { timeout: (timeout - 1) as u32 }
        } else {
            Startup::Done
        },
        Startup::Done => Startup::Done,
    }
}

/// What is done when the reset register reads `reset`: once the soft reset is
/// over, the controller is configured.
pub open spec fn startup_actions(stage: Startup, reset: u32) -> Seq<Action> {
    if !(stage is Done) && next_startup(stage, reset) is Done {
        configure_actions()
    } else {
        seq![]
    }
}

/// Opens four consecutive security registers from `base` on.
pub open spec fn open_region(base: u32) -> Seq<Action> {
    Seq::new(4, |i: int| Action::Store { address: (base + 4 * i) as u32, value: u32::MAX })
}

/// Opens the global security regions of the CPU, the DMA engine and the
/// controller.
pub open spec fn open_all_regions() -> Seq<Action> {
    open_region(0x4009_0000) + open_region(0x4009_0080) + open_region(0x4009_00c0)
}

/// Value of the GPIO register that writes the custom configuration register and
/// selects and activates a PHY.
pub open spec fn phy_selection(phy: PHY) -> u32 {
    match phy {
        PHY::A => 0x8040_0000,
        PHY::B => 0x8050_0000,
    }
}

/// Chip configuration: USB 1.1 full speed, 6-pin unidirectional, a turnaround
/// time of 14 and a timeout calibration of 7.
pub open spec fn chip_configuration() -> u32 {
    0x0000_3847
}

/// Everything before the wait for the soft reset.
pub open spec fn power_up_actions(phy: PHY) -> Seq<Action> {
    open_all_regions() + seq![
        Action::EnableClock { clock: ClockLine::Core },
        Action::EnableClock { clock: ClockLine::Timer },
        Action::Write { register: Register::InterruptMask, value: 0 },
        Action::Write { register: Register::DeviceAllEpInterruptMask, value: 0 },
        Action::Write { register: Register::DeviceInEpInterruptMask, value: 0 },
        Action::Write { register: Register::DeviceOutEpInterruptMask, value: 0 },
        Action::Write { register: Register::Gpio, value: phy_selection(phy) },
        Action::Write { register: Register::Configuration, value: chip_configuration() },
        Action::Write { register: Register::Reset, value: RESET_CORE },
    ]
}

/// A FIFO size register: the depth in the high half, the start in the low half.
pub open spec fn fifo_region(start: int) -> u32 {
    (0x1_0000 * TX_FIFO_SIZE + start) as u32
}

/// Where dedicated transmit FIFO `i` starts.
pub open spec fn tx_fifo_start(i: int) -> int {
    RX_FIFO_SIZE + i * TX_FIFO_SIZE
}

/// Writes the size register of every dedicated transmit FIFO.
pub open spec fn tx_fifo_sizes() -> Seq<Action> {
    Seq::new(
        IN_EP_TX_FIFOS as nat,
        |i: int|
            Action::Write {
                register: Register::DeviceInEpTxFifoSize(i as u8),
                value: fifo_region(tx_fifo_start(i)),
            },
    )
}

/// Sets up the FIFO memory and flushes all FIFOs.
pub open spec fn fifo_actions() -> Seq<Action> {
    seq![
        Action::Write { register: Register::ReceiveFifoSize, value: RX_FIFO_SIZE as u32 },
        Action::Write {
            register: Register::TransmitFifoSize,
            value: fifo_region(RX_FIFO_SIZE as int),
        },
    ] + tx_fifo_sizes() + flush_tx_actions(ALL_TX_FIFOS) + flush_rx_actions()
}

/// Clears all pending interrupts, those of the endpoints first.
pub open spec fn clear_interrupts() -> Seq<Action> {
    Seq::new(
        ENDPOINTS as nat,
        |i: int| Action::Write { register: Register::OutInterrupt(i as u8), value: u32::MAX },
    ) + Seq::new(
        ENDPOINTS as nat,
        |i: int| Action::Write { register: Register::InInterrupt(i as u8), value: u32::MAX },
    ) + seq![Action::Write { register: Register::InterruptStatus, value: u32::MAX }]
}

/// The interrupts that the driver wants to see.
pub open spec fn wanted_interrupts() -> u32 {
    (SOF + GINNAKEFF + GOUTNAKEFF + EARLY_SUSPEND + USB_SUSPEND + USB_RESET + ENUM_DONE + IEPINT
        + OEPINT) as u32
}

/// Unmasks interrupts, signals that power-on programming is done, and reconnects.
pub open spec fn go_online() -> Seq<Action> {
    seq![
        Action::Write {
            register: Register::DeviceOutEpInterruptMask,
            value: (EP_INT_XFER_COMPL + EP_INT_DISABLED + EP_INT_SETUP) as u32,
        },
        Action::Write {
            register: Register::DeviceInEpInterruptMask,
            value: (EP_INT_XFER_COMPL + EP_INT_DISABLED) as u32,
        },
        Action::Write { register: Register::InterruptMask, value: wanted_interrupts() },
        Action::Modify { register: Register::DeviceControl, clear: 0, set: CONTROL_POWER_ON_DONE },
        Action::Nops { count: POWER_ON_NOPS },
        Action::Modify { register: Register::DeviceControl, clear: CONTROL_POWER_ON_DONE, set: 0 },
        Action::Modify {
            register: Register::DeviceControl,
            clear: 0,
            set: (CONTROL_CLEAR_GLOBAL_OUT_NAK + CONTROL_CLEAR_GLOBAL_IN_NAK) as u32,
        },
        Action::Modify {
            register: Register::DeviceControl,
            clear: CONTROL_SOFT_DISCONNECT,
            set: 0,
        },
    ]
}

/// Everything after the wait for the soft reset.
pub open spec fn configure_actions() -> Seq<Action> {
    seq![
        Action::Write { register: Register::Configuration, value: chip_configuration() },
        // Global interrupt unmask, DMA enable, interrupt on empty transmit FIFO.
        Action::Write { register: Register::AhbConfig, value: 0xa1 },
        Action::Modify {
            register: Register::DeviceControl,
            clear: 0,
            set: CONTROL_SOFT_DISCONNECT,
        },
        Action::Modify {
            register: Register::DeviceConfig,
            clear: 0,
            set: (CONFIG_FULL_SPEED + CONFIG_SCATTER_GATHER) as u32,
        },
    ] + fifo_actions() + clear_interrupts() + go_online()
}

/// The state after `init`.
pub open spec fn init_model(
    m: Model,
    memory: Ep0Memory,
    device_class: Option<u8>,
    vendor_id: Option<u16>,
    product_id: Option<u16>,
) -> Model {
    Model {
        memory: Some(memory),
        device_class: match device_class {
            Some(class) => class,
            None => m.device_class,
        },
        vendor_id: match vendor_id {
            Some(vid) => vid,
            None => m.vendor_id,
        },
        product_id: match product_id {
            Some(pid) => pid,
            None => m.product_id,
        },
        ..m
    }
}

} // verus!
