//! What the driver asks of the hardware: the registers it knows, the words it
//! wants to read, and the actions it wants carried out.
use vstd::prelude::*;

verus! {

/// The registers of the controller that the driver reads or writes.
#[derive(Copy, Clone, PartialEq, Eq, Structural, Debug)]
pub enum Register {
    AhbConfig,
    Configuration,
    Reset,
    InterruptStatus,
    InterruptMask,
    ReceiveFifoSize,
    TransmitFifoSize,
    Gpio,
    /// Start and depth of the dedicated transmit FIFO with this number.
    DeviceInEpTxFifoSize(u8),
    DeviceConfig,
    DeviceControl,
    DeviceInEpInterruptMask,
    DeviceOutEpInterruptMask,
    DeviceAllEpInterrupt,
    DeviceAllEpInterruptMask,
    /// Control register of the IN endpoint with this number.
    InControl(u8),
    /// Interrupt register of the IN endpoint with this number.
    InInterrupt(u8),
    /// DMA address register of the IN endpoint with this number.
    InDmaAddress(u8),
    /// Control register of the OUT endpoint with this number.
    OutControl(u8),
    /// Interrupt register of the OUT endpoint with this number.
    OutInterrupt(u8),
    /// DMA address register of the OUT endpoint with this number.
    OutDmaAddress(u8),
}

/// The peripheral clocks of the controller.
#[derive(Copy, Clone, PartialEq, Eq, Structural, Debug)]
pub enum ClockLine {
    /// The core clock, `Usb0` in bank 1.
    Core,
    /// The timer clock, `Usb0TimerHs` in bank 1.
    Timer,
}

/// One thing to do. Actions are carried out in the order in which they stand.
#[derive(Copy, Clone, PartialEq, Eq, Structural, Debug)]
pub enum Action {
    /// Write a register.
    Write { register: Register, value: u32 },
    /// Read a register and write back [`modified`] of what was read.
    Modify { register: Register, clear: u32, set: u32 },
    /// Read a register until [`settled`] of what was read holds.
    WaitClear { register: Register, mask: u32 },
    /// Store a word at a physical address outside the controller.
    Store { address: u32, value: u32 },
    /// Turn a peripheral clock on.
    EnableClock { clock: ClockLine },
    /// Execute this many no-operations.
    Nops { count: u32 },
    /// Point the DMA address register of OUT endpoint 0 at an OUT descriptor.
    OutDma { index: usize },
    /// Point the DMA address register of IN endpoint 0 at an IN descriptor.
    InDma { index: usize },
    /// Store the flags of an OUT descriptor.
    OutFlags { index: usize, flags: u32 },
    /// Store the flags and the buffer address of an OUT descriptor.
    OutDescriptor { index: usize, flags: u32, addr: usize },
    /// Store the flags of an IN descriptor.
    InFlags { index: usize, flags: u32 },
    /// Store the flags and the buffer address of an IN descriptor.
    InDescriptor { index: usize, flags: u32, addr: usize },
    /// Store a byte of the IN buffer.
    InByte { offset: usize, byte: u8 },
}

/// A word that the driver needs before it can go on.
#[derive(Copy, Clone, PartialEq, Eq, Structural, Debug)]
pub enum Source {
    /// The value of a register.
    Register(Register),
    /// The flags of the OUT descriptor with this index.
    OutFlags(usize),
    /// A word of the buffer behind the OUT descriptor with this index.
    OutWord { index: usize, word: usize },
}

/// A register value with the bits of `clear` taken out and those of `set` put in.
pub open spec fn modification(value: u32, clear: u32, set: u32) -> u32 {
    (value & !clear) | set
}

/// What [`Action::Modify`] writes back where it read `value`.
pub fn modified(value: u32, clear: u32, set: u32) -> (r: u32)
    ensures
        r == modification(value, clear, set),
{
    (value & !clear) | set
}

/// Whether a register value ends a wait: no bit of `mask` is set in it.
pub open spec fn wait_is_over(value: u32, mask: u32) -> bool {
    value & mask == 0
}

/// Whether [`Action::WaitClear`] is done where it read `value`.
pub fn settled(value: u32, mask: u32) -> (r: bool)
    ensures
        r == wait_is_over(value, mask),
{
    value & mask == 0
}

/// The byte offset of each register from the controller's base address.
pub open spec fn register_offset(register: Register) -> int {
    match register {
        Register::AhbConfig => 0x008,
        Register::Configuration => 0x00c,
        Register::Reset => 0x010,
        Register::InterruptStatus => 0x014,
        Register::InterruptMask => 0x018,
        Register::ReceiveFifoSize => 0x024,
        Register::TransmitFifoSize => 0x028,
        Register::Gpio => 0x038,
        Register::DeviceInEpTxFifoSize(i) => 0x104 + 4 * i,
        Register::DeviceConfig => 0x800,
        Register::DeviceControl => 0x804,
        Register::DeviceInEpInterruptMask => 0x810,
        Register::DeviceOutEpInterruptMask => 0x814,
        Register::DeviceAllEpInterrupt => 0x818,
        Register::DeviceAllEpInterruptMask => 0x81c,
        Register::InControl(ep) => 0x900 + 0x20 * ep,
        Register::InInterrupt(ep) => 0x908 + 0x20 * ep,
        Register::InDmaAddress(ep) => 0x914 + 0x20 * ep,
        Register::OutControl(ep) => 0xb00 + 0x20 * ep,
        Register::OutInterrupt(ep) => 0xb08 + 0x20 * ep,
        Register::OutDmaAddress(ep) => 0xb14 + 0x20 * ep,
    }
}

impl Register {
    /// The byte offset from the controller's base address.
    pub fn offset(self) -> (r: usize)
        ensures
            r == register_offset(self),
    {
        match self {
            Register::AhbConfig => 0x008,
            Register::Configuration => 0x00c,
            Register::Reset => 0x010,
            Register::InterruptStatus => 0x014,
            Register::InterruptMask => 0x018,
            Register::ReceiveFifoSize => 0x024,
            Register::TransmitFifoSize => 0x028,
            Register::Gpio => 0x038,
            Register::DeviceInEpTxFifoSize(i) => 0x104 + 4 * (i as usize),
            Register::DeviceConfig => 0x800,
            Register::DeviceControl => 0x804,
            Register::DeviceInEpInterruptMask => 0x810,
            Register::DeviceOutEpInterruptMask => 0x814,
            Register::DeviceAllEpInterrupt => 0x818,
            Register::DeviceAllEpInterruptMask => 0x81c,
            Register::InControl(ep) => 0x900 + 0x20 * (ep as usize),
            Register::InInterrupt(ep) => 0x908 + 0x20 * (ep as usize),
            Register::InDmaAddress(ep) => 0x914 + 0x20 * (ep as usize),
            Register::OutControl(ep) => 0xb00 + 0x20 * (ep as usize),
            Register::OutInterrupt(ep) => 0xb08 + 0x20 * (ep as usize),
            Register::OutDmaAddress(ep) => 0xb14 + 0x20 * (ep as usize),
        }
    }
}

} // verus!
