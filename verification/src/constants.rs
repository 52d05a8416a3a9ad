//! Bit assignments of the controller's registers and descriptors, and the sizes
//! that the driver works with.
use vstd::prelude::*;

verus! {

// ---- Interrupt status and interrupt mask registers ----
/// Start of frame.
pub const SOF: u32 = 0x0000_0008;

/// Global non-periodic IN NAK effective.
pub const GINNAKEFF: u32 = 0x0000_0040;

/// Global OUT NAK effective.
pub const GOUTNAKEFF: u32 = 0x0000_0080;

/// The bus has been idle for 3 ms.
pub const EARLY_SUSPEND: u32 = 0x0000_0400;

/// The bus is suspended.
pub const USB_SUSPEND: u32 = 0x0000_0800;

/// The host signals a USB RESET.
pub const USB_RESET: u32 = 0x0000_1000;

/// Speed enumeration is done.
pub const ENUM_DONE: u32 = 0x0000_2000;

/// An IN endpoint has an interrupt pending.
pub const IEPINT: u32 = 0x0004_0000;

/// An OUT endpoint has an interrupt pending.
pub const OEPINT: u32 = 0x0008_0000;

// ---- Device all-endpoints interrupt register and its mask ----
/// IN endpoint 0.
pub const ALL_EP_IN0: u32 = 0x0000_0001;

/// OUT endpoint 0.
pub const ALL_EP_OUT0: u32 = 0x0001_0000;

// ---- Endpoint interrupt registers and their masks ----
/// Transfer completed.
pub const EP_INT_XFER_COMPL: u32 = 0x01;

/// Endpoint disabled.
pub const EP_INT_DISABLED: u32 = 0x02;

/// Setup phase done (OUT endpoints).
pub const EP_INT_SETUP: u32 = 0x08;

/// Status phase received for a control write (OUT endpoints).
pub const EP_INT_STS_PHSE_RCVD: u32 = 0x20;

// ---- Endpoint control registers ----
/// Enable the endpoint.
pub const EP_ENABLE: u32 = 0x8000_0000;

/// Clear the NAK bit: the endpoint is ready to transfer.
pub const EP_CNAK: u32 = 0x0400_0000;

/// Answer with STALL.
pub const EP_STALL: u32 = 0x0020_0000;

// ---- Reset register ----
/// Core soft reset; the controller clears it.
pub const RESET_CORE: u32 = 0x0000_0001;

/// Flush the receive FIFO; the controller clears it.
pub const RESET_RX_FLUSH: u32 = 0x0000_0010;

/// Flush the transmit FIFO that the FIFO number field names; the controller
/// clears it.
pub const RESET_TX_FLUSH: u32 = 0x0000_0020;

/// One unit of the FIFO number field (bits 10:6).
pub const RESET_FIFO_UNIT: u32 = 0x0000_0040;

/// The FIFO number that stands for all transmit FIFOs.
pub const ALL_TX_FIFOS: u8 = 0x10;

/// The AHB master is idle.
pub const RESET_AHB_IDLE: u32 = 0x8000_0000;

// ---- Device control register ----
/// Soft disconnect.
pub const CONTROL_SOFT_DISCONNECT: u32 = 0x0002;

/// Clear global non-periodic IN NAK.
pub const CONTROL_CLEAR_GLOBAL_IN_NAK: u32 = 0x0100;

/// Clear global OUT NAK.
pub const CONTROL_CLEAR_GLOBAL_OUT_NAK: u32 = 0x0400;

/// Power-on programming done.
pub const CONTROL_POWER_ON_DONE: u32 = 0x0800;

// ---- Device configuration register ----
/// Device speed: USB 1.1 full speed (48 MHz).
pub const CONFIG_FULL_SPEED: u32 = 0x0000_0003;

/// The device address field, bits 10:4.
pub const CONFIG_ADDRESS: u32 = 0x0000_07f0;

/// Scatter/gather DMA.
pub const CONFIG_SCATTER_GATHER: u32 = 0x0080_0000;

// ---- DMA descriptor flags ----
/// Buffer status: the host software has prepared the descriptor.
pub const DESC_HOST_READY: u32 = 0x0000_0000;

/// Buffer status: the host software owns the descriptor.
pub const DESC_HOST_BUSY: u32 = 0xc000_0000;

/// Last descriptor of the transfer.
pub const DESC_LAST: u32 = 0x0800_0000;

/// Short packet.
pub const DESC_SHORT: u32 = 0x0400_0000;

/// Interrupt on completion.
pub const DESC_IOC: u32 = 0x0200_0000;

/// The buffer holds a SETUP packet.
pub const DESC_SETUP_READY: u32 = 0x0100_0000;

// ---- Sizes ----
/// Bytes in the buffer behind one descriptor, and the largest packet on
/// endpoint 0.
pub const MAX_PACKET_SIZE: u16 = 64;

/// OUT descriptors of endpoint 0.
pub const OUT_DESCRIPTORS: usize = 2;

/// IN descriptors of endpoint 0.
pub const IN_DESCRIPTORS: usize = 4;

/// IN endpoints of the controller, and OUT endpoints.
pub const ENDPOINTS: u8 = 16;

/// Dedicated transmit FIFOs with a size register each.
pub const IN_EP_TX_FIFOS: u8 = 15;

/// Depth of the receive FIFO, in words.
pub const RX_FIFO_SIZE: u16 = 512;

/// Depth of each transmit FIFO, in words.
pub const TX_FIFO_SIZE: u16 = 32;

/// Polls of the reset register before a soft reset gives up on one condition.
pub const SOFT_RESET_TIMEOUT: u32 = 10000;

/// No-operations between the two edges of the power-on-done bit.
pub const POWER_ON_NOPS: u32 = 10000;

// ---- Descriptor types of a GET_DESCRIPTOR request ----
/// Device descriptor.
pub const GET_DESCRIPTOR_DEVICE: u8 = 1;

/// Configuration descriptor.
pub const GET_DESCRIPTOR_CONFIGURATION: u8 = 2;

/// Device qualifier descriptor.
pub const GET_DESCRIPTOR_DEVICE_QUALIFIER: u8 = 6;

} // verus!
