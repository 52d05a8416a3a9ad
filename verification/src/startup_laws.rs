//! Laws of bringing the controller up: how long the soft reset is waited for, and what the
//! controller is told before and after it.
use vstd::prelude::*;

use crate::action::{
    modification, register_offset, wait_is_over, Action, ClockLine, Register, Source,
};
use crate::constants::{ALL_TX_FIFOS, RX_FIFO_SIZE, TX_FIFO_SIZE};
use crate::device::{every, only_registers, perform_all, precedes, touches, Device};
use crate::device_laws::register_is_kept;
use crate::laws::fifos_are_adjacent;
use crate::model::{flush_rx_actions, flush_tx_actions, Ep0Memory, Model};
use crate::startup::{
    clear_interrupts, configure_actions, fifo_actions, fifo_region, go_online, init_model,
    next_startup, power_up_actions, startup_actions, startup_source, tx_fifo_sizes, tx_fifo_start,
    PHY, Startup,
};

verus! {

/// While the soft reset is on, the word that is waited for is the reset register.
pub proof fn startup_reads_reset(stage: Startup)
    ensures
        stage is Done ==> startup_source(stage) is None,
        !(stage is Done) ==> startup_source(stage) == Some(Source::Register(Register::Reset)),
{
}

/// The core is in reset as long as bit 0 reads as set; then the bus master is busy until
/// bit 31 reads as set, for which up to 10000 polls are granted anew. A wait that has no
/// polls left gives up, and the soft reset is over.
pub proof fn soft_reset_is_polled(stage: Startup, reset: u32)
    ensures
        stage matches Startup::AwaitReset { timeout } ==> {
            let next = next_startup(stage, reset);
            &&& timeout == 0 ==> next is Done
            &&& timeout > 0 && reset & 0x0000_0001 != 0 ==> (next matches Startup::AwaitReset {
                timeout: left,
            } && left == timeout - 1)
            &&& timeout > 0 && reset & 0x0000_0001 == 0 ==> (next matches Startup::AwaitIdle {
                timeout: left,
            } && left == 10000)
        },
        stage matches Startup::AwaitIdle { timeout } ==> {
            let next = next_startup(stage, reset);
            &&& timeout == 0 || reset & 0x8000_0000 != 0 ==> next is Done
            &&& timeout > 0 && reset & 0x8000_0000 == 0 ==> (next matches Startup::AwaitIdle {
                timeout: left,
            } && left == timeout - 1)
        },
        stage is Done ==> next_startup(stage, reset) is Done,
        stage is Done ==> startup_actions(stage, reset).len() == 0,
        !(stage is Done) && !(next_startup(stage, reset) is Done) ==> startup_actions(
            stage,
            reset,
        ).len() == 0,
        !(stage is Done) && next_startup(stage, reset) is Done ==> startup_actions(stage, reset)
            == configure_actions(),
{
    assert(reset & 0x0000_0001 == 0x0000_0001 <==> reset & 0x0000_0001 != 0) by (bit_vector);
}

/// The last write of a register stands.
proof fn last_write_stands(d: Device, actions: Seq<Action>, k: int)
    requires
        0 <= k < actions.len(),
        actions[k] is Write,
        forall|i: int|
            k < i < actions.len() ==> !touches(#[trigger] actions[i], actions[k]->Write_register),
    ensures
        perform_all(d, actions).register(actions[k]->Write_register) == actions[k]->Write_value,
    decreases actions.len(),
{
    if k < actions.len() - 1 {
        let fewer = actions.drop_last();
        assert forall|i: int| k < i < fewer.len() implies !touches(
            #[trigger] fewer[i],
            fewer[k]->Write_register,
        ) by {
            assert(fewer[i] == actions[i]);
        }
        last_write_stands(d, fewer, k);
        assert(!touches(actions[actions.len() - 1], actions[k]->Write_register));
    }
}

/// The action concerns registers, or nothing that the controller shares with the driver.
pub open spec fn spares_endpoint(action: Action) -> bool {
    match action {
        Action::Write { .. } => true,
        Action::Modify { .. } => true,
        Action::WaitClear { .. } => true,
        Action::Store { .. } => true,
        Action::EnableClock { .. } => true,
        Action::Nops { .. } => true,
        _ => false,
    }
}

proof fn endpoint_is_spared(d: Device, actions: Seq<Action>)
    requires
        every(actions, |a: Action| spares_endpoint(a)),
    ensures
        perform_all(d, actions) == (Device {
            registers: perform_all(d, actions).registers,
            ..d
        }),
    decreases actions.len(),
{
    if actions.len() > 0 {
        let condition = |a: Action| spares_endpoint(a);
        assert(condition(actions[actions.len() - 1]));
        assert forall|i: int| 0 <= i < actions.drop_last().len() implies condition(
            #[trigger] actions.drop_last()[i],
        ) by {
            assert(condition(actions[i]));
        }
        endpoint_is_spared(d, actions.drop_last());
    }
}

/// Where the security registers of region `i` stand.
pub open spec fn region_address(i: int) -> int {
    if i < 4 {
        0x4009_0000 + 4 * i
    } else if i < 8 {
        0x4009_0080 + 4 * (i - 4)
    } else {
        0x4009_00c0 + 4 * (i - 8)
    }
}

/// Power-up first opens four security registers each of the CPU, the DMA engine and the
/// controller, then turns both clocks on, and only then writes registers: all interrupts are
/// masked, the PHY that was chosen is selected, full speed is configured, and last of all
/// the core is put into reset. Nothing else is done.
pub proof fn power_up_effect(d: Device, phy: PHY)
    ensures
        ({
            let actions = power_up_actions(phy);
            let after = perform_all(d, actions);
            &&& actions.len() == 21
            &&& forall|i: int|
                0 <= i < 12 ==> (#[trigger] actions[i] matches Action::Store { address, value }
                    && address == region_address(i) && value == 0xffff_ffff)
            &&& actions[12] == (Action::EnableClock { clock: ClockLine::Core })
            &&& actions[13] == (Action::EnableClock { clock: ClockLine::Timer })
            &&& forall|i: int| 14 <= i < 21 ==> #[trigger] actions[i] is Write
            &&& after == (Device { registers: after.registers, ..d })
            &&& after.register(Register::InterruptMask) == 0
            &&& after.register(Register::DeviceAllEpInterruptMask) == 0
            &&& after.register(Register::DeviceInEpInterruptMask) == 0
            &&& after.register(Register::DeviceOutEpInterruptMask) == 0
            &&& phy == PHY::A ==> after.register(Register::Gpio) == 0x8040_0000
            &&& phy == PHY::B ==> after.register(Register::Gpio) == 0x8050_0000
            &&& after.register(Register::Configuration) == 0x0000_3847
            &&& actions.last() == (Action::Write { register: Register::Reset, value: 1 })
            &&& after.register(Register::Reset) == 1
            &&& precedes(
                actions,
                |a: Action| touches(a, Register::InterruptMask),
                |a: Action| touches(a, Register::Gpio) || touches(a, Register::Configuration),
            )
            &&& only_registers(
                d,
                after,
                set![
                    Register::InterruptMask,
                    Register::DeviceAllEpInterruptMask,
                    Register::DeviceInEpInterruptMask,
                    Register::DeviceOutEpInterruptMask,
                    Register::Gpio,
                    Register::Configuration,
                    Register::Reset,
                ],
            )
        }),
{
    let actions = power_up_actions(phy);
    let after = perform_all(d, actions);
    let changed = set![
        Register::InterruptMask,
        Register::DeviceAllEpInterruptMask,
        Register::DeviceInEpInterruptMask,
        Register::DeviceOutEpInterruptMask,
        Register::Gpio,
        Register::Configuration,
        Register::Reset,
    ];
    endpoint_is_spared(d, actions);
    last_write_stands(d, actions, 14);
    last_write_stands(d, actions, 15);
    last_write_stands(d, actions, 16);
    last_write_stands(d, actions, 17);
    last_write_stands(d, actions, 18);
    last_write_stands(d, actions, 19);
    last_write_stands(d, actions, 20);
    assert forall|r: Register| !changed.contains(r) implies #[trigger] after.register(r)
        == d.register(r) by {
        assert(every(actions, |a: Action| !touches(a, r)));
        register_is_kept(d, actions, r);
    }
}

/// The receive FIFO has 512 words, and each transmit FIFO 32, one after the other from
/// there on. Once the sizes are set, all transmit FIFOs and then the receive FIFO are
/// flushed. Nothing else is done.
pub proof fn fifo_effect(d: Device)
    ensures
        ({
            let actions = fifo_actions();
            let after = perform_all(d, actions);
            &&& actions.len() == 21
            &&& after == (Device { registers: after.registers, ..d })
            &&& after.register(Register::ReceiveFifoSize) == 512
            &&& after.register(Register::TransmitFifoSize) == 0x0020_0200
            &&& forall|i: u8|
                i < 15 ==> #[trigger] after.register(Register::DeviceInEpTxFifoSize(i))
                    == 0x0020_0200 + 32 * i
            &&& actions[17] == (Action::Write { register: Register::Reset, value: 0x420 })
            &&& actions[18] == (Action::WaitClear { register: Register::Reset, mask: 0x20 })
            &&& actions[19] == (Action::Write { register: Register::Reset, value: 0x10 })
            &&& actions[20] == (Action::WaitClear { register: Register::Reset, mask: 0x10 })
            &&& forall|i: int| 0 <= i < 17 ==> !touches(#[trigger] actions[i], Register::Reset)
            &&& forall|r: Register|
                #![trigger after.register(r)]
                r != Register::Reset && r != Register::ReceiveFifoSize && r
                    != Register::TransmitFifoSize && !(r matches Register::DeviceInEpTxFifoSize(i)
                    && i < 15) ==> after.register(r) == d.register(r)
        }),
{
    let actions = fifo_actions();
    let after = perform_all(d, actions);
    assert(0x40 * 16 == 0x400);
    assert(actions[17] == flush_tx_actions(ALL_TX_FIFOS)[0]);
    assert(actions[18] == flush_tx_actions(ALL_TX_FIFOS)[1]);
    assert(actions[19] == flush_rx_actions()[0]);
    assert(actions[20] == flush_rx_actions()[1]);
    assert forall|i: int| 0 <= i < 15 implies #[trigger] tx_fifo_sizes()[i] == (Action::Write {
        register: Register::DeviceInEpTxFifoSize(i as u8),
        value: (0x0020_0200 + 32 * i) as u32,
    }) by {
        fifos_are_adjacent(i);
        assert(tx_fifo_start(i) == 512 + 32 * i) by (nonlinear_arith)
            requires
                tx_fifo_start(i) == RX_FIFO_SIZE + i * TX_FIFO_SIZE,
                RX_FIFO_SIZE == 512,
                TX_FIFO_SIZE == 32,
        ;
        assert(0x1_0000 * TX_FIFO_SIZE == 0x0020_0000);
    }
    assert(fifo_region(512) == 0x0020_0200) by {
        assert(0x1_0000 * TX_FIFO_SIZE == 0x0020_0000);
    }
    assert forall|i: int| 2 <= i < 17 implies #[trigger] actions[i] == tx_fifo_sizes()[i - 2] by {}
    assert(actions[0] == (Action::Write { register: Register::ReceiveFifoSize, value: 512 }));
    assert(actions[1] == (Action::Write {
        register: Register::TransmitFifoSize,
        value: 0x0020_0200,
    }));
    assert forall|i: int| 0 <= i < 21 implies spares_endpoint(#[trigger] actions[i]) by {
        if 2 <= i < 17 {
            assert(actions[i] == tx_fifo_sizes()[i - 2]);
        }
    }
    endpoint_is_spared(d, actions);
    last_write_stands(d, actions, 0);
    last_write_stands(d, actions, 1);
    assert forall|i: u8| i < 15 implies #[trigger] after.register(
        Register::DeviceInEpTxFifoSize(i),
    ) == 0x0020_0200 + 32 * i by {
        assert(actions[i + 2] == tx_fifo_sizes()[i as int]);
        last_write_stands(d, actions, i + 2);
    }
    assert forall|r: Register|
        #![trigger after.register(r)]
        r != Register::Reset && r != Register::ReceiveFifoSize && r != Register::TransmitFifoSize
            && !(r matches Register::DeviceInEpTxFifoSize(i) && i < 15) implies after.register(r)
        == d.register(r) by {
        assert(every(actions, |a: Action| !touches(a, r)));
        register_is_kept(d, actions, r);
    }
}

/// Every interrupt of every endpoint is cleared, and after those the interrupts of the
/// controller, by writing ones. Nothing else is done.
pub proof fn clear_interrupts_effect(d: Device)
    ensures
        ({
            let actions = clear_interrupts();
            let after = perform_all(d, actions);
            &&& actions.len() == 33
            &&& after == (Device { registers: after.registers, ..d })
            &&& forall|ep: u8|
                ep < 16 ==> #[trigger] after.register(Register::OutInterrupt(ep)) == 0xffff_ffff
            &&& forall|ep: u8|
                ep < 16 ==> #[trigger] after.register(Register::InInterrupt(ep)) == 0xffff_ffff
            &&& after.register(Register::InterruptStatus) == 0xffff_ffff
            &&& touches(actions.last(), Register::InterruptStatus)
            &&& forall|r: Register|
                #![trigger after.register(r)]
                r != Register::InterruptStatus && !(r matches Register::OutInterrupt(ep) && ep
                    < 16) && !(r matches Register::InInterrupt(ep) && ep < 16) ==> after.register(r)
                    == d.register(r)
        }),
{
    let actions = clear_interrupts();
    let after = perform_all(d, actions);
    endpoint_is_spared(d, actions);
    last_write_stands(d, actions, 32);
    assert forall|ep: u8| ep < 16 implies #[trigger] after.register(Register::OutInterrupt(ep))
        == 0xffff_ffff by {
        last_write_stands(d, actions, ep as int);
    }
    assert forall|ep: u8| ep < 16 implies #[trigger] after.register(Register::InInterrupt(ep))
        == 0xffff_ffff by {
        last_write_stands(d, actions, ep + 16);
    }
    assert forall|r: Register|
        #![trigger after.register(r)]
        r != Register::InterruptStatus && !(r matches Register::OutInterrupt(ep) && ep < 16) && !(
        r matches Register::InInterrupt(ep) && ep < 16) implies after.register(r) == d.register(
        r,
    ) by {
        assert(every(actions, |a: Action| !touches(a, r)));
        register_is_kept(d, actions, r);
    }
}

/// Interrupts are unmasked, for transfers, disabled endpoints and setup phases on OUT
/// endpoints, the first two on IN endpoints, and nine kinds on the controller. The
/// power-on-done bit is raised, kept up for 10000 no-operations and lowered; both global
/// NAKs are cleared; and as the very last thing the device connects.
pub proof fn go_online_effect(d: Device)
    ensures
        ({
            let actions = go_online();
            let after = perform_all(d, actions);
            let control = Register::DeviceControl;
            &&& actions.len() == 8
            &&& after == (Device { registers: after.registers, ..d })
            &&& after.register(Register::DeviceOutEpInterruptMask) == 0x0b
            &&& after.register(Register::DeviceInEpInterruptMask) == 0x03
            &&& after.register(Register::InterruptMask) == 0x000c_3cc8
            &&& actions[3] == (Action::Modify { register: control, clear: 0, set: 0x0800 })
            &&& actions[4] == (Action::Nops { count: 10000 })
            &&& actions[5] == (Action::Modify { register: control, clear: 0x0800, set: 0 })
            &&& actions[6] == (Action::Modify { register: control, clear: 0, set: 0x0500 })
            &&& actions[7] == (Action::Modify { register: control, clear: 0x0002, set: 0 })
            &&& only_registers(
                d,
                after,
                set![
                    Register::DeviceOutEpInterruptMask,
                    Register::DeviceInEpInterruptMask,
                    Register::InterruptMask,
                    Register::DeviceControl,
                ],
            )
        }),
{
    let actions = go_online();
    let after = perform_all(d, actions);
    let changed = set![
        Register::DeviceOutEpInterruptMask,
        Register::DeviceInEpInterruptMask,
        Register::InterruptMask,
        Register::DeviceControl,
    ];
    endpoint_is_spared(d, actions);
    last_write_stands(d, actions, 0);
    last_write_stands(d, actions, 1);
    last_write_stands(d, actions, 2);
    assert forall|r: Register| !changed.contains(r) implies #[trigger] after.register(r)
        == d.register(r) by {
        assert(every(actions, |a: Action| !touches(a, r)));
        register_is_kept(d, actions, r);
    }
}

/// After the soft reset the chip is configured, interrupts and DMA are turned on, and the
/// device disconnects and is set to full speed and scatter/gather; then come the FIFOs, then
/// the interrupts are cleared, and only then does the device go online.
pub proof fn configuration_goes_in_order(d: Device)
    ensures
        ({
            let actions = configure_actions();
            let after = perform_all(d, actions);
            &&& actions.len() == 66
            &&& actions[0] == (Action::Write {
                register: Register::Configuration,
                value: 0x0000_3847,
            })
            &&& actions[1] == (Action::Write { register: Register::AhbConfig, value: 0xa1 })
            &&& actions[2] == (Action::Modify {
                register: Register::DeviceControl,
                clear: 0,
                set: 0x0002,
            })
            &&& actions[3] == (Action::Modify {
                register: Register::DeviceConfig,
                clear: 0,
                set: 0x0080_0003,
            })
            &&& actions.subrange(4, 25) == fifo_actions()
            &&& actions.subrange(25, 58) == clear_interrupts()
            &&& actions.subrange(58, 66) == go_online()
            &&& after == (Device { registers: after.registers, ..d })
        }),
{
    let actions = configure_actions();
    assert(actions.subrange(4, 25) =~= fifo_actions());
    assert(actions.subrange(25, 58) =~= clear_interrupts());
    assert(actions.subrange(58, 66) =~= go_online());
    endpoint_is_spared(d, actions);
}

/// After `init` the driver has the buffers it was given and the identity as far as it was
/// given; everything else about it is as before.
pub proof fn init_changes_only_identity(
    m: Model,
    memory: Ep0Memory,
    device_class: Option<u8>,
    vendor_id: Option<u16>,
    product_id: Option<u16>,
)
    ensures
        ({
            let after = init_model(m, memory, device_class, vendor_id, product_id);
            &&& after == Model {
                memory: Some(memory),
                device_class: after.device_class,
                vendor_id: after.vendor_id,
                product_id: after.product_id,
                ..m
            }
            &&& device_class is None ==> after.device_class == m.device_class
            &&& device_class matches Some(class) ==> after.device_class == class
            &&& vendor_id is None ==> after.vendor_id == m.vendor_id
            &&& vendor_id matches Some(vid) ==> after.vendor_id == vid
            &&& product_id is None ==> after.product_id == m.product_id
            &&& product_id matches Some(pid) ==> after.product_id == pid
        }),
{
}

/// A modification takes out the bits of `clear`, puts in those of `set`, and keeps all
/// others; a wait for bits to clear is over exactly when none of them is set.
pub proof fn modification_bits(value: u32, clear: u32, set: u32, mask: u32)
    ensures
        ({
            let after = modification(value, clear, set);
            &&& after & set == set
            &&& after & (clear & !set) == 0
            &&& after & !(clear | set) == value & !(clear | set)
        }),
        wait_is_over(value, mask) <==> value | !mask == !mask,
{
    let after = (value & !clear) | set;
    assert(after & set == set && after & (clear & !set) == 0 && after & !(clear | set) == value & !(
    clear | set)) by (bit_vector)
        requires
            after == (value & !clear) | set,
    ;
    assert(value & mask == 0 <==> value | !mask == !mask) by (bit_vector);
}

/// The global registers, the device registers, and the registers of the IN and the OUT
/// endpoints, 32 bytes for each endpoint, stand at their places behind the base address.
pub proof fn register_places(ep: u8)
    ensures
        register_offset(Register::AhbConfig) == 0x008,
        register_offset(Register::Configuration) == 0x00c,
        register_offset(Register::Reset) == 0x010,
        register_offset(Register::InterruptStatus) == 0x014,
        register_offset(Register::InterruptMask) == 0x018,
        register_offset(Register::ReceiveFifoSize) == 0x024,
        register_offset(Register::TransmitFifoSize) == 0x028,
        register_offset(Register::Gpio) == 0x038,
        register_offset(Register::DeviceInEpTxFifoSize(ep)) == 0x104 + 4 * ep,
        register_offset(Register::DeviceConfig) == 0x800,
        register_offset(Register::DeviceControl) == 0x804,
        register_offset(Register::DeviceInEpInterruptMask) == 0x810,
        register_offset(Register::DeviceOutEpInterruptMask) == 0x814,
        register_offset(Register::DeviceAllEpInterrupt) == 0x818,
        register_offset(Register::DeviceAllEpInterruptMask) == 0x81c,
        register_offset(Register::InControl(ep)) == 0x900 + 0x20 * ep,
        register_offset(Register::InInterrupt(ep)) == 0x908 + 0x20 * ep,
        register_offset(Register::InDmaAddress(ep)) == 0x914 + 0x20 * ep,
        register_offset(Register::OutControl(ep)) == 0xb00 + 0x20 * ep,
        register_offset(Register::OutInterrupt(ep)) == 0xb08 + 0x20 * ep,
        register_offset(Register::OutDmaAddress(ep)) == 0xb14 + 0x20 * ep,
{
}

} // verus!
