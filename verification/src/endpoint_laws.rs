//! Laws of the operations on endpoint 0: what each of them leaves in the controller and in
//! the shared memory, and what it leaves alone.
use vstd::prelude::*;

use crate::action::{modification, Action, Register};
use crate::constants::{ALL_EP_IN0, ALL_EP_OUT0, IN_DESCRIPTORS, OUT_DESCRIPTORS};
use crate::device::{
    every, group_perform, only_out_side, only_registers, perform, perform_all, perform_five,
    perform_four, perform_two, precedes, touches, DMADescriptor, Device,
};
use crate::device_laws::{
    addressed, endpoint_mask, filling_the_buffer, flushes_are_complete, loading_the_descriptors,
    performing_listen,
};
use crate::model::{
    clean_descriptors, data_phase_actions, enable_and_stall, expect_setup_actions, fill_in_buffer,
    flush_rx_actions, flush_tx_actions, idle_in_descriptor, idle_out_descriptor, in_ready,
    listen_to_host, load_in_descriptors, offer_out_descriptor, out_ready, phase_control,
    reply_actions, reply_descriptors, reply_length, reset_actions, reset_model, rx_actions,
    rx_model, stall_actions, start_in_phase, status_phase_actions, waiting_model, Ep0Memory, Model,
    USBState,
};
use crate::table_case::TableCase;

verus! {

/// The OUT interrupt of endpoint 0 is enabled and its IN interrupt disabled, and the
/// interrupts of the other endpoints are as before.
pub open spec fn listening(before: u32, after: u32) -> bool {
    &&& after & 0x0001_0000 != 0
    &&& after & 0x0000_0001 == 0
    &&& after & 0xfffe_fffe == before & 0xfffe_fffe
}

/// Both interrupts of endpoint 0 are enabled, and the interrupts of the other endpoints
/// are as before.
pub open spec fn talking(before: u32, after: u32) -> bool {
    &&& after & 0x0001_0000 != 0
    &&& after & 0x0000_0001 != 0
    &&& after & 0xfffe_fffe == before & 0xfffe_fffe
}

/// The OUT descriptors with the one at `index` ready for one packet of up to 64 bytes,
/// the last of its transfer, with an interrupt on completion.
pub open spec fn ready_to_receive(descriptors: Seq<DMADescriptor>, index: int) -> Seq<
    DMADescriptor,
> {
    descriptors.update(
        index,
        DMADescriptor { flags: 0x0a00_0040, addr: descriptors[index].addr },
    )
}

proof fn listening_mask(before: u32)
    ensures
        listening(before, modification(modification(before, 0, ALL_EP_OUT0), ALL_EP_IN0, 0)),
{
    let after = (((before & !0u32) | 0x0001_0000u32) & !0x0000_0001u32) | 0u32;
    assert(after & 0x0001_0000 != 0 && after & 0x0000_0001 == 0 && after & 0xfffe_fffe == before
        & 0xfffe_fffe) by (bit_vector)
        requires
            after == (((before & !0u32) | 0x0001_0000u32) & !0x0000_0001u32) | 0u32,
    ;
}

proof fn talking_mask(before: u32)
    ensures
        talking(before, modification(before, 0, 0x0001_0001)),
{
    let after = (before & !0u32) | 0x0001_0001u32;
    assert(after & 0x0001_0000 != 0 && after & 0x0000_0001 != 0 && after & 0xfffe_fffe == before
        & 0xfffe_fffe) by (bit_vector)
        requires
            after == (before & !0u32) | 0x0001_0001u32,
    ;
}

proof fn offer_effect(m: Model, d: Device)
    requires
        m.wf(),
        d.wf(),
    ensures
        perform_all(d, offer_out_descriptor(m)) == (Device {
            out_descriptors: if m.memory is Some {
                ready_to_receive(d.out_descriptors, m.next_out_idx as int)
            } else {
                d.out_descriptors
            },
            ..d
        }),
        offer_out_descriptor(m).len() == (if m.memory is Some {
            1int
        } else {
            0
        }),
{
    broadcast use group_perform;

}

proof fn listen_effect(d: Device)
    ensures
        ({
            let after = perform_all(d, listen_to_host());
            &&& listening(endpoint_mask(d), endpoint_mask(after))
            &&& after == (Device { registers: after.registers, ..d })
            &&& only_registers(d, after, set![Register::DeviceAllEpInterruptMask])
        }),
{
    performing_listen(d);
    listening_mask(endpoint_mask(d));
}

/// At position `k` transmit FIFO 0 is flushed, and the end of the flush waited for.
pub open spec fn flushes_at(actions: Seq<Action>, k: int) -> bool {
    &&& 0 <= k < actions.len() - 1
    &&& actions[k] == (Action::Write { register: Register::Reset, value: 0x20 })
    &&& actions[k + 1] == (Action::WaitClear { register: Register::Reset, mask: 0x20 })
}

/// A flush of transmit FIFO `fifo_num` writes the flush bit with that number, or with the
/// number for all FIFOs if there is no such FIFO, and is over when the bit is clear again.
/// It touches nothing else.
pub proof fn flush_tx_effect(d: Device, fifo_num: u8)
    ensures
        ({
            let actions = flush_tx_actions(fifo_num);
            let number = if fifo_num <= 16 {
                fifo_num
            } else {
                16
            };
            let after = perform_all(d, actions);
            &&& actions.len() == 2
            &&& actions[0] == (Action::Write {
                register: Register::Reset,
                value: (0x20 + 0x40 * number) as u32,
            })
            &&& actions[1] == (Action::WaitClear { register: Register::Reset, mask: 0x20 })
            &&& after == (Device { registers: after.registers, ..d })
            &&& only_registers(d, after, set![Register::Reset])
            &&& after.register(Register::Reset) & 0x20 == 0
        }),
{
    perform_two(d, flush_tx_actions(fifo_num));
    flushes_are_complete(d, fifo_num);
    assert(0x40 * 16 == 0x400);
}

/// A flush of the receive FIFO writes its flush bit, and is over when the bit is clear
/// again. It touches nothing else.
pub proof fn flush_rx_effect(d: Device)
    ensures
        ({
            let actions = flush_rx_actions();
            let after = perform_all(d, actions);
            &&& actions.len() == 2
            &&& actions[0] == (Action::Write { register: Register::Reset, value: 0x10 })
            &&& actions[1] == (Action::WaitClear { register: Register::Reset, mask: 0x10 })
            &&& after == (Device { registers: after.registers, ..d })
            &&& only_registers(d, after, set![Register::Reset])
            &&& after.register(Register::Reset) & 0x10 == 0
        }),
{
    perform_two(d, flush_rx_actions());
    flushes_are_complete(d, 0);
}

/// Expecting a SETUP packet readies the next OUT descriptor, listens to the host, and only
/// after that enables OUT endpoint 0 with its NAK bit cleared. Nothing else is done, and
/// of the driver only the stage of the transfer changes.
pub proof fn expect_setup_effect(m: Model, d: Device)
    requires
        m.wf(),
        d.wf(),
    ensures
        waiting_model(m) == (Model { state: USBState::WaitingForSetupPacket, ..m }),
        ({
            let actions = expect_setup_actions(m);
            let after = perform_all(d, actions);
            &&& m.memory is Some ==> actions.len() == 4 && after.out_descriptors
                == ready_to_receive(d.out_descriptors, m.next_out_idx as int)
            &&& m.memory is None ==> actions.len() == 3 && after.out_descriptors
                == d.out_descriptors
            &&& listening(endpoint_mask(d), endpoint_mask(after))
            &&& after.register(Register::OutControl(0)) == 0x8400_0000
            &&& only_registers(
                d,
                after,
                set![Register::DeviceAllEpInterruptMask, Register::OutControl(0)],
            )
            &&& only_out_side(d, after)
            &&& precedes(
                actions,
                |a: Action| !touches(a, Register::OutControl(0)),
                |a: Action| touches(a, Register::OutControl(0)),
            )
        }),
{
    broadcast use group_perform;

    offer_effect(m, d);
    let offered = perform_all(d, offer_out_descriptor(m));
    listen_effect(offered);
}

/// Stalling readies the next OUT descriptor, listens to the host, makes OUT endpoint 0
/// answer with STALL, and after a flush of its FIFO IN endpoint 0 as well. Nothing else is
/// done.
pub proof fn stall_effect(m: Model, d: Device)
    requires
        m.wf(),
        d.wf(),
    ensures
        ({
            let actions = stall_actions(m);
            let after = perform_all(d, actions);
            &&& m.memory is Some ==> actions.len() == 7 && after.out_descriptors
                == ready_to_receive(d.out_descriptors, m.next_out_idx as int)
            &&& m.memory is None ==> actions.len() == 6 && after.out_descriptors
                == d.out_descriptors
            &&& listening(endpoint_mask(d), endpoint_mask(after))
            &&& after.register(Register::OutControl(0)) == 0x8020_0000
            &&& after.register(Register::InControl(0)) == 0x8020_0000
            &&& after.register(Register::Reset) & 0x20 == 0
            &&& only_registers(
                d,
                after,
                set![
                    Register::DeviceAllEpInterruptMask,
                    Register::OutControl(0),
                    Register::InControl(0),
                    Register::Reset,
                ],
            )
            &&& only_out_side(d, after)
            &&& flushes_at(actions, actions.len() - 3)
            &&& precedes(
                actions,
                |a: Action| !touches(a, Register::InControl(0)),
                |a: Action| touches(a, Register::InControl(0)),
            )
            &&& precedes(
                actions,
                |a: Action| a is OutFlags,
                |a: Action| touches(a, Register::OutControl(0)),
            )
        }),
{
    broadcast use group_perform;

    offer_effect(m, d);
    let offered = perform_all(d, offer_out_descriptor(m));
    listen_effect(offered);
    let listening_device = perform_all(offered, listen_to_host());
    let out_stall = seq![
        Action::Write { register: Register::OutControl(0), value: enable_and_stall() },
    ];
    let stalled = perform_all(listening_device, out_stall);
    flush_tx_effect(stalled, 0);
    let flushed = perform_all(stalled, flush_tx_actions(0));
    assert(flushed.register(Register::OutControl(0)) == 0x8020_0000);
    assert(flushed.register(Register::DeviceAllEpInterruptMask) == listening_device.register(
        Register::DeviceAllEpInterruptMask,
    ));
}

/// A received packet makes the next OUT descriptor the current one and the other one the
/// next, at which the controller is pointed. Without buffers nothing happens.
pub proof fn rx_effect(m: Model, d: Device)
    requires
        m.wf(),
    ensures
        m.memory is Some ==> rx_model(m) == (Model {
            cur_out_idx: m.next_out_idx,
            next_out_idx: (1 - m.next_out_idx) as usize,
            ..m
        }),
        m.memory is Some ==> rx_actions(m).len() == 1 && perform_all(d, rx_actions(m)) == (Device {
            out_dma: (1 - m.next_out_idx) as usize,
            ..d
        }),
        m.memory is None ==> rx_model(m) == m && rx_actions(m).len() == 0,
{
    broadcast use group_perform;

}

proof fn clean_effect(memory: Ep0Memory, d: Device)
    requires
        memory.wf(),
        d.wf(),
    ensures
        ({
            let after = perform_all(d, clean_descriptors(memory));
            &&& clean_descriptors(memory).len() == 8
            &&& addressed(after, memory)
            &&& after.out_dma == 0
            &&& after.in_dma == 0
            &&& forall|i: int|
                0 <= i < 2 ==> (#[trigger] after.out_descriptors[i]).flags == 0xc000_0000
            &&& forall|i: int|
                0 <= i < 4 ==> (#[trigger] after.in_descriptors[i]).flags == 0xc000_0000
            &&& after.registers == d.registers
            &&& after.in_buffer == d.in_buffer
        }),
{
    broadcast use group_perform;

    let outs = Seq::new(OUT_DESCRIPTORS as nat, |i: int| idle_out_descriptor(memory, i));
    let ins = Seq::new(IN_DESCRIPTORS as nat, |i: int| idle_in_descriptor(memory, i));
    let aim = seq![Action::OutDma { index: 0 }];
    perform_two(d, outs);
    perform_four(perform_all(d, outs + aim), ins);
}

/// A reset makes the driver wait for a SETUP packet whatever it was doing. With buffers it
/// gives every descriptor its own 64 bytes of buffer and takes it from the controller, but
/// for the first OUT descriptor, which is ready to receive; it points the controller at the
/// first descriptor of each kind, listens to the host, and as its last action enables OUT
/// endpoint 0 with its NAK bit cleared.
pub proof fn reset_effect(m: Model, d: Device)
    requires
        m.wf(),
        d.wf(),
    ensures
        m.memory is Some ==> reset_model(m) == (Model {
            state: USBState::WaitingForSetupPacket,
            next_out_idx: 0,
            ..m
        }),
        m.memory is None ==> reset_model(m) == (Model {
            state: USBState::WaitingForSetupPacket,
            ..m
        }),
        ({
            let actions = reset_actions(m);
            let after = perform_all(d, actions);
            &&& m.memory matches Some(memory) ==> {
                &&& actions.len() == 12
                &&& addressed(after, memory)
                &&& after.out_dma == 0
                &&& after.in_dma == 0
                &&& after.out_descriptors[0].flags == 0x0a00_0040
                &&& after.out_descriptors[1].flags == 0xc000_0000
                &&& forall|i: int|
                    0 <= i < 4 ==> (#[trigger] after.in_descriptors[i]).flags == 0xc000_0000
                &&& after.in_buffer == d.in_buffer
            }
            &&& m.memory is None ==> actions.len() == 3 && only_out_side(d, after)
                && after.out_descriptors == d.out_descriptors
            &&& listening(endpoint_mask(d), endpoint_mask(after))
            &&& after.register(Register::OutControl(0)) == 0x8400_0000
            &&& only_registers(
                d,
                after,
                set![Register::DeviceAllEpInterruptMask, Register::OutControl(0)],
            )
            &&& actions.last() == (Action::Write {
                register: Register::OutControl(0),
                value: 0x8400_0000,
            })
        }),
{
    broadcast use group_perform;

    match m.memory {
        Some(memory) => {
            clean_effect(memory, d);
            let clean = perform_all(d, clean_descriptors(memory));
            expect_setup_effect(reset_model(m), clean);
            let after = perform_all(d, reset_actions(m));
            assert(forall|r: Register| #[trigger] clean.register(r) == d.register(r));
            assert(after == perform_all(clean, expect_setup_actions(reset_model(m))));
        },
        None => {
            assert(reset_actions(m) =~= expect_setup_actions(reset_model(m)));
            expect_setup_effect(reset_model(m), d);
        },
    }
}

/// The control word for both directions of endpoint 0 when a transfer starts: ENABLE, and
/// the NAK bit is cleared exactly if the OUT interrupts were those of case C.
pub open spec fn starts(d: Device, transfer_type: TableCase) -> bool {
    let control = if transfer_type == TableCase::C {
        0x8400_0000u32
    } else {
        0x8000_0000u32
    };
    d.register(Register::InControl(0)) == control && d.register(Register::OutControl(0)) == control
}

/// IN endpoint 0 is written only after its FIFO was flushed, the controller pointed at the
/// descriptor and everything that it is to send stored; OUT endpoint 0 only after its
/// descriptor was readied; and the interrupts are enabled last.
pub open spec fn starts_in_order(actions: Seq<Action>) -> bool {
    &&& precedes(
        actions,
        |a: Action|
            a is InByte || a is InFlags || a is InDescriptor || a is InDma || touches(
                a,
                Register::Reset,
            ),
        |a: Action| touches(a, Register::InControl(0)),
    )
    &&& precedes(actions, |a: Action| touches(a, Register::Reset), |a: Action| a is InDma)
    &&& flushes_at(actions, actions.len() - 7)
    &&& precedes(
        actions,
        |a: Action| a is OutFlags,
        |a: Action| touches(a, Register::OutControl(0)),
    )
    &&& precedes(
        actions,
        |a: Action| !touches(a, Register::DeviceAllEpInterruptMask),
        |a: Action| touches(a, Register::DeviceAllEpInterruptMask),
    )
}

proof fn start_effect(m: Model, d: Device, transfer_type: TableCase)
    requires
        m.wf(),
        d.wf(),
    ensures
        ({
            let actions = start_in_phase(m, transfer_type);
            let after = perform_all(d, actions);
            &&& actions.len() == 7
            &&& starts(after, transfer_type)
            &&& starts_in_order(actions)
            &&& talking(endpoint_mask(d), endpoint_mask(after))
            &&& after.register(Register::Reset) & 0x20 == 0
            &&& only_registers(
                d,
                after,
                set![
                    Register::DeviceAllEpInterruptMask,
                    Register::OutControl(0),
                    Register::InControl(0),
                    Register::Reset,
                ],
            )
            &&& after.out_descriptors == ready_to_receive(
                d.out_descriptors,
                m.next_out_idx as int,
            )
            &&& after.in_dma == 0
            &&& after.out_dma == d.out_dma
            &&& after.in_descriptors == d.in_descriptors
            &&& after.in_buffer == d.in_buffer
        }),
{
    broadcast use group_perform;

    flush_tx_effect(d, 0);
    let flushed = perform_all(d, flush_tx_actions(0));
    let rest = seq![
        Action::InDma { index: 0 },
        Action::Write { register: Register::InControl(0), value: phase_control(transfer_type) },
        Action::OutFlags { index: m.next_out_idx, flags: out_ready() },
        Action::Write { register: Register::OutControl(0), value: phase_control(transfer_type) },
        Action::Modify {
            register: Register::DeviceAllEpInterruptMask,
            clear: 0,
            set: (ALL_EP_IN0 + ALL_EP_OUT0) as u32,
        },
    ];
    perform_five(flushed, rest);
    assert(start_in_phase(m, transfer_type) == flush_tx_actions(0) + rest);
    let aimed = perform(flushed, rest[0]);
    let sending = perform(aimed, rest[1]);
    let offering = perform(sending, rest[2]);
    let receiving = perform(offering, rest[3]);
    let mask = Register::DeviceAllEpInterruptMask;
    assert(receiving.register(mask) == d.register(mask)) by {
        assert(flushed.register(mask) == d.register(mask));
        assert(sending.register(mask) == d.register(mask));
    }
    let after = perform(receiving, rest[4]);
    talking_mask(d.register(mask));
    assert(sending.register(Register::InControl(0)) == phase_control(transfer_type));
    assert(receiving.register(Register::InControl(0)) == phase_control(transfer_type));
    assert(offering.out_descriptors =~= ready_to_receive(
        d.out_descriptors,
        m.next_out_idx as int,
    ));
    assert forall|r: Register|
        !set![
            Register::DeviceAllEpInterruptMask,
            Register::OutControl(0),
            Register::InControl(0),
            Register::Reset,
        ].contains(r) implies #[trigger] after.register(r) == d.register(r) by {
        assert(flushed.register(r) == d.register(r));
        assert(sending.register(r) == d.register(r));
        assert(receiving.register(r) == d.register(r));
    }
    assert(after.register(Register::Reset) == flushed.register(Register::Reset)) by {
        assert(sending.register(Register::Reset) == flushed.register(Register::Reset));
        assert(receiving.register(Register::Reset) == flushed.register(Register::Reset));
    }
}

/// The data phase starts both directions of endpoint 0 from the first IN descriptor and
/// into the next OUT descriptor, and enables both interrupts. What stands behind the IN
/// descriptors is left alone. Without buffers nothing is done.
pub proof fn data_phase_effect(m: Model, d: Device, transfer_type: TableCase)
    requires
        m.wf(),
        d.wf(),
    ensures
        m.memory is None ==> data_phase_actions(m, transfer_type).len() == 0,
        m.memory is Some ==> {
            let actions = data_phase_actions(m, transfer_type);
            let after = perform_all(d, actions);
            &&& actions.len() == 7
            &&& starts(after, transfer_type)
            &&& starts_in_order(actions)
            &&& talking(endpoint_mask(d), endpoint_mask(after))
            &&& after.register(Register::Reset) & 0x20 == 0
            &&& only_registers(
                d,
                after,
                set![
                    Register::DeviceAllEpInterruptMask,
                    Register::OutControl(0),
                    Register::InControl(0),
                    Register::Reset,
                ],
            )
            &&& after.out_descriptors == ready_to_receive(
                d.out_descriptors,
                m.next_out_idx as int,
            )
            &&& after.in_dma == 0
            &&& after.out_dma == d.out_dma
            &&& after.in_descriptors == d.in_descriptors
            &&& after.in_buffer == d.in_buffer
        },
{
    start_effect(m, d, transfer_type);
}

/// The status phase makes the first IN descriptor send no bytes, as the last and short
/// packet of its transfer, and starts both directions of endpoint 0. The other IN
/// descriptors and the IN buffer are left alone. Without buffers nothing is done.
pub proof fn status_phase_effect(m: Model, d: Device, transfer_type: TableCase)
    requires
        m.wf(),
        d.wf(),
    ensures
        m.memory is None ==> status_phase_actions(m, transfer_type).len() == 0,
        m.memory matches Some(memory) ==> {
            let actions = status_phase_actions(m, transfer_type);
            let after = perform_all(d, actions);
            &&& actions.len() == 8
            &&& starts(after, transfer_type)
            &&& starts_in_order(actions)
            &&& talking(endpoint_mask(d), endpoint_mask(after))
            &&& after.register(Register::Reset) & 0x20 == 0
            &&& only_registers(
                d,
                after,
                set![
                    Register::DeviceAllEpInterruptMask,
                    Register::OutControl(0),
                    Register::InControl(0),
                    Register::Reset,
                ],
            )
            &&& after.out_descriptors == ready_to_receive(
                d.out_descriptors,
                m.next_out_idx as int,
            )
            &&& after.in_descriptors == d.in_descriptors.update(
                0,
                DMADescriptor { flags: 0x0e00_0000, addr: memory.in_buffers },
            )
            &&& after.in_dma == 0
            &&& after.out_dma == d.out_dma
            &&& after.in_buffer == d.in_buffer
        },
{
    broadcast use group_perform;

    if let Some(memory) = m.memory {
        let descriptor = seq![
            Action::InDescriptor { index: 0, flags: in_ready(0), addr: memory.in_buffers },
        ];
        let loaded = perform_all(d, descriptor);
        start_effect(m, loaded, transfer_type);
        let started = start_in_phase(m, transfer_type);
        let actions = status_phase_actions(m, transfer_type);
        let after = perform_all(d, actions);
        assert(actions == descriptor + started);
        assert(after == perform_all(loaded, started));
        assert(forall|r: Register| #[trigger] loaded.register(r) == d.register(r));
        in_order_after(descriptor, started);
    }
}

proof fn in_order_after(before: Seq<Action>, started: Seq<Action>)
    requires
        starts_in_order(started),
        every(
            before,
            |a: Action| a is InByte || a is InFlags || a is InDescriptor,
        ),
    ensures
        starts_in_order(before + started),
{
    let whole = before + started;
    let kind = |a: Action| a is InByte || a is InFlags || a is InDescriptor;
    assert forall|i: int| 0 <= i < before.len() implies kind(#[trigger] whole[i]) by {
        assert(whole[i] == before[i]);
        assert(kind(before[i]));
    }
    assert forall|i: int| before.len() <= i < whole.len() implies #[trigger] whole[i]
        == started[i - before.len()] by {}
}

/// A reply of `n` bytes, which is what there is or what the host asked for, whichever is
/// less, is stored from the start of the IN buffer on. The first IN descriptor sends the
/// first 64 bytes, the second the next 64, and so on; the one that sends what is left is
/// the last of the transfer, short, with an interrupt on completion. Their addresses, and
/// the descriptors that are not needed, are left alone.
pub proof fn reply_effect(
    m: Model,
    d: Device,
    transfer_type: TableCase,
    bytes: Seq<u8>,
    w_length: u16,
)
    requires
        m.wf(),
        d.wf(),
        bytes.len() <= 256,
    ensures
        m.memory is None ==> reply_actions(m, transfer_type, bytes, w_length).len() == 0,
        m.memory is Some ==> {
            let actions = reply_actions(m, transfer_type, bytes, w_length);
            let after = perform_all(d, actions);
            let n = if bytes.len() < w_length {
                bytes.len() as int
            } else {
                w_length as int
            };
            &&& actions.len() == bytes.len() + (if n <= 64 {
                1int
            } else if n <= 128 {
                2
            } else if n <= 192 {
                3
            } else {
                4
            }) + 7
            &&& after.in_buffer == bytes + d.in_buffer.skip(bytes.len() as int)
            &&& forall|i: int|
                #![trigger after.in_descriptors[i]]
                0 <= i < 4 ==> {
                    &&& after.in_descriptors[i].addr == d.in_descriptors[i].addr
                    &&& n - 64 * i > 64 ==> after.in_descriptors[i].flags == 0x40
                    &&& n - 64 * i <= 64 && (i == 0 || n - 64 * i > 0)
                        ==> after.in_descriptors[i].flags == 0x0e00_0000 + (n - 64 * i)
                    &&& n - 64 * i <= 0 && i > 0 ==> after.in_descriptors[i].flags
                        == d.in_descriptors[i].flags
                }
            &&& starts(after, transfer_type)
            &&& starts_in_order(actions)
            &&& talking(endpoint_mask(d), endpoint_mask(after))
            &&& after.register(Register::Reset) & 0x20 == 0
            &&& only_registers(
                d,
                after,
                set![
                    Register::DeviceAllEpInterruptMask,
                    Register::OutControl(0),
                    Register::InControl(0),
                    Register::Reset,
                ],
            )
            &&& after.out_descriptors == ready_to_receive(
                d.out_descriptors,
                m.next_out_idx as int,
            )
            &&& after.in_dma == 0
            &&& after.out_dma == d.out_dma
        },
{
    broadcast use group_perform;

    if m.memory is Some {
        let n = reply_length(bytes, w_length);
        let fill = fill_in_buffer(bytes);
        let load = load_in_descriptors(n);
        filling_the_buffer(d, bytes, bytes.len());
        assert(fill.take(bytes.len() as int) =~= fill);
        assert(bytes.take(bytes.len() as int) =~= bytes);
        let filled = perform_all(d, fill);
        assert(filled.wf());
        loading_the_descriptors(filled, n, reply_descriptors(n));
        assert(load.take(reply_descriptors(n)) =~= load);
        let loaded = perform_all(filled, load);
        let started = start_in_phase(m, transfer_type);
        start_effect(m, loaded, transfer_type);
        let actions = reply_actions(m, transfer_type, bytes, w_length);
        assert(actions == fill + load + started);
        let after = perform_all(d, actions);
        assert(after == perform_all(loaded, started));
        assert(forall|r: Register| #[trigger] loaded.register(r) == d.register(r));
        in_order_after(fill + load, started);
        assert forall|i: int| 0 <= i < 4 implies ({
            &&& (#[trigger] loaded.in_descriptors[i]).addr == d.in_descriptors[i].addr
            &&& n - 64 * i > 64 ==> loaded.in_descriptors[i].flags == 0x40
            &&& n - 64 * i <= 64 && (i == 0 || n - 64 * i > 0) ==> loaded.in_descriptors[i].flags
                == 0x0e00_0000 + (n - 64 * i)
            &&& n - 64 * i <= 0 && i > 0 ==> loaded.in_descriptors[i].flags
                == d.in_descriptors[i].flags
        }) by {}
    }
}

} // verus!
