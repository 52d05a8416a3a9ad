//! Laws of what the actions of the driver do to the controller.
use vstd::prelude::*;

use crate::action::{modification, wait_is_over, Action, Register};
use crate::constants::{
    ALL_EP_IN0, ALL_EP_OUT0, CONFIG_ADDRESS, CONFIG_FULL_SPEED, CONFIG_SCATTER_GATHER,
    CONTROL_CLEAR_GLOBAL_IN_NAK, CONTROL_CLEAR_GLOBAL_OUT_NAK, CONTROL_POWER_ON_DONE,
    CONTROL_SOFT_DISCONNECT, DESC_HOST_BUSY, DESC_LAST, GET_DESCRIPTOR_DEVICE_QUALIFIER,
    IN_DESCRIPTORS, OUT_DESCRIPTORS, RESET_RX_FLUSH, RESET_TX_FLUSH, USB_RESET,
};
use crate::device::{
    every, group_perform, perform, perform_all, perform_five, perform_four, perform_two, touches,
    Device,
};
use crate::interrupt::{
    ep0_actions, ep0_model, finish_actions, finish_model, global_actions, next_model, next_stage,
    stage_actions, Interrupt,
};
use crate::laws::interrupts_keep_wf;
use crate::model::{
    chunk_flags, chunk_length, clean_descriptors, enable_and_clear_nak, enable_and_stall,
    expect_setup_actions, fill_in_buffer, flush_rx_actions, flush_tx_actions, idle_in_descriptor,
    idle_out_descriptor, in_ready, listen_to_host, load_in_descriptors, offer_out_descriptor,
    out_ready, phase_control, reply_actions, reply_descriptors, reply_length, reset_actions,
    reset_model, stall_actions, start_in_phase, status_phase_actions, waiting_model, Ep0Memory,
    Model, USBState,
};
use crate::request::{reply_bytes, requested_address, setup_actions, setup_fault, setup_model};
use crate::run_laws::{
    ep0_is_routine, expect_setup_is_routine, in_bounds, routine, run_actions,
    run_clears_what_was_pending, run_model, setup_is_routine,
};
use crate::setup::{setup_request, SetupDirection, SetupRequest, SetupRequestType};
use crate::startup::{
    chip_configuration, clear_interrupts, configure_actions, fifo_actions, go_online,
    wanted_interrupts,
};
use crate::table_case::TableCase;

verus! {

proof fn dma_is_kept(d: Device, actions: Seq<Action>)
    requires
        every(actions, |a: Action| !(a is OutDma)),
    ensures
        perform_all(d, actions).out_dma == d.out_dma,
    decreases actions.len(),
{
    if actions.len() > 0 {
        let condition = |a: Action| !(a is OutDma);
        assert(condition(actions[actions.len() - 1]));
        assert forall|i: int| 0 <= i < actions.drop_last().len() implies condition(
            #[trigger] actions.drop_last()[i],
        ) by {
            assert(condition(actions[i]));
        }
        dma_is_kept(d, actions.drop_last());
    }
}

proof fn reset_aims_dma(m: Model, d: Device)
    requires
        m.wf(),
        m.memory is Some,
    ensures
        perform_all(d, reset_actions(m)).out_dma == 0,
{
    broadcast use group_perform;

    let memory = m.memory->0;
    let outs = Seq::new(OUT_DESCRIPTORS as nat, |i: int| idle_out_descriptor(memory, i));
    let ins = Seq::new(IN_DESCRIPTORS as nat, |i: int| idle_in_descriptor(memory, i));
    let aimed = perform_all(d, outs + seq![Action::OutDma { index: 0 }]);
    assert(aimed.out_dma == 0);
    dma_is_kept(aimed, ins);
    let clean = perform_all(d, clean_descriptors(memory));
    assert(clean.out_dma == 0);
    expect_setup_is_routine(reset_model(m));
    dma_is_kept(clean, expect_setup_actions(reset_model(m)));
}

proof fn finish_aims_dma(m: Model, d: Device, status: u32)
    requires
        m.wf(),
        d.out_dma == m.next_out_idx,
    ensures
        perform_all(d, finish_actions(m, status)).out_dma == finish_model(m, status).next_out_idx,
{
    broadcast use group_perform;

    if status & USB_RESET != 0 {
        if m.memory is Some {
            reset_aims_dma(m, d);
        } else {
            expect_setup_is_routine(reset_model(m));
            assert(reset_actions(m) =~= expect_setup_actions(reset_model(m)));
            dma_is_kept(d, reset_actions(m));
        }
    }
}

/// The controller and the driver agree on which OUT descriptor receives the next
/// packet: if they do before a word is handled, they do after the actions that
/// follow from it.
pub proof fn controller_follows_next_out_idx(m: Model, d: Device, stage: Interrupt, word: u32)
    requires
        m.wf(),
        d.out_dma == m.next_out_idx,
    ensures
        perform_all(d, stage_actions(m, stage, word)).out_dma == next_model(
            m,
            stage,
            word,
        ).next_out_idx,
{
    broadcast use group_perform;

    match stage {
        Interrupt::Mask { status } => {
            let global = global_actions(status, word);
            assert(every(global, |a: Action| routine(m.memory, a)));
            dma_is_kept(d, global);
            finish_aims_dma(m, perform_all(d, global), status);
        },
        Interrupt::AllEndpoints { status } => {
            finish_aims_dma(m, d, status);
        },
        Interrupt::Flags { status, inter_out, inter_in, out_interrupts, in_interrupts, .. } => {
            let events = ep0_actions(m, inter_out, inter_in, out_interrupts, in_interrupts, word);
            ep0_is_routine(m, inter_out, inter_in, out_interrupts, in_interrupts, word);
            dma_is_kept(d, events);
            finish_aims_dma(
                ep0_model(m, inter_out, out_interrupts, word),
                perform_all(d, events),
                status,
            );
        },
        Interrupt::SetupHigh { status, transfer_type, low, .. } => {
            let req = setup_request(low, word);
            let answer = setup_actions(m, transfer_type, req);
            setup_is_routine(m, transfer_type, req);
            dma_is_kept(d, answer);
            finish_aims_dma(setup_model(m, req), perform_all(d, answer), status);
        },
        _ => {},
    }
}

/// The agreement on the next OUT descriptor outlasts whole runs of the interrupt
/// handler.
pub proof fn controller_agrees_after_a_run(m: Model, d: Device, stage: Interrupt, words: Seq<u32>)
    requires
        m.wf(),
        d.out_dma == m.next_out_idx,
    ensures
        perform_all(d, run_actions(m, stage, words)).out_dma == run_model(
            m,
            stage,
            words,
        ).next_out_idx,
    decreases words.len(),
{
    broadcast use group_perform;

    if words.len() > 0 {
        interrupts_keep_wf(m, stage, words[0]);
        controller_follows_next_out_idx(m, d, stage, words[0]);
        controller_agrees_after_a_run(
            next_model(m, stage, words[0]),
            perform_all(d, stage_actions(m, stage, words[0])),
            next_stage(m, stage, words[0]),
            words.drop_first(),
        );
    }
}

/// After a USB RESET the controller receives into the first OUT descriptor, which is
/// the one that the driver expects, whatever was the case before.
pub proof fn reset_makes_controller_agree(m: Model, d: Device)
    requires
        m.wf(),
        m.memory is Some,
    ensures
        perform_all(d, reset_actions(m)).out_dma == reset_model(m).next_out_idx,
        reset_model(m).state == USBState::WaitingForSetupPacket,
{
    reset_aims_dma(m, d);
}

/// The all-endpoints interrupt mask of the device.
pub open spec fn endpoint_mask(d: Device) -> u32 {
    d.register(Register::DeviceAllEpInterruptMask)
}

pub(crate) proof fn performing_listen(d: Device)
    ensures
        ({
            let after = perform_all(d, listen_to_host());
            let unmasked = modification(endpoint_mask(d), 0, ALL_EP_OUT0);
            &&& endpoint_mask(after) == modification(unmasked, ALL_EP_IN0, 0)
            &&& after == (Device { registers: after.registers, ..d })
            &&& forall|r: Register|
                r != Register::DeviceAllEpInterruptMask ==> #[trigger] after.register(r)
                    == d.register(r)
        }),
{
    perform_two(d, listen_to_host());
}

proof fn performing_flush(d: Device)
    ensures
        ({
            let after = perform_all(d, flush_tx_actions(0));
            &&& after == (Device { registers: after.registers, ..d })
            &&& forall|r: Register|
                r != Register::Reset ==> #[trigger] after.register(r) == d.register(r)
        }),
{
    perform_two(d, flush_tx_actions(0));
}

proof fn performing_start(m: Model, d: Device, transfer_type: TableCase)
    requires
        m.wf(),
        d.wf(),
    ensures
        ({
            let after = perform_all(d, start_in_phase(m, transfer_type));
            let next = m.next_out_idx as int;
            &&& endpoint_mask(after) & ALL_EP_OUT0 == ALL_EP_OUT0
            &&& endpoint_mask(after) & ALL_EP_IN0 == ALL_EP_IN0
            &&& after.register(Register::InControl(0)) == phase_control(transfer_type)
            &&& after.register(Register::OutControl(0)) == phase_control(transfer_type)
            &&& after.register(Register::DeviceConfig) == d.register(Register::DeviceConfig)
            &&& after.in_dma == 0
            &&& after.out_dma == d.out_dma
            &&& after.in_descriptors == d.in_descriptors
            &&& after.in_buffer == d.in_buffer
            &&& after.out_descriptors[next].flags == out_ready()
        }),
{
    broadcast use group_perform;

    performing_flush(d);
    let flushed = perform_all(d, flush_tx_actions(0));
    let rest = seq![
        Action::InDma { index: 0 },
        Action::Write { register: Register::InControl(0), value: phase_control(transfer_type) },
        Action::OutFlags { index: m.next_out_idx, flags: out_ready() },
        Action::Write { register: Register::OutControl(0), value: phase_control(transfer_type) },
        Action::Modify {
            register: Register::DeviceAllEpInterruptMask,
            clear: 0,
            set: (ALL_EP_IN0 + ALL_EP_OUT0) as u32,
        },
    ];
    perform_five(flushed, rest);
    assert(start_in_phase(m, transfer_type) == flush_tx_actions(0) + rest);
    let aimed = perform(flushed, rest[0]);
    let sending = perform(aimed, rest[1]);
    let offering = perform(sending, rest[2]);
    let receiving = perform(offering, rest[3]);
    let mask = Register::DeviceAllEpInterruptMask;
    assert(flushed.register(mask) == d.register(mask));
    assert(sending.register(mask) == d.register(mask));
    assert(receiving.register(mask) == d.register(mask));
    assert(flushed.register(Register::DeviceConfig) == d.register(Register::DeviceConfig));
    assert(sending.register(Register::InControl(0)) == phase_control(transfer_type));
    assert(offering.out_descriptors[m.next_out_idx as int].flags == out_ready());
    let before = endpoint_mask(d);
    let unmasked = (before & !0u32) | 0x0001_0001u32;
    assert(unmasked & 0x0001_0000u32 == 0x0001_0000u32 && unmasked & 0x0000_0001u32
        == 0x0000_0001u32) by (bit_vector)
        requires
            unmasked == (before & !0u32) | 0x0001_0001u32,
    ;
}

/// Preparing for a SETUP packet leaves the next OUT descriptor ready, the OUT
/// interrupt of endpoint 0 enabled and its IN interrupt disabled, the interrupts of
/// the other endpoints as they were, and OUT endpoint 0 enabled with its NAK bit
/// cleared.
pub proof fn setup_packet_is_awaited(m: Model, d: Device)
    requires
        m.wf(),
        m.memory is Some,
        d.wf(),
    ensures
        ({
            let after = perform_all(d, expect_setup_actions(m));
            let next = m.next_out_idx as int;
            &&& after.out_descriptors[next].flags == out_ready()
            &&& after.out_descriptors[1 - next] == d.out_descriptors[1 - next]
            &&& endpoint_mask(after) & ALL_EP_OUT0 == ALL_EP_OUT0
            &&& endpoint_mask(after) & ALL_EP_IN0 == 0
            &&& endpoint_mask(after) & !(ALL_EP_OUT0 | ALL_EP_IN0) == endpoint_mask(d) & !(
            ALL_EP_OUT0 | ALL_EP_IN0)
            &&& after.register(Register::OutControl(0)) == enable_and_clear_nak()
        }),
{
    broadcast use group_perform;

    let offered = perform_all(d, offer_out_descriptor(m));
    performing_listen(offered);
    let before = endpoint_mask(d);
    let masked = ((((before & !0u32) | 0x0001_0000u32) & !0x0000_0001u32) | 0u32);
    assert(masked & 0x0001_0000u32 == 0x0001_0000u32 && masked & 0x0000_0001u32 == 0 && masked & !(
    0x0001_0000u32 | 0x0000_0001u32) == before & !(0x0001_0000u32 | 0x0000_0001u32))
        by (bit_vector)
        requires
            masked == ((((before & !0u32) | 0x0001_0000u32) & !0x0000_0001u32) | 0u32),
    ;
}

/// Stalling leaves both directions of endpoint 0 answering with STALL, and the
/// driver waiting for the host to send a new SETUP packet.
pub proof fn stall_answers_both_directions(m: Model, d: Device)
    ensures
        ({
            let after = perform_all(d, stall_actions(m));
            &&& after.register(Register::OutControl(0)) == enable_and_stall()
            &&& after.register(Register::InControl(0)) == enable_and_stall()
            &&& waiting_model(m).state == USBState::WaitingForSetupPacket
        }),
{
    broadcast use group_perform;

    let offered = perform_all(d, offer_out_descriptor(m));
    performing_listen(offered);
    let stalled = perform_all(
        offered,
        listen_to_host() + seq![
            Action::Write { register: Register::OutControl(0), value: enable_and_stall() },
        ],
    );
    performing_flush(stalled);
    let flushed = perform_all(stalled, flush_tx_actions(0));
    assert(flushed.register(Register::OutControl(0)) == enable_and_stall());
}

/// A USB RESET gives every descriptor back to the driver, each with its own 64 bytes
/// of buffer, readies the first OUT descriptor for a SETUP packet, and leaves the
/// driver waiting for it.
pub proof fn reset_cleans_descriptors(m: Model, d: Device)
    requires
        m.wf(),
        d.wf(),
        m.memory is Some,
    ensures
        ({
            let after = perform_all(d, reset_actions(m));
            let memory = m.memory->0;
            &&& reset_model(m).state == USBState::WaitingForSetupPacket
            &&& addressed(after, memory)
            &&& after.out_dma == 0
            &&& after.in_dma == 0
            &&& after.out_descriptors[0].flags == out_ready()
            &&& after.out_descriptors[1].flags == DESC_HOST_BUSY
            &&& forall|i: int|
                0 <= i < 4 ==> (#[trigger] after.in_descriptors[i]).flags == DESC_HOST_BUSY
        }),
{
    broadcast use group_perform;

    let memory = m.memory->0;
    let outs = Seq::new(OUT_DESCRIPTORS as nat, |i: int| idle_out_descriptor(memory, i));
    let ins = Seq::new(IN_DESCRIPTORS as nat, |i: int| idle_in_descriptor(memory, i));
    let aim = seq![Action::OutDma { index: 0 }];
    perform_two(d, outs);
    perform_four(perform_all(d, outs + aim), ins);
    let clean = perform_all(d, clean_descriptors(memory));
    assert(clean.out_descriptors.len() == 2);
    assert(clean.in_descriptors.len() == 4);
    let waiting = reset_model(m);
    performing_listen(perform_all(clean, offer_out_descriptor(waiting)));
    let after = perform_all(clean, expect_setup_actions(waiting));
    assert(after.in_descriptors == clean.in_descriptors);
}

pub(crate) proof fn filling_the_buffer(d: Device, bytes: Seq<u8>, n: nat)
    requires
        d.wf(),
        n <= bytes.len() <= 256,
    ensures
        perform_all(d, fill_in_buffer(bytes).take(n as int)) == (Device {
            in_buffer: bytes.take(n as int) + d.in_buffer.skip(n as int),
            ..d
        }),
    decreases n,
{
    broadcast use group_perform;

    let actions = fill_in_buffer(bytes).take(n as int);
    if n == 0 {
        assert(actions =~= seq![]);
        assert(bytes.take(0) + d.in_buffer.skip(0) =~= d.in_buffer);
    } else {
        let m = (n - 1) as nat;
        filling_the_buffer(d, bytes, m);
        assert(actions.drop_last() =~= fill_in_buffer(bytes).take(m as int));
        assert((bytes.take(m as int) + d.in_buffer.skip(m as int)).update(m as int, bytes[m as int])
            =~= bytes.take(n as int) + d.in_buffer.skip(n as int));
    }
}

pub(crate) proof fn loading_the_descriptors(d: Device, n: int, k: int)
    requires
        d.wf(),
        0 <= n <= 256,
        0 <= k <= reply_descriptors(n),
    ensures
        ({
            let after = perform_all(d, load_in_descriptors(n).take(k));
            &&& after == (Device { in_descriptors: after.in_descriptors, ..d })
            &&& after.wf()
            &&& forall|i: int|
                0 <= i < 4 ==> (#[trigger] after.in_descriptors[i]).addr
                    == d.in_descriptors[i].addr && after.in_descriptors[i].flags == if i < k {
                    chunk_flags(n, i)
                } else {
                    d.in_descriptors[i].flags
                }
        }),
    decreases k,
{
    broadcast use group_perform;

    let actions = load_in_descriptors(n).take(k);
    if k == 0 {
        assert(actions =~= seq![]);
    } else {
        loading_the_descriptors(d, n, k - 1);
        assert(actions.drop_last() =~= load_in_descriptors(n).take(k - 1));
    }
}

/// A reply of up to 256 bytes is divided among up to four IN descriptors. All but the
/// final one carry 64 bytes, the final one the rest; the flags of each say how many bytes
/// it carries, and only the final one is marked as the last of the transfer.
pub proof fn reply_is_divided(n: int, i: int)
    requires
        0 <= n <= 256,
        0 <= i < reply_descriptors(n),
    ensures
        1 <= reply_descriptors(n) <= 4,
        n > 0 ==> reply_descriptors(n) == (n + 63) / 64,
        0 <= chunk_length(n, i) <= 64,
        i < reply_descriptors(n) - 1 ==> chunk_length(n, i) == 64,
        i == reply_descriptors(n) - 1 ==> 64 * i + chunk_length(n, i) == n,
        chunk_flags(n, i) % 0x1_0000 == chunk_length(n, i),
        chunk_flags(n, i) & DESC_LAST != 0 <==> i == reply_descriptors(n) - 1,
        n <= 64 ==> chunk_flags(n, i) == in_ready(n),
{
    let length = chunk_length(n, i) as u32;
    let last = (0x0e00_0000 + length) as u32;
    assert(last & 0x0800_0000u32 != 0 && length & 0x0800_0000u32 == 0) by (bit_vector)
        requires
            length <= 64,
            last == 0x0e00_0000u32 + length,
    ;
}

/// A reply is sent from the start of the IN buffer: its bytes, cut off at the length that
/// the host asked for. The IN descriptors each send their part of 64 bytes, in sequence.
/// The next OUT descriptor in turn is ready to receive, and both interrupts of endpoint 0
/// are enabled.
pub proof fn reply_is_sent(
    m: Model,
    d: Device,
    transfer_type: TableCase,
    bytes: Seq<u8>,
    w_length: u16,
)
    requires
        m.wf(),
        d.wf(),
        m.memory is Some,
        bytes.len() <= 256,
    ensures
        ({
            let after = perform_all(d, reply_actions(m, transfer_type, bytes, w_length));
            let length = reply_length(bytes, w_length);
            &&& 0 <= length <= w_length
            &&& length <= bytes.len()
            &&& length == bytes.len() || length == w_length
            &&& after.in_buffer == bytes + d.in_buffer.skip(bytes.len() as int)
            &&& after.in_dma == 0
            &&& forall|i: int|
                0 <= i < reply_descriptors(length) ==> (#[trigger] after.in_descriptors[i]).flags
                    == chunk_flags(length, i)
            &&& forall|i: int|
                reply_descriptors(length) <= i < 4 ==> #[trigger] after.in_descriptors[i]
                    == d.in_descriptors[i]
            &&& forall|i: int|
                0 <= i < 4 ==> (#[trigger] after.in_descriptors[i]).addr
                    == d.in_descriptors[i].addr
            &&& after.out_descriptors[m.next_out_idx as int].flags == out_ready()
            &&& after.register(Register::InControl(0)) == phase_control(transfer_type)
            &&& after.register(Register::OutControl(0)) == phase_control(transfer_type)
            &&& endpoint_mask(after) & ALL_EP_OUT0 == ALL_EP_OUT0
            &&& endpoint_mask(after) & ALL_EP_IN0 == ALL_EP_IN0
        }),
{
    broadcast use group_perform;

    filling_the_buffer(d, bytes, bytes.len());
    assert(fill_in_buffer(bytes).take(bytes.len() as int) =~= fill_in_buffer(bytes));
    assert(bytes.take(bytes.len() as int) =~= bytes);
    let length = reply_length(bytes, w_length);
    let filled = perform_all(d, fill_in_buffer(bytes));
    assert(filled.wf());
    loading_the_descriptors(filled, length, reply_descriptors(length));
    assert(load_in_descriptors(length).take(reply_descriptors(length)) =~= load_in_descriptors(
        length,
    ));
    let loaded = perform_all(d, fill_in_buffer(bytes) + load_in_descriptors(length));
    performing_start(m, loaded, transfer_type);
    assert forall|i: int| reply_descriptors(length) <= i < 4 implies #[trigger]
        loaded.in_descriptors[i] == d.in_descriptors[i] by {}
}

/// Every descriptor points at its own 64 bytes of buffer.
pub open spec fn addressed(d: Device, memory: Ep0Memory) -> bool {
    &&& d.wf()
    &&& forall|i: int|
        0 <= i < 2 ==> (#[trigger] d.out_descriptors[i]).addr == memory.out_buffers + 64 * i
    &&& forall|i: int|
        0 <= i < 4 ==> (#[trigger] d.in_descriptors[i]).addr == memory.in_buffers + 64 * i
}

/// The bytes that IN descriptor `i` sends: as many as its flags say, from its address on.
pub open spec fn sent_by(d: Device, memory: Ep0Memory, i: int) -> Seq<u8> {
    let start = d.in_descriptors[i].addr - memory.in_buffers;
    d.in_buffer.subrange(start, start + d.in_descriptors[i].flags as int % 0x1_0000)
}

/// Where the descriptors point at their own buffers, what the IN descriptors send one
/// after the other is the reply: descriptor `i` sends the 64 bytes from byte `64 * i` on,
/// the final one what is left.
pub proof fn reply_goes_out_in_order(
    m: Model,
    d: Device,
    transfer_type: TableCase,
    bytes: Seq<u8>,
    w_length: u16,
    i: int,
)
    requires
        m.wf(),
        m.memory is Some,
        addressed(d, m.memory->0),
        bytes.len() <= 256,
        0 <= i < reply_descriptors(reply_length(bytes, w_length)),
    ensures
        ({
            let after = perform_all(d, reply_actions(m, transfer_type, bytes, w_length));
            let n = reply_length(bytes, w_length);
            sent_by(after, m.memory->0, i) == bytes.subrange(
                64 * i,
                64 * i + chunk_length(n, i),
            )
        }),
{
    let n = reply_length(bytes, w_length);
    let after = perform_all(d, reply_actions(m, transfer_type, bytes, w_length));
    reply_is_sent(m, d, transfer_type, bytes, w_length);
    reply_is_divided(n, i);
    assert(after.in_descriptors[i].addr == d.in_descriptors[i].addr);
    assert(sent_by(after, m.memory->0, i) =~= bytes.subrange(
        64 * i,
        64 * i + chunk_length(n, i),
    ));
}

proof fn addresses_are_kept(m: Model, d: Device, actions: Seq<Action>)
    requires
        m.memory is Some,
        addressed(d, m.memory->0),
        every(actions, |a: Action| in_bounds(m.memory, a)),
    ensures
        addressed(perform_all(d, actions), m.memory->0),
    decreases actions.len(),
{
    if actions.len() > 0 {
        let condition = |a: Action| in_bounds(m.memory, a);
        assert(condition(actions[actions.len() - 1]));
        assert forall|i: int| 0 <= i < actions.drop_last().len() implies condition(
            #[trigger] actions.drop_last()[i],
        ) by {
            assert(condition(actions[i]));
        }
        addresses_are_kept(m, d, actions.drop_last());
    }
}

/// Once every descriptor points at its own buffer, no run of the interrupt handler
/// changes that.
pub proof fn descriptors_keep_their_buffers(m: Model, d: Device, words: Seq<u32>)
    requires
        m.wf(),
        m.memory is Some,
        addressed(d, m.memory->0),
        words.len() > 0,
    ensures
        addressed(perform_all(d, run_actions(m, Interrupt::Status, words)), m.memory->0),
{
    run_clears_what_was_pending(m, words);
    addresses_are_kept(m, d, run_actions(m, Interrupt::Status, words));
}

/// A flush is over only when the controller has cleared the flush bit.
pub proof fn flushes_are_complete(d: Device, fifo_num: u8)
    ensures
        wait_is_over(
            perform_all(d, flush_tx_actions(fifo_num)).register(Register::Reset),
            RESET_TX_FLUSH,
        ),
        wait_is_over(
            perform_all(d, flush_rx_actions()).register(Register::Reset),
            RESET_RX_FLUSH,
        ),
{
    perform_two(d, flush_tx_actions(fifo_num));
    perform_two(d, flush_rx_actions());
    assert(forall|value: u32, mask: u32| #[trigger] ((value & !mask) | 0u32) & mask == 0)
        by (bit_vector);
}

/// Every standard device-to-host request that the driver has bytes for is answered with
/// those bytes: the host receives them from the first on, as many as it asked for or as
/// there are.
pub proof fn standard_read_is_answered(
    m: Model,
    d: Device,
    transfer_type: TableCase,
    req: SetupRequest,
)
    requires
        m.wf(),
        d.wf(),
        m.memory is Some,
        req.is_standard_device(),
        req.direction_view() == SetupDirection::DeviceToHost,
        setup_fault(req) is None,
        reply_bytes(m, req) is Some,
    ensures
        setup_model(m, req).state == USBState::DataStageIn,
        ({
            let bytes = reply_bytes(m, req)->0;
            let length = reply_length(bytes, req.w_length);
            let after = perform_all(d, setup_actions(m, transfer_type, req));
            &&& after.in_dma == 0
            &&& after.in_descriptors[0].flags == in_ready(length)
            &&& reply_descriptors(length) == 1
            &&& after.in_buffer.take(length) == bytes.take(length)
        }),
{
    let bytes = reply_bytes(m, req)->0;
    assert(bytes.len() <= 18);
    reply_is_sent(m, d, transfer_type, bytes, req.w_length);
}

/// A request for the device qualifier descriptor, which the device does not have, is
/// refused with a STALL.
pub proof fn device_qualifier_is_refused(
    m: Model,
    d: Device,
    transfer_type: TableCase,
    req: SetupRequest,
)
    requires
        m.memory is Some,
        req.is_standard_device(),
        req.direction_view() == SetupDirection::DeviceToHost,
        req.request_view() == SetupRequestType::GetDescriptor,
        req.descriptor_type_view() == GET_DESCRIPTOR_DEVICE_QUALIFIER,
    ensures
        setup_fault(req) is None,
        setup_model(m, req).state == USBState::WaitingForSetupPacket,
        ({
            let after = perform_all(d, setup_actions(m, transfer_type, req));
            &&& after.register(Register::OutControl(0)) == enable_and_stall()
            &&& after.register(Register::InControl(0)) == enable_and_stall()
        }),
{
    stall_answers_both_directions(m, d);
}

/// SET_ADDRESS puts the low seven bits of wValue into bits 10:4 of the device
/// configuration register and leaves its other bits alone.
pub proof fn address_is_set(m: Model, d: Device, transfer_type: TableCase, req: SetupRequest)
    requires
        m.wf(),
        d.wf(),
        m.memory is Some,
        req.is_standard_device(),
        req.direction_view() == SetupDirection::HostToDevice,
        req.w_length == 0,
        req.request_view() == SetupRequestType::SetAddress,
    ensures
        setup_fault(req) is None,
        setup_model(m, req).state == USBState::NoDataStage,
        ({
            let before = d.register(Register::DeviceConfig);
            let after = perform_all(
                d,
                setup_actions(m, transfer_type, req),
            ).register(Register::DeviceConfig);
            &&& after / 0x10 % 0x80 == req.w_value % 0x80
            &&& after & !CONFIG_ADDRESS == before & !CONFIG_ADDRESS
        }),
{
    broadcast use group_perform;

    let memory = m.memory->0;
    let set_address = seq![
        Action::Modify {
            register: Register::DeviceConfig,
            clear: CONFIG_ADDRESS,
            set: (0x10 * requested_address(req)) as u32,
        },
    ];
    let descriptor = seq![
        Action::InDescriptor { index: 0, flags: in_ready(0), addr: memory.in_buffers },
    ];
    let addressed = perform_all(d, set_address);
    performing_start(m, perform_all(addressed, descriptor), transfer_type);
    let before = d.register(Register::DeviceConfig);
    let address = (req.w_value % 0x80) as u32;
    let field = (0x10 * address) as u32;
    let after = (before & !0x7f0u32) | field;
    assert(after / 0x10 % 0x80 == address && after & !0x7f0u32 == before & !0x7f0u32)
        by (bit_vector)
        requires
            address < 0x80,
            field == 0x10 * address,
            after == (before & !0x7f0u32) | field,
    ;
}

/// The device reports the configuration that the host chose: GET_CONFIGURATION after
/// SET_CONFIGURATION sends the low byte of the wValue that came with the latter.
pub proof fn configuration_reads_back(
    m: Model,
    d: Device,
    transfer_type: TableCase,
    write: SetupRequest,
    read: SetupRequest,
)
    requires
        m.wf(),
        d.wf(),
        m.memory is Some,
        write.is_standard_device(),
        write.direction_view() == SetupDirection::HostToDevice,
        write.w_length == 0,
        write.request_view() == SetupRequestType::SetConfiguration,
        read.is_standard_device(),
        read.direction_view() == SetupDirection::DeviceToHost,
        read.request_view() == SetupRequestType::GetConfiguration,
    ensures
        setup_fault(write) is None,
        setup_fault(read) is None,
        ({
            let after = perform_all(
                d,
                setup_actions(setup_model(m, write), transfer_type, read),
            );
            &&& after.in_buffer[0] == write.w_value % 0x100
            &&& after.in_descriptors[0].flags == in_ready(if read.w_length == 0 {
                0
            } else {
                1
            })
        }),
{
    let chosen = setup_model(m, write);
    reply_is_sent(chosen, d, transfer_type, seq![chosen.configuration_value], read.w_length);
}

/// The status phase sends a packet of no bytes by the first IN descriptor, readies the
/// next OUT descriptor, and enables both interrupts of endpoint 0.
pub proof fn status_phase_sends_nothing(m: Model, d: Device, transfer_type: TableCase)
    requires
        m.wf(),
        d.wf(),
        m.memory is Some,
    ensures
        ({
            let after = perform_all(d, status_phase_actions(m, transfer_type));
            &&& after.in_dma == 0
            &&& after.in_descriptors[0].flags == in_ready(0)
            &&& after.in_descriptors[0].addr == m.memory->0.in_buffers
            &&& after.in_buffer == d.in_buffer
            &&& after.out_descriptors[m.next_out_idx as int].flags == out_ready()
            &&& endpoint_mask(after) & ALL_EP_OUT0 == ALL_EP_OUT0
            &&& endpoint_mask(after) & ALL_EP_IN0 == ALL_EP_IN0
        }),
{
    broadcast use group_perform;

    let descriptor = seq![
        Action::InDescriptor { index: 0, flags: in_ready(0), addr: m.memory->0.in_buffers },
    ];
    performing_start(m, perform_all(d, descriptor), transfer_type);
}

pub(crate) proof fn register_is_kept(d: Device, actions: Seq<Action>, register: Register)
    requires
        every(actions, |a: Action| !touches(a, register)),
    ensures
        perform_all(d, actions).register(register) == d.register(register),
    decreases actions.len(),
{
    if actions.len() > 0 {
        let condition = |a: Action| !touches(a, register);
        assert(condition(actions[actions.len() - 1]));
        assert forall|i: int| 0 <= i < actions.drop_last().len() implies condition(
            #[trigger] actions.drop_last()[i],
        ) by {
            assert(condition(actions[i]));
        }
        register_is_kept(d, actions.drop_last(), register);
    }
}

proof fn going_online(d: Device)
    ensures
        ({
            let after = perform_all(d, go_online());
            let c = d.register(Register::DeviceControl);
            &&& after.register(Register::DeviceControl) == (((((((c & !0u32) | 0x0800)
                & !0x0800u32) | 0) & !0u32) | 0x0500) & !0x0002u32) | 0
            &&& after.register(Register::InterruptMask) == wanted_interrupts()
            &&& after.register(Register::DeviceConfig) == d.register(Register::DeviceConfig)
        }),
{
    reveal_with_fuel(perform_all, 9);
}

/// Once the controller is configured, the device is connected at full speed in
/// scatter/gather mode with the interrupts unmasked that the driver wants, and the other
/// bits of the device registers are as they were.
pub proof fn configured_device_is_connected(d: Device)
    ensures
        ({
            let after = perform_all(d, configure_actions());
            let control = after.register(Register::DeviceControl);
            let config = after.register(Register::DeviceConfig);
            let handled = (CONTROL_SOFT_DISCONNECT | CONTROL_POWER_ON_DONE
                | CONTROL_CLEAR_GLOBAL_IN_NAK | CONTROL_CLEAR_GLOBAL_OUT_NAK);
            &&& control & CONTROL_SOFT_DISCONNECT == 0
            &&& control & CONTROL_POWER_ON_DONE == 0
            &&& control & CONTROL_CLEAR_GLOBAL_IN_NAK != 0
            &&& control & CONTROL_CLEAR_GLOBAL_OUT_NAK != 0
            &&& control & !handled == d.register(Register::DeviceControl) & !handled
            &&& config == d.register(Register::DeviceConfig) | 0x0080_0003
            &&& after.register(Register::InterruptMask) == wanted_interrupts()
        }),
{
    broadcast use group_perform;

    let control = Register::DeviceControl;
    let config = Register::DeviceConfig;
    let core = seq![
        Action::Write { register: Register::Configuration, value: chip_configuration() },
        Action::Write { register: Register::AhbConfig, value: 0xa1 },
        Action::Modify {
            register: Register::DeviceControl,
            clear: 0,
            set: CONTROL_SOFT_DISCONNECT,
        },
        Action::Modify {
            register: Register::DeviceConfig,
            clear: 0,
            set: (CONFIG_FULL_SPEED + CONFIG_SCATTER_GATHER) as u32,
        },
    ];
    assert(configure_actions() == core + fifo_actions() + clear_interrupts() + go_online());
    let first = perform_all(d, core);
    perform_four(d, core);
    let c0 = d.register(control);
    let c1 = first.register(control);
    assert(c1 == (c0 & !0u32) | 0x0002);
    let g0 = d.register(config);
    assert(first.register(config) == (g0 & !0u32) | 0x0080_0003);
    assert((g0 & !0u32) | 0x0080_0003 == g0 | 0x0080_0003) by (bit_vector);

    register_is_kept(first, fifo_actions(), control);
    register_is_kept(first, fifo_actions(), config);
    let second = perform_all(first, fifo_actions());
    register_is_kept(second, clear_interrupts(), control);
    register_is_kept(second, clear_interrupts(), config);
    let third = perform_all(second, clear_interrupts());
    assert(third.register(control) == c1);

    going_online(third);
    let last = perform_all(third, go_online());
    assert(last == perform_all(d, configure_actions()));
    let c = (((((((c1 & !0u32) | 0x0800) & !0x0800u32) | 0) & !0u32) | 0x0500) & !0x0002u32) | 0;
    let others = !(0x0002u32 | 0x0800u32 | 0x0100u32 | 0x0400u32);
    assert(last.register(control) == c);
    assert(c & 0x0002 == 0 && c & 0x0800 == 0 && c & 0x0100 != 0 && c & 0x0400 != 0 && c & others
        == c0 & others) by (bit_vector)
        requires
            c1 == (c0 & !0u32) | 0x0002,
            c == (((((((c1 & !0u32) | 0x0800) & !0x0800u32) | 0) & !0u32) | 0x0500) & !0x0002u32)
                | 0,
            others == !(0x0002u32 | 0x0800u32 | 0x0100u32 | 0x0400u32),
    ;
}

} // verus!
