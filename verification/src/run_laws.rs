//! Laws of a run of the interrupt handler, from the first word to the last.
use vstd::prelude::*;

use crate::action::{Action, Register};
use crate::constants::{CONFIG_ADDRESS, USB_RESET};
use crate::device::every;
use crate::interrupt::{
    ep0_actions, ep0_model, finish_actions, global_actions, next_model, next_stage, stage_actions,
    Interrupt,
};
use crate::laws::{
    endpoint_in_range, handler_advances, interrupts_keep_memory_and_identity, interrupts_keep_wf,
    words_left,
};
use crate::model::{
    clean_descriptors, data_phase_actions, expect_setup_actions, fill_in_buffer, in_ready,
    load_in_descriptors, only_if, reply_actions, reply_length, reset_actions, reset_model,
    stall_actions, start_in_phase, status_phase_actions, Ep0Memory, Model, USBState,
};
use crate::request::{reply_bytes, requested_address, setup_actions, setup_model};
use crate::setup::{setup_request, SetupRequest, SetupRequestType};
use crate::table_case::TableCase;

verus! {

/// The action concerns a register that exists, a byte of the IN buffer, or a descriptor
/// that exists, which it gives no address but that of its own 64 bytes of buffer.
pub open spec fn in_bounds(memory: Option<Ep0Memory>, action: Action) -> bool {
    match action {
        Action::Write { register, .. } => endpoint_in_range(register),
        Action::Modify { register, .. } => endpoint_in_range(register),
        Action::WaitClear { register, .. } => endpoint_in_range(register),
        Action::OutDma { index } => index < 2,
        Action::OutFlags { index, .. } => index < 2,
        Action::OutDescriptor { index, addr, .. } => index < 2 && (memory matches Some(buffers)
            && addr == buffers.out_buffers + 64 * index),
        Action::InDma { index } => index < 4,
        Action::InFlags { index, .. } => index < 4,
        Action::InDescriptor { index, addr, .. } => index < 4 && (memory matches Some(buffers)
            && addr == buffers.in_buffers + 64 * index),
        Action::InByte { offset, .. } => offset < 256,
        _ => false,
    }
}

/// The action writes the interrupt status register.
pub open spec fn acknowledges(action: Action) -> bool {
    match action {
        Action::Write { register, .. } => register == Register::InterruptStatus,
        Action::Modify { register, .. } => register == Register::InterruptStatus,
        _ => false,
    }
}

/// In bounds, no acknowledgement of interrupts, no change of the descriptor that
/// receives next.
pub open spec fn routine(memory: Option<Ep0Memory>, action: Action) -> bool {
    in_bounds(memory, action) && !acknowledges(action) && !(action is OutDma)
}

/// In bounds, and no acknowledgement of interrupts.
pub open spec fn quiet(memory: Option<Ep0Memory>, action: Action) -> bool {
    in_bounds(memory, action) && !acknowledges(action)
}

pub(crate) proof fn every_append(a: Seq<Action>, b: Seq<Action>, condition: spec_fn(Action) -> bool)
    requires
        every(a, condition),
        every(b, condition),
    ensures
        every(a + b, condition),
{
    assert forall|i: int| 0 <= i < (a + b).len() implies condition(#[trigger] (a + b)[i]) by {
        if i < a.len() {
            assert((a + b)[i] == a[i]);
        } else {
            assert((a + b)[i] == b[i - a.len()]);
        }
    }
}

pub(crate) proof fn expect_setup_is_routine(m: Model)
    requires
        m.wf(),
    ensures
        every(expect_setup_actions(m), |a: Action| routine(m.memory, a)),
{
}

proof fn stall_is_routine(m: Model)
    requires
        m.wf(),
    ensures
        every(stall_actions(m), |a: Action| routine(m.memory, a)),
{
}

proof fn start_in_phase_is_routine(m: Model, transfer_type: TableCase)
    requires
        m.wf(),
    ensures
        every(start_in_phase(m, transfer_type), |a: Action| routine(m.memory, a)),
{
}

pub(crate) proof fn reply_is_routine(
    m: Model,
    transfer_type: TableCase,
    bytes: Seq<u8>,
    w_length: u16,
)
    requires
        m.wf(),
        bytes.len() <= 256,
    ensures
        every(reply_actions(m, transfer_type, bytes, w_length), |a: Action| routine(m.memory, a)),
{
    start_in_phase_is_routine(m, transfer_type);
    let flags = load_in_descriptors(reply_length(bytes, w_length));
    every_append(fill_in_buffer(bytes), flags, |a: Action| routine(m.memory, a));
    every_append(
        only_if(m.memory is Some, fill_in_buffer(bytes) + flags),
        data_phase_actions(m, transfer_type),
        |a: Action| routine(m.memory, a),
    );
}

pub(crate) proof fn setup_is_routine(m: Model, transfer_type: TableCase, req: SetupRequest)
    requires
        m.wf(),
    ensures
        every(setup_actions(m, transfer_type, req), |a: Action| routine(m.memory, a)),
{
    start_in_phase_is_routine(m, transfer_type);
    stall_is_routine(m);
    match reply_bytes(m, req) {
        Some(bytes) => reply_is_routine(m, transfer_type, bytes, req.w_length),
        None => {},
    }
    let address = only_if(
        req.request_view() == SetupRequestType::SetAddress,
        seq![
            Action::Modify {
                register: Register::DeviceConfig,
                clear: CONFIG_ADDRESS,
                set: (0x10 * requested_address(req)) as u32,
            },
        ],
    );
    if let Some(memory) = m.memory {
        let descriptor = seq![
            Action::InDescriptor { index: 0, flags: in_ready(0), addr: memory.in_buffers },
        ];
        every_append(
            descriptor,
            start_in_phase(m, transfer_type),
            |a: Action| routine(m.memory, a),
        );
    }
    every_append(address, status_phase_actions(m, transfer_type), |a: Action| routine(m.memory, a));
}

pub(crate) proof fn ep0_is_routine(
    m: Model,
    inter_out: bool,
    inter_in: bool,
    out_interrupts: u32,
    in_interrupts: u32,
    flags: u32,
)
    requires
        m.wf(),
    ensures
        every(
            ep0_actions(m, inter_out, inter_in, out_interrupts, in_interrupts, flags),
            |a: Action| routine(m.memory, a),
        ),
{
    stall_is_routine(m);
    expect_setup_is_routine(m);
}

proof fn reset_is_quiet(m: Model)
    requires
        m.wf(),
    ensures
        every(reset_actions(m), |a: Action| quiet(m.memory, a)),
{
    expect_setup_is_routine(reset_model(m));
    if let Some(memory) = m.memory {
        assert(every(clean_descriptors(memory), |a: Action| quiet(m.memory, a)));
        every_append(
            clean_descriptors(memory),
            expect_setup_actions(reset_model(m)),
            |a: Action| quiet(m.memory, a),
        );
    } else {
        assert(seq![] + expect_setup_actions(reset_model(m)) =~= expect_setup_actions(
            reset_model(m),
        ));
    }
}

/// The interrupts that were pending when the run began. In the first stage they are
/// the word that is handed over.
pub open spec fn pending(stage: Interrupt, word: u32) -> u32 {
    match stage {
        Interrupt::Status => word,
        Interrupt::Mask { status } => status,
        Interrupt::AllEndpoints { status } => status,
        Interrupt::OutEndpoint { status, .. } => status,
        Interrupt::InEndpoint { status, .. } => status,
        Interrupt::Flags { status, .. } => status,
        Interrupt::SetupLow { status, .. } => status,
        Interrupt::SetupHigh { status, .. } => status,
        Interrupt::Done => 0,
    }
}

/// The last action of a list acknowledges exactly `status`, and no other does.
pub open spec fn ends_with_acknowledgement(actions: Seq<Action>, status: u32) -> bool {
    &&& actions.len() > 0
    &&& actions.last() == (Action::Write { register: Register::InterruptStatus, value: status })
    &&& forall|i: int| 0 <= i < actions.len() - 1 ==> !acknowledges(#[trigger] actions[i])
}

proof fn append_acknowledgement(m: Model, before: Seq<Action>, last: Seq<Action>, status: u32)
    requires
        every(before, |a: Action| quiet(m.memory, a)),
        every(last, |a: Action| in_bounds(m.memory, a)),
        ends_with_acknowledgement(last, status),
    ensures
        every(before + last, |a: Action| in_bounds(m.memory, a)),
        ends_with_acknowledgement(before + last, status),
{
    let whole = before + last;
    every_append(before, last, |a: Action| in_bounds(m.memory, a));
    assert forall|i: int| 0 <= i < whole.len() - 1 implies !acknowledges(#[trigger] whole[i]) by {
        if i < before.len() {
            assert(whole[i] == before[i]);
        } else {
            assert(whole[i] == last[i - before.len()]);
        }
    }
}

proof fn finish_acknowledges(m: Model, status: u32)
    requires
        m.wf(),
    ensures
        every(finish_actions(m, status), |a: Action| in_bounds(m.memory, a)),
        ends_with_acknowledgement(finish_actions(m, status), status),
{
    reset_is_quiet(m);
    append_acknowledgement(
        m,
        only_if(status & USB_RESET != 0, reset_actions(m)),
        seq![Action::Write { register: Register::InterruptStatus, value: status }],
        status,
    );
}

/// Every action of the interrupt handler concerns a register, a descriptor or a
/// byte that exists. A stage that ends the run acknowledges, as its last action,
/// the interrupts that were pending when the run began; nothing else acknowledges.
pub proof fn stages_are_sound(m: Model, stage: Interrupt, word: u32)
    requires
        m.wf(),
        !(stage is Done),
    ensures
        every(stage_actions(m, stage, word), |a: Action| in_bounds(m.memory, a)),
        next_stage(m, stage, word) is Done ==> ends_with_acknowledgement(
            stage_actions(m, stage, word),
            pending(stage, word),
        ),
        !(next_stage(m, stage, word) is Done) ==> every(
            stage_actions(m, stage, word),
            |a: Action| !acknowledges(a),
        ),
        !(next_stage(m, stage, word) is Done) ==> forall|next_word: u32| #[trigger]
            pending(next_stage(m, stage, word), next_word) == pending(stage, word),
{
    let none: Seq<Action> = seq![];
    match stage {
        Interrupt::Mask { status } => {
            let global = global_actions(status, word);
            assert(every(global, |a: Action| quiet(m.memory, a)));
            assert(global + none =~= global);
            finish_acknowledges(m, status);
            append_acknowledgement(m, global, finish_actions(m, status), status);
        },
        Interrupt::AllEndpoints { status } => {
            finish_acknowledges(m, status);
        },
        Interrupt::Flags { status, inter_out, inter_in, out_interrupts, in_interrupts, .. } => {
            let events = ep0_actions(m, inter_out, inter_in, out_interrupts, in_interrupts, word);
            let after = ep0_model(m, inter_out, out_interrupts, word);
            ep0_is_routine(m, inter_out, inter_in, out_interrupts, in_interrupts, word);
            assert(events + none =~= events);
            assert(every(events, |a: Action| quiet(m.memory, a)));
            finish_acknowledges(after, status);
            append_acknowledgement(m, events, finish_actions(after, status), status);
        },
        Interrupt::SetupHigh { status, transfer_type, low, .. } => {
            let req = setup_request(low, word);
            let answer = setup_actions(m, transfer_type, req);
            setup_is_routine(m, transfer_type, req);
            assert(every(answer, |a: Action| quiet(m.memory, a)));
            finish_acknowledges(setup_model(m, req), status);
            append_acknowledgement(m, answer, finish_actions(setup_model(m, req), status), status);
        },
        _ => {},
    }
}

/// The stage to which a run comes with these words.
pub open spec fn run_stage(m: Model, stage: Interrupt, words: Seq<u32>) -> Interrupt
    decreases words.len(),
{
    if words.len() == 0 {
        stage
    } else {
        run_stage(
            next_model(m, stage, words[0]),
            next_stage(m, stage, words[0]),
            words.drop_first(),
        )
    }
}

/// The state after a run with these words.
pub open spec fn run_model(m: Model, stage: Interrupt, words: Seq<u32>) -> Model
    decreases words.len(),
{
    if words.len() == 0 {
        m
    } else {
        run_model(
            next_model(m, stage, words[0]),
            next_stage(m, stage, words[0]),
            words.drop_first(),
        )
    }
}

/// All that is done in a run with these words.
pub open spec fn run_actions(m: Model, stage: Interrupt, words: Seq<u32>) -> Seq<Action>
    decreases words.len(),
{
    if words.len() == 0 {
        seq![]
    } else {
        stage_actions(m, stage, words[0]) + run_actions(
            next_model(m, stage, words[0]),
            next_stage(m, stage, words[0]),
            words.drop_first(),
        )
    }
}

proof fn run_after_done(m: Model, words: Seq<u32>)
    ensures
        run_actions(m, Interrupt::Done, words) == Seq::<Action>::empty(),
        run_model(m, Interrupt::Done, words) == m,
        run_stage(m, Interrupt::Done, words) == Interrupt::Done,
    decreases words.len(),
{
    if words.len() > 0 {
        run_after_done(m, words.drop_first());
        assert(Seq::<Action>::empty() + Seq::<Action>::empty() =~= Seq::<Action>::empty());
    }
}

#[verifier::spinoff_prover]
#[verifier::rlimit(40)]
proof fn run_from(m: Model, stage: Interrupt, words: Seq<u32>)
    requires
        m.wf(),
        !(stage is Done),
        words.len() > 0,
    ensures
        run_model(m, stage, words).wf(),
        every(run_actions(m, stage, words), |a: Action| in_bounds(m.memory, a)),
        run_stage(m, stage, words) is Done ==> ends_with_acknowledgement(
            run_actions(m, stage, words),
            pending(stage, words[0]),
        ),
        !(run_stage(m, stage, words) is Done) ==> every(
            run_actions(m, stage, words),
            |a: Action| !acknowledges(a),
        ),
        words.len() >= words_left(stage) ==> run_stage(m, stage, words) is Done,
    decreases words.len(),
{
    let first = stage_actions(m, stage, words[0]);
    let next = next_stage(m, stage, words[0]);
    let after = next_model(m, stage, words[0]);
    let rest = words.drop_first();
    let none: Seq<Action> = seq![];
    assert(run_model(m, stage, words) == run_model(after, next, rest));
    assert(run_stage(m, stage, words) == run_stage(after, next, rest));
    assert(run_actions(m, stage, words) == first + run_actions(after, next, rest));
    interrupts_keep_wf(m, stage, words[0]);
    interrupts_keep_memory_and_identity(m, stage, words[0]);
    stages_are_sound(m, stage, words[0]);
    handler_advances(m, stage, words[0]);
    assert(first + none =~= first);
    if next is Done {
        run_after_done(after, rest);
        assert(run_actions(m, stage, words) == first);
    } else if rest.len() > 0 {
        run_from(after, next, rest);
        let later = run_actions(after, next, rest);
        assert(pending(next, rest[0]) == pending(stage, words[0]));
        assert(every(first, |a: Action| quiet(m.memory, a)));
        if run_stage(after, next, rest) is Done {
            append_acknowledgement(m, first, later, pending(stage, words[0]));
        } else {
            every_append(first, later, |a: Action| in_bounds(m.memory, a));
            every_append(first, later, |a: Action| !acknowledges(a));
        }
    } else {
        assert(run_actions(after, next, rest) == none);
        assert(run_actions(m, stage, words) == first);
    }
}

/// A run of the interrupt handler is over after at most eight words. It saves the
/// interrupt status that it reads first, and clears exactly those interrupts, once,
/// as the very last thing that it does.
pub proof fn run_clears_what_was_pending(m: Model, words: Seq<u32>)
    requires
        m.wf(),
        words.len() > 0,
    ensures
        run_model(m, Interrupt::Status, words).wf(),
        every(run_actions(m, Interrupt::Status, words), |a: Action| in_bounds(m.memory, a)),
        words.len() >= 8 ==> run_stage(m, Interrupt::Status, words) is Done,
        run_stage(m, Interrupt::Status, words) is Done ==> ends_with_acknowledgement(
            run_actions(m, Interrupt::Status, words),
            words[0],
        ),
        !(run_stage(m, Interrupt::Status, words) is Done) ==> every(
            run_actions(m, Interrupt::Status, words),
            |a: Action| !acknowledges(a),
        ),
{
    run_from(m, Interrupt::Status, words);
}

/// Whatever transfer is under way, a run that sees a USB RESET ends with the driver
/// waiting for a SETUP packet in the first OUT descriptor.
pub proof fn usb_reset_ends_any_transfer(m: Model, stage: Interrupt, word: u32)
    requires
        !(stage is Done),
        next_stage(m, stage, word) is Done,
        pending(stage, word) & USB_RESET != 0,
    ensures
        next_model(m, stage, word).state == USBState::WaitingForSetupPacket,
        m.memory is Some ==> next_model(m, stage, word).next_out_idx == 0,
{
}

} // verus!
