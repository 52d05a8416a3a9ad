//! What actions do to the controller and to the memory that it shares with the
//! driver.
use vstd::prelude::*;

use crate::action::{modification, Action, Register};

verus! {

/// A DMA descriptor in memory.
pub struct DMADescriptor {
    pub flags: u32,
    pub addr: usize,
}

/// What was last written to the controller and to the shared memory.
#[verifier::ext_equal]
pub struct Device {
    pub registers: spec_fn(Register) -> u32,
    /// The OUT descriptor that the controller will use next on endpoint 0.
    pub out_dma: usize,
    /// The IN descriptor that the controller will use next on endpoint 0.
    pub in_dma: usize,
    pub out_descriptors: Seq<DMADescriptor>,
    pub in_descriptors: Seq<DMADescriptor>,
    pub in_buffer: Seq<u8>,
}

impl Device {
    /// Endpoint 0 has two OUT descriptors, four IN descriptors and an IN buffer of
    /// 256 bytes.
    pub open spec fn wf(self) -> bool {
        &&& self.out_descriptors.len() == 2
        &&& self.in_descriptors.len() == 4
        &&& self.in_buffer.len() == 256
    }

    /// The value of a register.
    pub open spec fn register(self, register: Register) -> u32 {
        (self.registers)(register)
    }

    /// The device with a register set to a value.
    pub open spec fn with(self, register: Register, value: u32) -> Device {
        Device {
            registers: |r: Register|
                if r == register {
                    value
                } else {
                    self.register(r)
                },
            ..self
        }
    }
}

/// The device after one action.
pub open spec fn perform(d: Device, action: Action) -> Device {
    match action {
        Action::Write { register, value } => d.with(register, value),
        Action::Modify { register, clear, set } => d.with(
            register,
            modification(d.register(register), clear, set),
        ),
        // The controller has cleared the bits by the time the wait is over.
        Action::WaitClear { register, mask } => d.with(
            register,
            modification(d.register(register), mask, 0),
        ),
        Action::Store { .. } => d,
        Action::EnableClock { .. } => d,
        Action::Nops { .. } => d,
        Action::OutDma { index } => Device { out_dma: index, ..d },
        Action::InDma { index } => Device { in_dma: index, ..d },
        Action::OutFlags { index, flags } => Device {
            out_descriptors: d.out_descriptors.update(
                index as int,
                DMADescriptor { flags, ..d.out_descriptors[index as int] },
            ),
            ..d
        },
        Action::OutDescriptor { index, flags, addr } => Device {
            out_descriptors: d.out_descriptors.update(index as int, DMADescriptor { flags, addr }),
            ..d
        },
        Action::InFlags { index, flags } => Device {
            in_descriptors: d.in_descriptors.update(
                index as int,
                DMADescriptor { flags, ..d.in_descriptors[index as int] },
            ),
            ..d
        },
        Action::InDescriptor { index, flags, addr } => Device {
            in_descriptors: d.in_descriptors.update(index as int, DMADescriptor { flags, addr }),
            ..d
        },
        Action::InByte { offset, byte } => Device {
            in_buffer: d.in_buffer.update(offset as int, byte),
            ..d
        },
    }
}

/// The device after a list of actions, in order.
pub open spec fn perform_all(d: Device, actions: Seq<Action>) -> Device
    decreases actions.len(),
{
    if actions.len() == 0 {
        d
    } else {
        perform(perform_all(d, actions.drop_last()), actions.last())
    }
}

/// One more action at the end is performed last.
pub broadcast proof fn perform_push(d: Device, actions: Seq<Action>, action: Action)
    ensures
        #[trigger] perform_all(d, actions.push(action)) == perform(perform_all(d, actions), action),
{
    assert(actions.push(action).drop_last() =~= actions);
}

/// No actions leave the device as it is.
pub broadcast proof fn perform_none(d: Device)
    ensures
        #[trigger] perform_all(d, Seq::<Action>::empty()) == d,
{
}

/// Two lists are performed one after the other.
pub broadcast proof fn perform_append(d: Device, first: Seq<Action>, second: Seq<Action>)
    ensures
        #[trigger] perform_all(d, first + second) == perform_all(perform_all(d, first), second),
    decreases second.len(),
{
    if second.len() == 0 {
        assert(first + second =~= first);
    } else {
        perform_append(d, first, second.drop_last());
        assert((first + second).drop_last() =~= first + second.drop_last());
    }
}

pub broadcast group group_perform {
    perform_push,
    perform_none,
    perform_append,
}

/// Two actions, performed one by one.
pub proof fn perform_two(d: Device, actions: Seq<Action>)
    requires
        actions.len() == 2,
    ensures
        perform_all(d, actions) == perform(perform(d, actions[0]), actions[1]),
{
    reveal_with_fuel(perform_all, 3);
}

/// Four actions, performed one by one.
pub proof fn perform_four(d: Device, actions: Seq<Action>)
    requires
        actions.len() == 4,
    ensures
        perform_all(d, actions) == perform(
            perform(perform(perform(d, actions[0]), actions[1]), actions[2]),
            actions[3],
        ),
{
    reveal_with_fuel(perform_all, 5);
}

/// Five actions, performed one by one.
pub proof fn perform_five(d: Device, actions: Seq<Action>)
    requires
        actions.len() == 5,
    ensures
        perform_all(d, actions) == perform(
            perform(perform(perform(perform(d, actions[0]), actions[1]), actions[2]), actions[3]),
            actions[4],
        ),
{
    reveal_with_fuel(perform_all, 6);
}

/// The action writes this register or waits for a change of it.
pub open spec fn touches(action: Action, register: Register) -> bool {
    match action {
        Action::Write { register: r, .. } => r == register,
        Action::Modify { register: r, .. } => r == register,
        Action::WaitClear { register: r, .. } => r == register,
        _ => false,
    }
}

/// Every action of a list meets a condition.
pub open spec fn every(actions: Seq<Action>, condition: spec_fn(Action) -> bool) -> bool {
    forall|i: int| 0 <= i < actions.len() ==> condition(#[trigger] actions[i])
}

/// Every action of the first kind stands before every action of the second kind.
pub open spec fn precedes(
    actions: Seq<Action>,
    first: spec_fn(Action) -> bool,
    second: spec_fn(Action) -> bool,
) -> bool {
    forall|i: int, j: int|
        0 <= i < actions.len() && 0 <= j < actions.len() && first(#[trigger] actions[i]) && second(
            #[trigger] actions[j],
        ) ==> i < j
}

/// No register but these has another value than before.
pub open spec fn only_registers(before: Device, after: Device, changed: Set<Register>) -> bool {
    forall|r: Register|
        !changed.contains(r) ==> #[trigger] after.register(r) == before.register(r)
}

/// Nothing but registers and OUT descriptors is other than before.
pub open spec fn only_out_side(before: Device, after: Device) -> bool {
    &&& after.out_dma == before.out_dma
    &&& after.in_dma == before.in_dma
    &&& after.in_descriptors == before.in_descriptors
    &&& after.in_buffer == before.in_buffer
}

} // verus!
