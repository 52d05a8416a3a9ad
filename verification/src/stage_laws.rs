//! Laws of the stages of the interrupt handler: for each word that the hardware can hand
//! over, which stage follows, how the driver changes, and what is done.
use vstd::prelude::*;

use crate::action::{modification, Action, Register, Source};
use crate::constants::EP_ENABLE;
use crate::device::{
    every, group_perform, only_out_side, only_registers, perform, perform_all, perform_two, Device,
};
use crate::device_laws::{addressed, endpoint_mask};
use crate::endpoint_laws::{expect_setup_effect, listening, ready_to_receive, reset_effect};
use crate::interrupt::{
    ep0_actions, ep0_model, finish_actions, finish_model, global_actions, next_model, next_stage,
    setup_due, setup_ready, stage_actions, stage_fault, stage_source, stray_packet, transfer_over,
    Interrupt,
};
use crate::model::{
    enable_and_clear_nak, expect_setup_actions, only_if, reset_actions, stall_actions, Ep0Memory,
    Model, USBState,
};
use crate::request::{setup_actions, setup_fault, setup_model, Fault};
use crate::run_laws::{ep0_is_routine, in_bounds, pending, run_actions, setup_is_routine};
use crate::setup::setup_request;
use crate::table_case::{decoded, TableCase};

verus! {

/// The case of a combination of OUT interrupts follows from bit 0 (XferCompl), bit 3
/// (SetUp) and bit 5 (StsPhseRcvd) alone, and every combination has one.
pub proof fn every_combination_decodes(out_interrupts: u32)
    ensures
        ({
            let xfer_compl = out_interrupts & 0x01 != 0;
            let setup = out_interrupts & 0x08 != 0;
            let sts_phse_rcvd = out_interrupts & 0x20 != 0;
            let case = decoded(out_interrupts);
            &&& case == TableCase::C <==> xfer_compl && setup
            &&& case == TableCase::B <==> !xfer_compl && setup
            &&& case == TableCase::A <==> xfer_compl && !setup && !sts_phse_rcvd
            &&& case == TableCase::E <==> xfer_compl && !setup && sts_phse_rcvd
            &&& case == TableCase::D <==> !xfer_compl && !setup
        }),
{
}

/// Each stage waits for one word: the interrupt status, the interrupt mask, the
/// all-endpoints register, the interrupts of OUT and of IN endpoint 0, the flags of the
/// current OUT descriptor, and the two words of its buffer, in this order.
pub proof fn stages_read_in_order(stage: Interrupt)
    ensures
        stage is Done <==> stage_source(stage) is None,
        stage is Status ==> (stage_source(stage) matches Some(Source::Register(r)) && r
            == Register::InterruptStatus),
        stage is Mask ==> (stage_source(stage) matches Some(Source::Register(r)) && r
            == Register::InterruptMask),
        stage is AllEndpoints ==> (stage_source(stage) matches Some(Source::Register(r)) && r
            == Register::DeviceAllEpInterrupt),
        stage is OutEndpoint ==> (stage_source(stage) matches Some(Source::Register(r)) && r
            == Register::OutInterrupt(0)),
        stage is InEndpoint ==> (stage_source(stage) matches Some(Source::Register(r)) && r
            == Register::InInterrupt(0)),
        stage matches Interrupt::Flags { index, .. } ==> (stage_source(stage) matches Some(
            Source::OutFlags(i),
        ) && i == index),
        stage matches Interrupt::SetupLow { index, .. } ==> (stage_source(stage) matches Some(
            Source::OutWord { index: i, word },
        ) && i == index && word == 0),
        stage matches Interrupt::SetupHigh { index, .. } ==> (stage_source(stage) matches Some(
            Source::OutWord { index: i, word },
        ) && i == index && word == 1),
{
}

/// A register with bits put in if a condition holds.
pub open spec fn raised(value: u32, condition: bool, bits: u32) -> u32 {
    if condition {
        value | bits
    } else {
        value
    }
}

proof fn modification_sets(value: u32, bits: u32)
    ensures
        modification(value, 0, bits) == value | bits,
        modification(value, bits, 0) == value & !bits,
{
    assert((value & !0u32) | bits == value | bits && (value & !bits) | 0u32 == value & !bits)
        by (bit_vector);
}

/// Of the interrupts that do not concern an endpoint, start of frame (bit 3) is masked out
/// once it has come while it was enabled, global OUT NAK (bit 7) is answered by its clear
/// bit (10) in the control register, and global IN NAK (bit 6) by its own (8). Nothing else
/// is done.
pub proof fn global_effect(d: Device, status: u32, mask: u32)
    ensures
        ({
            let actions = global_actions(status, mask);
            let after = perform_all(d, actions);
            let frame = mask & status & 0x08 != 0;
            let out_nak = status & 0x80 != 0;
            let in_nak = status & 0x40 != 0;
            &&& after == (Device { registers: after.registers, ..d })
            &&& only_registers(d, after, set![Register::InterruptMask, Register::DeviceControl])
            &&& frame ==> after.register(Register::InterruptMask) == d.register(
                Register::InterruptMask,
            ) & !0x08u32
            &&& !frame ==> after.register(Register::InterruptMask) == d.register(
                Register::InterruptMask,
            )
            &&& after.register(Register::DeviceControl) == raised(
                raised(d.register(Register::DeviceControl), out_nak, 0x0400),
                in_nak,
                0x0100,
            )
            &&& actions.len() == (if frame {
                1int
            } else {
                0
            }) + (if out_nak {
                1int
            } else {
                0
            }) + (if in_nak {
                1int
            } else {
                0
            })
        }),
{
    broadcast use group_perform;

    let framed = perform_all(
        d,
        only_if(
            mask & status & 0x08 != 0,
            seq![Action::Modify { register: Register::InterruptMask, clear: 0x08, set: 0 }],
        ),
    );
    modification_sets(d.register(Register::InterruptMask), 0x08);
    let control = d.register(Register::DeviceControl);
    assert(framed.register(Register::DeviceControl) == control);
    modification_sets(control, 0x0400);
    modification_sets(control, 0x0100);
    modification_sets(raised(control, status & 0x80 != 0, 0x0400), 0x0100);
}

/// A run ends with a write of the pending interrupts to the status register. Before that, a
/// USB RESET (bit 12) among them, and nothing else, brings the driver back to waiting for a
/// SETUP packet and the descriptors of endpoint 0 to a clean state.
pub proof fn finish_effect(m: Model, d: Device, status: u32)
    requires
        m.wf(),
        d.wf(),
    ensures
        status & 0x1000 == 0 ==> finish_model(m, status) == m && finish_actions(m, status)
            == Seq::<Action>::empty().push(
            Action::Write { register: Register::InterruptStatus, value: status },
        ),
        status & 0x1000 != 0 ==> finish_model(m, status) == (Model {
            state: USBState::WaitingForSetupPacket,
            next_out_idx: finish_model(m, status).next_out_idx,
            ..m
        }),
        status & 0x1000 != 0 ==> finish_model(m, status).next_out_idx == (if m.memory is Some {
            0
        } else {
            m.next_out_idx
        }),
        status & 0x1000 != 0 ==> {
            let actions = finish_actions(m, status);
            let after = perform_all(d, actions);
            &&& actions.last() == (Action::Write {
                register: Register::InterruptStatus,
                value: status,
            })
            &&& m.memory matches Some(memory) ==> {
                &&& actions.len() == 13
                &&& addressed(after, memory)
                &&& after.out_dma == 0
                &&& after.in_dma == 0
                &&& after.out_descriptors[0].flags == 0x0a00_0040
                &&& after.out_descriptors[1].flags == 0xc000_0000
                &&& forall|i: int|
                    0 <= i < 4 ==> (#[trigger] after.in_descriptors[i]).flags == 0xc000_0000
                &&& after.in_buffer == d.in_buffer
            }
            &&& m.memory is None ==> actions.len() == 4 && only_out_side(d, after)
                && after.out_descriptors == d.out_descriptors
            &&& listening(endpoint_mask(d), endpoint_mask(after))
            &&& after.register(Register::OutControl(0)) == 0x8400_0000
            &&& after.register(Register::InterruptStatus) == status
            &&& only_registers(
                d,
                after,
                set![
                    Register::DeviceAllEpInterruptMask,
                    Register::OutControl(0),
                    Register::InterruptStatus,
                ],
            )
        },
{
    broadcast use group_perform;

    let last = seq![Action::Write { register: Register::InterruptStatus, value: status }];
    if status & 0x1000 != 0 {
        reset_effect(m, d);
        let clean = perform_all(d, reset_actions(m));
        let after = perform_all(d, finish_actions(m, status));
        assert(finish_actions(m, status) == reset_actions(m) + last);
        assert(after == perform(clean, last[0]));
        assert(after.register(Register::OutControl(0)) == clean.register(Register::OutControl(0)));
        assert(endpoint_mask(after) == endpoint_mask(clean));
    } else {
        assert(finish_actions(m, status) =~= Seq::<Action>::empty().push(last[0]));
    }
}

/// The first word is the interrupt status. It is kept, and nothing is done yet.
pub proof fn status_stage(m: Model, word: u32)
    ensures
        next_stage(m, Interrupt::Status, word) == (Interrupt::Mask { status: word }),
        next_model(m, Interrupt::Status, word) == m,
        stage_actions(m, Interrupt::Status, word).len() == 0,
{
}

proof fn endpoint_bits(status: u32)
    ensures
        status & (0x0008_0000u32 | 0x0004_0000u32) != 0 <==> status & 0x0008_0000 != 0 || status
            & 0x0004_0000 != 0,
{
    assert(status & (0x0008_0000u32 | 0x0004_0000u32) != 0 <==> status & 0x0008_0000 != 0 || status
        & 0x0004_0000 != 0) by (bit_vector);
}

/// The handler goes on to the endpoints if the status has an IN endpoint interrupt (bit 18)
/// or an OUT endpoint interrupt (bit 19), either of them alone; only without both is the
/// run over. The other interrupts are answered first.
pub proof fn mask_stage(m: Model, status: u32, word: u32)
    ensures
        ({
            let stage = Interrupt::Mask { status };
            let actions = stage_actions(m, stage, word);
            let pending = status & 0x0004_0000 != 0 || status & 0x0008_0000 != 0;
            &&& pending ==> {
                &&& next_stage(m, stage, word) == Interrupt::AllEndpoints { status }
                &&& next_model(m, stage, word) == m
                &&& actions == global_actions(status, word)
            }
            &&& !pending ==> {
                &&& next_stage(m, stage, word) is Done
                &&& next_model(m, stage, word) == finish_model(m, status)
                &&& actions == global_actions(status, word) + finish_actions(m, status)
            }
        }),
{
    endpoint_bits(status);
}

/// The all-endpoints register says whether OUT endpoint 0 (bit 16) and IN endpoint 0
/// (bit 0) have an interrupt. If neither has, the run is over.
pub proof fn all_endpoints_stage(m: Model, status: u32, word: u32)
    ensures
        ({
            let stage = Interrupt::AllEndpoints { status };
            let actions = stage_actions(m, stage, word);
            let inter_out = word & 0x0001_0000 != 0;
            let inter_in = word & 0x0000_0001 != 0;
            &&& inter_out || inter_in ==> {
                &&& next_stage(m, stage, word) == Interrupt::OutEndpoint {
                    status,
                    inter_out,
                    inter_in,
                }
                &&& next_model(m, stage, word) == m
                &&& actions.len() == 0
            }
            &&& !inter_out && !inter_in ==> {
                &&& next_stage(m, stage, word) is Done
                &&& next_model(m, stage, word) == finish_model(m, status)
                &&& actions == finish_actions(m, status)
            }
        }),
{
}

/// The interrupts of OUT endpoint 0 are kept, and cleared by writing them back if the
/// endpoint has an interrupt at all.
pub proof fn out_endpoint_stage(m: Model, stage: Interrupt, word: u32)
    requires
        stage is OutEndpoint,
    ensures
        stage matches Interrupt::OutEndpoint { status, inter_out, inter_in } ==> {
            let actions = stage_actions(m, stage, word);
            &&& next_stage(m, stage, word) == Interrupt::InEndpoint {
                status,
                inter_out,
                inter_in,
                out_interrupts: word,
            }
            &&& next_model(m, stage, word) == m
            &&& inter_out ==> actions.len() == 1 && actions[0] == (Action::Write {
                register: Register::OutInterrupt(0),
                value: word,
            })
            &&& !inter_out ==> actions.len() == 0
        },
{
}

/// The interrupts of IN endpoint 0 are kept, and cleared by writing them back if the
/// endpoint has an interrupt at all. If OUT endpoint 0 has an interrupt with XferCompl, the
/// packet is taken over: the next OUT descriptor becomes the current one, and the
/// controller is pointed at the other one. The flags of the current one are read next.
pub proof fn in_endpoint_stage(m: Model, d: Device, stage: Interrupt, word: u32)
    requires
        m.wf(),
        stage is InEndpoint,
    ensures
        stage matches Interrupt::InEndpoint { status, inter_out, inter_in, out_interrupts } ==> {
            let actions = stage_actions(m, stage, word);
            let after = perform_all(d, actions);
            let next = next_model(m, stage, word);
            let packet = inter_out && out_interrupts & 0x01 != 0 && m.memory is Some;
            &&& next_stage(m, stage, word) == Interrupt::Flags {
                status,
                inter_out,
                inter_in,
                out_interrupts,
                in_interrupts: word,
                index: if packet {
                    m.next_out_idx
                } else {
                    m.cur_out_idx
                },
            }
            &&& packet ==> next == Model {
                cur_out_idx: m.next_out_idx,
                next_out_idx: (1 - m.next_out_idx) as usize,
                ..m
            }
            &&& !packet ==> next == m
            &&& actions.len() == (if inter_in {
                1int
            } else {
                0
            }) + (if packet {
                1int
            } else {
                0
            })
            &&& inter_in ==> actions[0] == (Action::Write {
                register: Register::InInterrupt(0),
                value: word,
            })
            &&& after == Device { registers: after.registers, out_dma: after.out_dma, ..d }
            &&& packet ==> after.out_dma == 1 - m.next_out_idx
            &&& !packet ==> after.out_dma == d.out_dma
            &&& only_registers(d, after, set![Register::InInterrupt(0)])
        },
{
    broadcast use group_perform;

}

/// Whether the interrupts of OUT endpoint 0 report a packet outside a status phase:
/// XferCompl without StsPhseRcvd, or XferCompl with SetUp.
pub open spec fn reports_packet(out_interrupts: u32) -> bool {
    out_interrupts & 0x01 != 0 && (out_interrupts & 0x08 != 0 || out_interrupts & 0x20 == 0)
}

/// Whether the interrupts of OUT endpoint 0 report the end of a setup phase and no more:
/// SetUp without XferCompl.
pub open spec fn ends_setup_phase(out_interrupts: u32) -> bool {
    out_interrupts & 0x01 == 0 && out_interrupts & 0x08 != 0
}

/// Whether a packet that has come with these flags has the SETUP bit (24).
pub open spec fn marked_setup(flags: u32) -> bool {
    flags & 0x0100_0000 != 0
}

proof fn setup_bit(flags: u32)
    ensures
        setup_ready(flags) <==> marked_setup(flags),
{
    assert(flags & 0x0100_0000 == 0x0100_0000 <==> flags & 0x0100_0000 != 0) by (bit_vector);
}

/// In every state, a SETUP packet on OUT endpoint 0 that has an interrupt is due: the case
/// is C if SetUp is set and A if it is not. So is one that is found while the driver waits
/// for it. It is looked at before anything about the driver changes. Nothing else is due.
pub proof fn setup_packet_is_due(m: Model, inter_out: bool, out_interrupts: u32, flags: u32)
    ensures
        setup_due(m, inter_out, out_interrupts, flags) <==> {
            &&& reports_packet(out_interrupts)
            &&& marked_setup(flags)
            &&& inter_out || m.state == USBState::WaitingForSetupPacket
        },
        reports_packet(out_interrupts) ==> decoded(out_interrupts) == (if out_interrupts & 0x08
            != 0 {
            TableCase::C
        } else {
            TableCase::A
        }),
        reports_packet(out_interrupts) && marked_setup(flags) ==> ep0_model(
            m,
            inter_out,
            out_interrupts,
            flags,
        ) == m,
        stray_packet(m, out_interrupts, flags) <==> {
            &&& m.state == USBState::WaitingForSetupPacket
            &&& reports_packet(out_interrupts)
            &&& !marked_setup(flags)
        },
{
    setup_bit(flags);
    every_combination_decodes(out_interrupts);
}

/// A driver that waits for a SETUP packet goes on waiting. At the end of a setup phase it
/// stalls endpoint 0; otherwise it does nothing.
pub proof fn waiting_endpoint(
    m: Model,
    inter_out: bool,
    inter_in: bool,
    out_interrupts: u32,
    in_interrupts: u32,
    flags: u32,
)
    requires
        m.state == USBState::WaitingForSetupPacket,
    ensures
        ep0_model(m, inter_out, out_interrupts, flags) == m,
        ends_setup_phase(out_interrupts) ==> ep0_actions(
            m,
            inter_out,
            inter_in,
            out_interrupts,
            in_interrupts,
            flags,
        ) == stall_actions(m),
        !ends_setup_phase(out_interrupts) ==> ep0_actions(
            m,
            inter_out,
            inter_in,
            out_interrupts,
            in_interrupts,
            flags,
        ).len() == 0,
{
    every_combination_decodes(out_interrupts);
}

/// Whether the OUT interrupts and flags end a transfer, in a driver that does not wait for
/// a SETUP packet: with a data stage, a packet that is no SETUP packet; without one,
/// anything but the end of a setup phase and a SETUP packet.
pub open spec fn ends_transfer(m: Model, inter_out: bool, out_interrupts: u32, flags: u32) -> bool {
    &&& inter_out
    &&& !(reports_packet(out_interrupts) && marked_setup(flags))
    &&& m.state == USBState::DataStageIn ==> reports_packet(out_interrupts)
    &&& m.state == USBState::NoDataStage ==> !ends_setup_phase(out_interrupts)
}

/// During a transfer, completion on IN endpoint 0 enables that endpoint again, the end of
/// the setup phase on OUT endpoint 0 enables both directions with their NAK bits cleared,
/// and the end of the transfer makes the driver wait for a SETUP packet. Nothing else
/// changes, in the driver or in the controller.
pub proof fn transfer_endpoint(
    m: Model,
    d: Device,
    inter_out: bool,
    inter_in: bool,
    out_interrupts: u32,
    in_interrupts: u32,
    flags: u32,
)
    requires
        m.wf(),
        d.wf(),
        m.memory is Some,
        m.state != USBState::WaitingForSetupPacket,
    ensures
        ({
            let actions = ep0_actions(
                m,
                inter_out,
                inter_in,
                out_interrupts,
                in_interrupts,
                flags,
            );
            let after = perform_all(d, actions);
            let sent = inter_in && in_interrupts & 0x01 != 0;
            let go_on = inter_out && ends_setup_phase(out_interrupts);
            let over = ends_transfer(m, inter_out, out_interrupts, flags);
            &&& over ==> ep0_model(m, inter_out, out_interrupts, flags) == (Model {
                state: USBState::WaitingForSetupPacket,
                ..m
            })
            &&& !over ==> ep0_model(m, inter_out, out_interrupts, flags) == m
            &&& actions.len() == (if sent {
                1int
            } else {
                0
            }) + (if go_on {
                2int
            } else {
                0
            }) + (if over {
                4int
            } else {
                0
            })
            &&& over ==> actions.skip(actions.len() - 4) == expect_setup_actions(m)
            &&& go_on ==> after.register(Register::InControl(0)) == 0x8400_0000
            &&& !go_on && sent ==> after.register(Register::InControl(0)) == 0x8000_0000
            &&& !go_on && !sent ==> after.register(Register::InControl(0)) == d.register(
                Register::InControl(0),
            )
            &&& go_on || over ==> after.register(Register::OutControl(0)) == 0x8400_0000
            &&& !go_on && !over ==> after.register(Register::OutControl(0)) == d.register(
                Register::OutControl(0),
            )
            &&& over ==> listening(endpoint_mask(d), endpoint_mask(after))
            &&& !over ==> endpoint_mask(d) == endpoint_mask(after)
            &&& over ==> after.out_descriptors == ready_to_receive(
                d.out_descriptors,
                m.next_out_idx as int,
            )
            &&& !over ==> after.out_descriptors == d.out_descriptors
            &&& only_out_side(d, after)
            &&& only_registers(
                d,
                after,
                set![
                    Register::InControl(0),
                    Register::OutControl(0),
                    Register::DeviceAllEpInterruptMask,
                ],
            )
        }),
{
    broadcast use group_perform;

    setup_bit(flags);
    every_combination_decodes(out_interrupts);
    let sent = inter_in && in_interrupts & 0x01 != 0;
    let go_on = inter_out && ends_setup_phase(out_interrupts);
    let over = ends_transfer(m, inter_out, out_interrupts, flags);
    assert(over == transfer_over(m, inter_out, out_interrupts, flags));
    let first = only_if(
        sent,
        seq![Action::Write { register: Register::InControl(0), value: EP_ENABLE }],
    );
    let naks = seq![
        Action::Write { register: Register::InControl(0), value: enable_and_clear_nak() },
        Action::Write { register: Register::OutControl(0), value: enable_and_clear_nak() },
    ];
    let second = only_if(go_on, naks);
    let third = only_if(over, expect_setup_actions(m));
    assert(ep0_actions(m, inter_out, inter_in, out_interrupts, in_interrupts, flags) == first
        + second + third);
    let enabled = perform_all(d, first);
    perform_two(enabled, naks);
    let going = perform_all(enabled, second);
    assert(go_on ==> going.register(Register::InControl(0)) == 0x8400_0000);
    assert(going.wf());
    expect_setup_effect(m, going);
    assert(endpoint_mask(enabled) == endpoint_mask(d));
    assert(endpoint_mask(going) == endpoint_mask(d));
}

/// Once the flags of the current OUT descriptor are read, the events of endpoint 0 are
/// answered. If a SETUP packet is due, its words are read from that descriptor's buffer and
/// nothing about the driver has changed; otherwise the run is over.
pub proof fn flags_stage(m: Model, stage: Interrupt, word: u32)
    requires
        stage is Flags,
    ensures
        stage matches Interrupt::Flags {
            status,
            inter_out,
            inter_in,
            out_interrupts,
            in_interrupts,
            ..
        } ==> {
            let actions = stage_actions(m, stage, word);
            let events = ep0_actions(m, inter_out, inter_in, out_interrupts, in_interrupts, word);
            let after = ep0_model(m, inter_out, out_interrupts, word);
            let due = reports_packet(out_interrupts) && marked_setup(word) && (inter_out || m.state
                == USBState::WaitingForSetupPacket);
            &&& due ==> {
                &&& next_stage(m, stage, word) == Interrupt::SetupLow {
                    status,
                    transfer_type: if out_interrupts & 0x08 != 0 {
                        TableCase::C
                    } else {
                        TableCase::A
                    },
                    index: m.cur_out_idx,
                }
                &&& next_model(m, stage, word) == m
                &&& actions == events
            }
            &&& !due ==> {
                &&& next_stage(m, stage, word) is Done
                &&& next_model(m, stage, word) == finish_model(after, status)
                &&& actions == events + finish_actions(after, status)
            }
        },
{
    if let Interrupt::Flags { inter_out, out_interrupts, .. } = stage {
        setup_packet_is_due(m, inter_out, out_interrupts, word);
    }
}

/// The two words of a SETUP packet are read one after the other. The request that they hold
/// is then answered, and the run is over.
pub proof fn setup_stages(m: Model, stage: Interrupt, word: u32)
    ensures
        stage matches Interrupt::SetupLow { status, transfer_type, index } ==> {
            &&& next_stage(m, stage, word) == Interrupt::SetupHigh {
                status,
                transfer_type,
                index,
                low: word,
            }
            &&& next_model(m, stage, word) == m
            &&& stage_actions(m, stage, word).len() == 0
        },
        stage matches Interrupt::SetupHigh { status, transfer_type, low, .. } ==> {
            let req = setup_request(low, word);
            let after = setup_model(m, req);
            &&& next_stage(m, stage, word) is Done
            &&& next_model(m, stage, word) == finish_model(after, status)
            &&& stage_actions(m, stage, word) == setup_actions(m, transfer_type, req)
                + finish_actions(after, status)
        },
{
}

/// A run that is over stays over, and does nothing more.
pub proof fn done_stage(m: Model, word: u32)
    ensures
        next_stage(m, Interrupt::Done, word) is Done,
        next_model(m, Interrupt::Done, word) == m,
        stage_actions(m, Interrupt::Done, word).len() == 0,
{
}

/// The handler can fail in two places. When the flags are read, it fails without buffers,
/// and with a packet that is no SETUP packet if it waits for one. When the second word of
/// a SETUP packet is read, it fails with the fault of the request, if there are buffers.
pub proof fn handler_faults(m: Model, stage: Interrupt, word: u32)
    ensures
        stage matches Interrupt::Flags { out_interrupts, .. } ==> {
            let stray = m.state == USBState::WaitingForSetupPacket && reports_packet(out_interrupts)
                && !marked_setup(word);
            &&& m.memory is None ==> stage_fault(m, stage, word) == Some(Fault::NotInitialized)
            &&& m.memory is Some && stray ==> stage_fault(m, stage, word) == Some(
                Fault::NotSetupPacket,
            )
            &&& m.memory is Some && !stray ==> stage_fault(m, stage, word) is None
        },
        stage matches Interrupt::SetupHigh { low, .. } ==> {
            &&& m.memory is None ==> stage_fault(m, stage, word) is None
            &&& m.memory is Some ==> stage_fault(m, stage, word) == setup_fault(
                setup_request(low, word),
            )
        },
        !(stage is Flags) && !(stage is SetupHigh) ==> stage_fault(m, stage, word) is None,
{
    if let Interrupt::Flags { inter_out, out_interrupts, .. } = stage {
        setup_packet_is_due(m, inter_out, out_interrupts, word);
    }
}

pub(crate) proof fn wf_is_kept(memory: Option<Ep0Memory>, d: Device, actions: Seq<Action>)
    requires
        d.wf(),
        every(actions, |a: Action| in_bounds(memory, a)),
    ensures
        perform_all(d, actions).wf(),
    decreases actions.len(),
{
    if actions.len() > 0 {
        let condition = |a: Action| in_bounds(memory, a);
        assert(condition(actions.last()));
        assert forall|i: int| 0 <= i < actions.drop_last().len() implies condition(
            #[trigger] actions.drop_last()[i],
        ) by {
            assert(condition(actions[i]));
        }
        wf_is_kept(memory, d, actions.drop_last());
    }
}

/// Whatever the driver was doing and wherever the run ends, a run that sees a USB RESET
/// (bit 12 of the status) leaves every descriptor of endpoint 0 with its own buffer, the
/// controller pointed at the first of each kind, OUT descriptor 0 ready for a packet and
/// the others taken from the controller, OUT endpoint 0 enabled with its NAK bit cleared,
/// its interrupt enabled and that of IN endpoint 0 disabled.
pub proof fn usb_reset_cleans_up(m: Model, d: Device, stage: Interrupt, word: u32)
    requires
        m.wf(),
        d.wf(),
        m.memory is Some,
        !(stage is Done),
        next_stage(m, stage, word) is Done,
        pending(stage, word) & 0x1000 != 0,
    ensures
        ({
            let after = perform_all(d, stage_actions(m, stage, word));
            &&& forall|i: int|
                0 <= i < 2 ==> (#[trigger] after.out_descriptors[i]).addr
                    == m.memory->0.out_buffers + 64 * i
            &&& forall|i: int|
                0 <= i < 4 ==> (#[trigger] after.in_descriptors[i]).addr
                    == m.memory->0.in_buffers + 64 * i
            &&& after.in_dma == 0
            &&& after.out_dma == 0
            &&& after.out_descriptors[0].flags == 0x0a00_0040
            &&& after.out_descriptors[1].flags == 0xc000_0000
            &&& forall|i: int|
                0 <= i < 4 ==> (#[trigger] after.in_descriptors[i]).flags == 0xc000_0000
            &&& after.register(Register::OutControl(0)) == 0x8400_0000
            &&& after.register(Register::DeviceAllEpInterruptMask) & 0x0001_0000 != 0
            &&& after.register(Register::DeviceAllEpInterruptMask) & 0x0000_0001 == 0
            &&& after.register(Register::InterruptStatus) == pending(stage, word)
        }),
        next_model(m, stage, word).state == USBState::WaitingForSetupPacket,
        next_model(m, stage, word).next_out_idx == 0,
{
    broadcast use group_perform;

    let status = pending(stage, word);
    match stage {
        Interrupt::Mask { .. } => {
            mask_stage(m, status, word);
            let first = global_actions(status, word);
            global_effect(d, status, word);
            finish_effect(m, perform_all(d, first), status);
        },
        Interrupt::AllEndpoints { .. } => {
            all_endpoints_stage(m, status, word);
            finish_effect(m, d, status);
        },
        Interrupt::Flags { inter_out, inter_in, out_interrupts, in_interrupts, .. } => {
            flags_stage(m, stage, word);
            let events = ep0_actions(m, inter_out, inter_in, out_interrupts, in_interrupts, word);
            let after = ep0_model(m, inter_out, out_interrupts, word);
            ep0_is_routine(m, inter_out, inter_in, out_interrupts, in_interrupts, word);
            assert(every(events, |a: Action| in_bounds(m.memory, a)));
            wf_is_kept(m.memory, d, events);
            finish_effect(after, perform_all(d, events), status);
        },
        Interrupt::SetupHigh { transfer_type, low, .. } => {
            setup_stages(m, stage, word);
            let req = setup_request(low, word);
            let answer = setup_actions(m, transfer_type, req);
            setup_is_routine(m, transfer_type, req);
            assert(every(answer, |a: Action| in_bounds(m.memory, a)));
            wf_is_kept(m.memory, d, answer);
            finish_effect(setup_model(m, req), perform_all(d, answer), status);
        },
        _ => {},
    }
}

/// A run whose status has an IN or an OUT endpoint interrupt, either of them alone, reads
/// the interrupts of both directions of endpoint 0. Those of each direction that the
/// all-endpoints register names are cleared, by writing back exactly what was read.
pub proof fn run_clears_endpoint_interrupts(m: Model, words: Seq<u32>)
    requires
        words.len() >= 5,
        words[0] & 0x0004_0000 != 0 || words[0] & 0x0008_0000 != 0,
        words[2] & 0x0000_0001 != 0 || words[2] & 0x0001_0000 != 0,
    ensures
        words[2] & 0x0001_0000 != 0 ==> run_actions(m, Interrupt::Status, words).contains(
            Action::Write { register: Register::OutInterrupt(0), value: words[3] },
        ),
        words[2] & 0x0000_0001 != 0 ==> run_actions(m, Interrupt::Status, words).contains(
            Action::Write { register: Register::InInterrupt(0), value: words[4] },
        ),
{
    let status = words[0];
    let inter_out = words[2] & 0x0001_0000 != 0;
    let inter_in = words[2] & 0x0000_0001 != 0;
    let mask = Interrupt::Mask { status };
    let all = Interrupt::AllEndpoints { status };
    let out_stage = Interrupt::OutEndpoint { status, inter_out, inter_in };
    let in_stage = Interrupt::InEndpoint { status, inter_out, inter_in, out_interrupts: words[3] };
    mask_stage(m, status, words[1]);
    let after_status = words.drop_first();
    let after_mask = after_status.drop_first();
    let after_all = after_mask.drop_first();
    let after_out = after_all.drop_first();
    let after_in = after_out.drop_first();
    let run = run_actions(m, Interrupt::Status, words);
    let from_mask = run_actions(m, mask, after_status);
    let from_all = run_actions(m, all, after_mask);
    let from_out = run_actions(m, out_stage, after_all);
    let from_in = run_actions(m, in_stage, after_out);
    let rest = run_actions(
        next_model(m, in_stage, words[4]),
        next_stage(m, in_stage, words[4]),
        after_in,
    );
    let global = stage_actions(m, mask, words[1]);
    let first = stage_actions(m, out_stage, words[3]);
    let second = stage_actions(m, in_stage, words[4]);
    assert(from_in == second + rest);
    assert(from_out == first + from_in);
    assert(from_all == stage_actions(m, all, words[2]) + from_out);
    assert(from_all =~= from_out);
    assert(from_mask == global + from_all);
    assert(run == stage_actions(m, Interrupt::Status, status) + from_mask);
    assert(run =~= global + (first + (second + rest)));
    if inter_out {
        let i = global.len() as int;
        assert(run[i] == first[0]);
    }
    if inter_in {
        let i = (global.len() + first.len()) as int;
        assert(run[i] == second[0]);
    }
}

} // verus!
