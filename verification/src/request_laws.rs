//! Laws of requests: how the bytes of a SETUP packet are read, which requests the driver
//! has no answer to, and what the host gets for each of the others.
use vstd::prelude::*;

use crate::action::{modification, Action, Register};
use crate::constants::CONFIG_ADDRESS;
use crate::descriptor::{only_configuration, ConfigurationDescriptor, DeviceDescriptor};
use crate::device::{
    every, group_perform, only_out_side, only_registers, perform_all, touches, DMADescriptor,
    Device,
};
use crate::device_laws::endpoint_mask;
use crate::endpoint_laws::{
    flushes_at, listening, ready_to_receive, reply_effect, stall_effect, starts, starts_in_order,
    status_phase_effect, talking,
};
use crate::model::{
    device_descriptor, reply_actions, stall_actions, status_phase_actions, Ep0Memory, Model,
    USBState,
};
use crate::request::{
    device_to_host_actions, device_to_host_fault, device_to_host_model, no_data_actions,
    no_data_fault, no_data_model, requested_address, setup_actions, setup_fault, setup_model, Fault,
};
use crate::run_laws::{in_bounds, reply_is_routine};
use crate::setup::{
    setup_request, SetupDirection, SetupRecipient, SetupRequest, SetupRequestClass,
    SetupRequestType,
};
use crate::stage_laws::wf_is_kept;
use crate::table_case::TableCase;

verus! {

/// The eight bytes of a SETUP packet, in order, are bmRequestType, bRequest, and wValue,
/// wIndex and wLength with the low byte first.
pub proof fn packet_layout(low: u32, high: u32)
    ensures
        ({
            let req = setup_request(low, high);
            &&& low == req.bm_request_type + 0x100 * req.b_request + 0x1_0000 * req.w_value
            &&& high == req.w_index + 0x1_0000 * req.w_length
        }),
{
}

/// Bit 7 of bmRequestType is the direction, bits 6:5 the class, and bits 4:0 the recipient.
/// The driver handles standard requests to the device itself: those with none of the low
/// seven bits set.
pub proof fn request_type_bits(req: SetupRequest)
    ensures
        ({
            let bits = req.bm_request_type;
            &&& req.direction_view() == SetupDirection::DeviceToHost <==> bits & 0x80 != 0
            &&& req.class_view() == SetupRequestClass::Standard <==> bits & 0x60 == 0
            &&& req.class_view() == SetupRequestClass::Class <==> bits & 0x60 == 0x20
            &&& req.class_view() == SetupRequestClass::Vendor <==> bits & 0x60 == 0x40
            &&& req.recipient_view() == SetupRecipient::Device <==> bits & 0x1f == 0
            &&& req.recipient_view() == SetupRecipient::Interface <==> bits & 0x1f == 1
            &&& req.recipient_view() == SetupRecipient::Endpoint <==> bits & 0x1f == 2
            &&& req.is_standard_device() <==> bits & 0x7f == 0
            &&& 0x100 * req.descriptor_type_view() <= req.w_value < 0x100 * (
            req.descriptor_type_view() + 1)
        }),
{
    let bits = req.bm_request_type;
    assert((bits & 0x80 != 0 <==> bits >= 0x80) && (bits / 0x20 % 4 == 0 <==> bits & 0x60 == 0) && (
    bits / 0x20 % 4 == 1 <==> bits & 0x60 == 0x20) && (bits / 0x20 % 4 == 2 <==> bits & 0x60
        == 0x40) && bits % 0x20 == bits & 0x1f && (bits & 0x7f == 0 <==> bits & 0x60 == 0 && bits
        & 0x1f == 0)) by (bit_vector);
}

/// The codes of the standard requests. A code that is none of theirs is told apart from
/// all of them.
pub proof fn request_codes(req: SetupRequest)
    ensures
        req.request_view() == SetupRequestType::GetStatus <==> req.b_request == 0,
        req.request_view() == SetupRequestType::ClearFeature <==> req.b_request == 1,
        req.request_view() == SetupRequestType::SetFeature <==> req.b_request == 3,
        req.request_view() == SetupRequestType::SetAddress <==> req.b_request == 5,
        req.request_view() == SetupRequestType::GetDescriptor <==> req.b_request == 6,
        req.request_view() == SetupRequestType::SetDescriptor <==> req.b_request == 7,
        req.request_view() == SetupRequestType::GetConfiguration <==> req.b_request == 8,
        req.request_view() == SetupRequestType::SetConfiguration <==> req.b_request == 9,
        req.request_view() == SetupRequestType::GetInterface <==> req.b_request == 10,
        req.request_view() == SetupRequestType::SetInterface <==> req.b_request == 11,
        req.request_view() == SetupRequestType::SynchFrame <==> req.b_request == 12,
{
}

/// From the device to the host the driver has an answer to GET_DESCRIPTOR (6) for the types
/// 1, 2 and 6, and to GET_CONFIGURATION (8). Without a data stage it has one to
/// SET_ADDRESS (5) and SET_CONFIGURATION (9). The fault of any other request names what is
/// wrong with it.
pub proof fn request_faults(req: SetupRequest)
    ensures
        ({
            let kind = req.w_value / 0x100;
            let fault = device_to_host_fault(req);
            &&& req.b_request == 6 && (kind == 1 || kind == 2 || kind == 6) ==> fault is None
            &&& req.b_request == 6 && kind != 1 && kind != 2 && kind != 6 ==> (fault matches Some(
                Fault::DescriptorType(k),
            ) && k == kind)
            &&& req.b_request == 8 ==> fault is None
            &&& req.b_request != 6 && req.b_request != 8 ==> (fault matches Some(
                Fault::DeviceToHostRequest(code),
            ) && code == req.b_request)
        }),
        ({
            let fault = no_data_fault(req);
            &&& req.b_request == 5 || req.b_request == 9 ==> fault is None
            &&& req.b_request == 0 ==> fault == Some(Fault::GetStatusNoData)
            &&& req.b_request != 0 && req.b_request != 5 && req.b_request != 9 ==> (
            fault matches Some(Fault::NoDataRequest(code)) && code == req.b_request)
        }),
        req.bm_request_type == 0x80 ==> setup_fault(req) == device_to_host_fault(req),
        req.bm_request_type == 0 && req.w_length != 0 ==> setup_fault(req) == Some(
            Fault::HostToDeviceData,
        ),
        req.bm_request_type == 0 && req.w_length == 0 ==> setup_fault(req) == no_data_fault(req),
        req.bm_request_type % 0x80 != 0 && req.bm_request_type % 0x20 == 1 ==> setup_fault(req)
            == Some(Fault::InterfaceRecipient),
        req.bm_request_type % 0x80 != 0 && req.bm_request_type % 0x20 != 1 ==> setup_fault(req)
            is None,
{
}

/// With buffers, a standard request to the device is answered by its direction. Any other
/// request, and any request without buffers, changes nothing and has nothing done about it.
pub proof fn requests_are_told_apart(m: Model, transfer_type: TableCase, req: SetupRequest)
    ensures
        m.memory is Some && req.bm_request_type == 0x80 ==> {
            &&& setup_model(m, req) == device_to_host_model(m, req)
            &&& setup_actions(m, transfer_type, req) == device_to_host_actions(
                m,
                transfer_type,
                req,
            )
        },
        m.memory is Some && req.bm_request_type == 0 ==> {
            &&& setup_model(m, req) == no_data_model(m, req)
            &&& setup_actions(m, transfer_type, req) == no_data_actions(m, transfer_type, req)
        },
        m.memory is None || req.bm_request_type % 0x80 != 0 ==> {
            &&& setup_model(m, req) == m
            &&& setup_actions(m, transfer_type, req).len() == 0
        },
{
}

/// The answer to a request has been started: both directions of endpoint 0 are enabled, in
/// case C with their NAK bits cleared, the next OUT descriptor is ready for a packet, both
/// interrupts are enabled, and the transmit FIFO has been flushed.
pub open spec fn answer_starts(
    m: Model,
    before: Device,
    after: Device,
    transfer_type: TableCase,
) -> bool {
    &&& starts(after, transfer_type)
    &&& after.out_descriptors == ready_to_receive(before.out_descriptors, m.next_out_idx as int)
    &&& talking(endpoint_mask(before), endpoint_mask(after))
    &&& after.register(Register::Reset) & 0x20 == 0
    &&& after.in_dma == 0
    &&& after.out_dma == before.out_dma
}

/// The first IN descriptor sends a packet of `length` bytes, the last and short one of its
/// transfer, with an interrupt on completion; the other IN descriptors are as before.
pub open spec fn one_packet(before: Device, after: Device, length: int) -> bool {
    after.in_descriptors == before.in_descriptors.update(
        0,
        DMADescriptor {
            flags: (0x0e00_0000 + length) as u32,
            addr: before.in_descriptors[0].addr,
        },
    )
}

/// The registers that starting an answer changes.
pub open spec fn answer_registers() -> Set<Register> {
    set![
        Register::DeviceAllEpInterruptMask,
        Register::OutControl(0),
        Register::InControl(0),
        Register::Reset,
    ]
}

proof fn short_reply(
    m: Model,
    d: Device,
    transfer_type: TableCase,
    bytes: Seq<u8>,
    w_length: u16,
)
    requires
        m.wf(),
        d.wf(),
        m.memory is Some,
        bytes.len() <= 64,
    ensures
        ({
            let actions = reply_actions(m, transfer_type, bytes, w_length);
            let after = perform_all(d, actions);
            let n = if bytes.len() < w_length {
                bytes.len() as int
            } else {
                w_length as int
            };
            &&& after.wf()
            &&& actions.len() == bytes.len() + 8
            &&& answer_starts(m, d, after, transfer_type)
            &&& one_packet(d, after, n)
            &&& after.in_buffer == bytes + d.in_buffer.skip(bytes.len() as int)
            &&& only_registers(d, after, answer_registers())
            &&& starts_in_order(actions)
        }),
{
    reply_effect(m, d, transfer_type, bytes, w_length);
    reply_is_routine(m, transfer_type, bytes, w_length);
    let actions = reply_actions(m, transfer_type, bytes, w_length);
    let after = perform_all(d, actions);
    assert(every(actions, |a: Action| in_bounds(m.memory, a)));
    wf_is_kept(m.memory, d, actions);
    let n = if bytes.len() < w_length {
        bytes.len() as int
    } else {
        w_length as int
    };
    let expected = d.in_descriptors.update(
        0,
        DMADescriptor { flags: (0x0e00_0000 + n) as u32, addr: d.in_descriptors[0].addr },
    );
    assert forall|i: int| 0 <= i < 4 implies #[trigger] after.in_descriptors[i] == expected[i] by {
        if i > 0 {
            assert(n - 64 * i <= 0);
        }
    }
    assert(after.in_descriptors =~= expected);
}

/// The device descriptor tells the host its own length and type, USB 2.0, the class of the
/// device with no subclass and protocol, 64 bytes as the largest packet, vendor and product
/// as they were given, release 1.0, no strings, and one configuration.
pub open spec fn describes_device(bytes: Seq<u8>, m: Model) -> bool {
    &&& bytes[0] == 18
    &&& bytes[1] == 1
    &&& bytes[2] == 0x00
    &&& bytes[3] == 0x02
    &&& bytes[4] == m.device_class
    &&& bytes[5] == 0
    &&& bytes[6] == 0
    &&& bytes[7] == 64
    &&& bytes[8] + 0x100 * bytes[9] == m.vendor_id
    &&& bytes[10] + 0x100 * bytes[11] == m.product_id
    &&& bytes[12] == 0x00
    &&& bytes[13] == 0x01
    &&& bytes[14] == 0
    &&& bytes[15] == 0
    &&& bytes[16] == 0
    &&& bytes[17] == 1
}

/// The device descriptor is 18 bytes that describe the device.
pub proof fn device_descriptor_bytes(m: Model)
    ensures
        device_descriptor(m).bytes().len() == 18,
        describes_device(device_descriptor(m).bytes(), m),
{
}

/// GET_DESCRIPTOR for the device descriptor puts 18 bytes that describe the device at the
/// start of the IN buffer, and sends as many of them as the host asked for.
pub proof fn device_descriptor_is_sent(
    m: Model,
    d: Device,
    transfer_type: TableCase,
    req: SetupRequest,
)
    requires
        m.wf(),
        d.wf(),
        m.memory is Some,
        req.b_request == 6,
        req.w_value / 0x100 == 1,
    ensures
        device_to_host_model(m, req) == (Model { state: USBState::DataStageIn, ..m }),
        ({
            let actions = device_to_host_actions(m, transfer_type, req);
            let after = perform_all(d, actions);
            &&& actions.len() == 26
            &&& answer_starts(m, d, after, transfer_type)
            &&& one_packet(
                d,
                after,
                if req.w_length > 18 {
                    18
                } else {
                    req.w_length as int
                },
            )
            &&& describes_device(after.in_buffer, m)
            &&& forall|i: int|
                18 <= i < 256 ==> #[trigger] after.in_buffer[i] == d.in_buffer[i]
            &&& only_registers(d, after, answer_registers())
            &&& starts_in_order(actions)
        }),
{
    let bytes = device_descriptor(m).bytes();
    device_descriptor_bytes(m);
    short_reply(m, d, transfer_type, bytes, req.w_length);
    let after = perform_all(d, device_to_host_actions(m, transfer_type, req));
    assert forall|i: int| 0 <= i < 18 implies #[trigger] after.in_buffer[i] == bytes[i] by {}
}

/// GET_DESCRIPTOR for a configuration descriptor puts 9 bytes at the start of the IN
/// buffer: their length and type, a total length of 9, no interfaces, configuration 1, no
/// string, powered from the bus, 100 mA. As many of them are sent as the host asked for.
pub proof fn configuration_descriptor_is_sent(
    m: Model,
    d: Device,
    transfer_type: TableCase,
    req: SetupRequest,
)
    requires
        m.wf(),
        d.wf(),
        m.memory is Some,
        req.b_request == 6,
        req.w_value / 0x100 == 2,
    ensures
        device_to_host_model(m, req) == (Model { state: USBState::DataStageIn, ..m }),
        ({
            let actions = device_to_host_actions(m, transfer_type, req);
            let after = perform_all(d, actions);
            &&& actions.len() == 17
            &&& answer_starts(m, d, after, transfer_type)
            &&& one_packet(
                d,
                after,
                if req.w_length > 9 {
                    9
                } else {
                    req.w_length as int
                },
            )
            &&& after.in_buffer[0] == 9
            &&& after.in_buffer[1] == 2
            &&& after.in_buffer[2] == 9
            &&& after.in_buffer[3] == 0
            &&& after.in_buffer[4] == 0
            &&& after.in_buffer[5] == 1
            &&& after.in_buffer[6] == 0
            &&& after.in_buffer[7] == 0x80
            &&& after.in_buffer[8] == 50
            &&& forall|i: int|
                9 <= i < 256 ==> #[trigger] after.in_buffer[i] == d.in_buffer[i]
            &&& only_registers(d, after, answer_registers())
            &&& starts_in_order(actions)
        }),
{
    let bytes = only_configuration().bytes();
    assert(bytes.len() == 9);
    short_reply(m, d, transfer_type, bytes, req.w_length);
    let after = perform_all(d, device_to_host_actions(m, transfer_type, req));
    assert forall|i: int| 0 <= i < 9 implies #[trigger] after.in_buffer[i] == bytes[i] by {}
}

/// GET_CONFIGURATION sends one byte, the configuration that is in force, unless the host
/// asked for none.
pub proof fn configuration_is_sent(
    m: Model,
    d: Device,
    transfer_type: TableCase,
    req: SetupRequest,
)
    requires
        m.wf(),
        d.wf(),
        m.memory is Some,
        req.b_request == 8,
    ensures
        device_to_host_model(m, req) == (Model { state: USBState::DataStageIn, ..m }),
        ({
            let actions = device_to_host_actions(m, transfer_type, req);
            let after = perform_all(d, actions);
            &&& actions.len() == 9
            &&& answer_starts(m, d, after, transfer_type)
            &&& one_packet(
                d,
                after,
                if req.w_length > 0 {
                    1
                } else {
                    0
                },
            )
            &&& after.in_buffer == d.in_buffer.update(0, m.configuration_value)
            &&& only_registers(d, after, answer_registers())
            &&& starts_in_order(actions)
        }),
{
    let bytes = seq![m.configuration_value];
    short_reply(m, d, transfer_type, bytes, req.w_length);
    let after = perform_all(d, device_to_host_actions(m, transfer_type, req));
    assert(after.in_buffer =~= d.in_buffer.update(0, m.configuration_value));
}

/// GET_DESCRIPTOR for the device qualifier is refused: both directions of endpoint 0 answer
/// with STALL, and the driver waits for the next SETUP packet in the next OUT descriptor.
pub proof fn qualifier_is_stalled(m: Model, d: Device, transfer_type: TableCase, req: SetupRequest)
    requires
        m.wf(),
        d.wf(),
        m.memory is Some,
        req.b_request == 6,
        req.w_value / 0x100 == 6,
    ensures
        device_to_host_model(m, req) == (Model { state: USBState::WaitingForSetupPacket, ..m }),
        ({
            let actions = device_to_host_actions(m, transfer_type, req);
            let after = perform_all(d, actions);
            &&& actions.len() == 7
            &&& after.register(Register::OutControl(0)) == 0x8020_0000
            &&& after.register(Register::InControl(0)) == 0x8020_0000
            &&& after.out_descriptors == ready_to_receive(
                d.out_descriptors,
                m.next_out_idx as int,
            )
            &&& listening(endpoint_mask(d), endpoint_mask(after))
            &&& flushes_at(actions, 4)
            &&& after.register(Register::Reset) & 0x20 == 0
            &&& only_out_side(d, after)
            &&& only_registers(d, after, answer_registers())
        }),
{
    stall_effect(m, d);
}

/// Without buffers there is nothing to send from: a request for bytes changes the stage of
/// the transfer and nothing else, and the refused one still stalls endpoint 0.
pub proof fn nothing_is_sent_without_buffers(m: Model, transfer_type: TableCase, req: SetupRequest)
    requires
        m.memory is None,
        device_to_host_fault(req) is None,
    ensures
        req.b_request == 8 || req.w_value / 0x100 != 6 ==> {
            &&& device_to_host_model(m, req) == (Model { state: USBState::DataStageIn, ..m })
            &&& device_to_host_actions(m, transfer_type, req).len() == 0
        },
        req.b_request == 6 && req.w_value / 0x100 == 6 ==> {
            &&& device_to_host_model(m, req) == (Model {
                state: USBState::WaitingForSetupPacket,
                ..m
            })
            &&& device_to_host_actions(m, transfer_type, req) == stall_actions(m)
        },
{
}

/// A packet of no bytes goes out as the status phase: the first IN descriptor, with the
/// start of the IN buffer, sends nothing as the last and short packet of its transfer; the
/// other IN descriptors and the IN buffer are as before.
pub open spec fn status_packet(memory: Ep0Memory, before: Device, after: Device) -> bool {
    &&& after.in_descriptors == before.in_descriptors.update(
        0,
        DMADescriptor { flags: 0x0e00_0000, addr: memory.in_buffers },
    )
    &&& after.in_buffer == before.in_buffer
}

/// SET_CONFIGURATION makes the low byte of wValue the configuration in force and, whatever
/// the transfer type, answers with the status phase. Nothing else is done.
pub proof fn configuration_is_chosen(
    m: Model,
    d: Device,
    transfer_type: TableCase,
    req: SetupRequest,
)
    requires
        m.wf(),
        d.wf(),
        req.b_request == 9,
    ensures
        no_data_model(m, req) == (Model {
            state: USBState::NoDataStage,
            configuration_value: no_data_model(m, req).configuration_value,
            ..m
        }),
        no_data_model(m, req).configuration_value == req.w_value % 0x100,
        m.memory is None ==> no_data_actions(m, transfer_type, req).len() == 0,
        m.memory matches Some(memory) ==> {
            let actions = no_data_actions(m, transfer_type, req);
            let after = perform_all(d, actions);
            &&& actions.len() == 8
            &&& answer_starts(m, d, after, transfer_type)
            &&& status_packet(memory, d, after)
            &&& only_registers(d, after, answer_registers())
            &&& starts_in_order(actions)
        },
{
    status_phase_effect(m, d, transfer_type);
    let none: Seq<Action> = seq![];
    assert(none + status_phase_actions(m, transfer_type) =~= status_phase_actions(
        m,
        transfer_type,
    ));
}

proof fn address_field(before: u32, address: u32)
    requires
        address < 0x80,
    ensures
        ({
            let after = modification(before, CONFIG_ADDRESS, (0x10 * address) as u32);
            &&& after / 0x10 % 0x80 == address
            &&& after & 0xffff_f80f == before & 0xffff_f80f
        }),
{
    let field = (0x10 * address) as u32;
    let after = (before & !0x7f0u32) | field;
    assert(after / 0x10 % 0x80 == address && after & 0xffff_f80f == before & 0xffff_f80f)
        by (bit_vector)
        requires
            address < 0x80,
            field == 0x10 * address,
            after == (before & !0x7f0u32) | field,
    ;
}

/// SET_ADDRESS puts the low seven bits of wValue into bits 10:4 of the device configuration
/// register before anything else, leaves the other bits of that register alone and,
/// whatever the transfer type, answers with the status phase. Nothing else is done.
pub proof fn address_is_taken(m: Model, d: Device, transfer_type: TableCase, req: SetupRequest)
    requires
        m.wf(),
        d.wf(),
        req.b_request == 5,
    ensures
        no_data_model(m, req) == (Model { state: USBState::NoDataStage, ..m }),
        ({
            let actions = no_data_actions(m, transfer_type, req);
            let after = perform_all(d, actions);
            let before = d.register(Register::DeviceConfig);
            let config = after.register(Register::DeviceConfig);
            &&& config / 0x10 % 0x80 == req.w_value % 0x80
            &&& config & 0xffff_f80f == before & 0xffff_f80f
            &&& touches(actions[0], Register::DeviceConfig)
            &&& only_registers(d, after, answer_registers().insert(Register::DeviceConfig))
            &&& m.memory is None ==> actions.len() == 1
            &&& m.memory matches Some(memory) ==> {
                &&& actions.len() == 9
                &&& answer_starts(m, d, after, transfer_type)
                &&& status_packet(memory, d, after)
                &&& starts_in_order(actions.drop_first())
            }
        }),
{
    broadcast use group_perform;

    let set_address = seq![
        Action::Modify {
            register: Register::DeviceConfig,
            clear: CONFIG_ADDRESS,
            set: (0x10 * requested_address(req)) as u32,
        },
    ];
    let taken = perform_all(d, set_address);
    let status_phase = status_phase_actions(m, transfer_type);
    let actions = no_data_actions(m, transfer_type, req);
    assert(actions == set_address + status_phase);
    assert(actions.drop_first() =~= status_phase);
    address_field(d.register(Register::DeviceConfig), (req.w_value % 0x80) as u32);
    status_phase_effect(m, taken, transfer_type);
    let after = perform_all(d, actions);
    assert(after == perform_all(taken, status_phase));
    assert(after.register(Register::DeviceConfig) == taken.register(Register::DeviceConfig));
    assert(endpoint_mask(taken) == endpoint_mask(d));
    assert forall|r: Register|
        !answer_registers().insert(Register::DeviceConfig).contains(
            r,
        ) implies #[trigger] after.register(r) == d.register(r) by {
        assert(taken.register(r) == d.register(r));
        assert(!answer_registers().contains(r));
    }
}

/// The bytes of a device descriptor are its fields in order, 16-bit fields with the low
/// byte first.
pub proof fn device_descriptor_layout(descriptor: DeviceDescriptor)
    ensures
        ({
            let bytes = descriptor.bytes();
            &&& bytes.len() == 18
            &&& bytes[0] == descriptor.b_length
            &&& bytes[1] == descriptor.b_descriptor_type
            &&& bytes[2] + 0x100 * bytes[3] == descriptor.bcd_usb
            &&& bytes[4] == descriptor.b_device_class
            &&& bytes[5] == descriptor.b_device_sub_class
            &&& bytes[6] == descriptor.b_device_protocol
            &&& bytes[7] == descriptor.b_max_packet_size0
            &&& bytes[8] + 0x100 * bytes[9] == descriptor.id_vendor
            &&& bytes[10] + 0x100 * bytes[11] == descriptor.id_product
            &&& bytes[12] + 0x100 * bytes[13] == descriptor.bcd_device
            &&& bytes[14] == descriptor.i_manufacturer
            &&& bytes[15] == descriptor.i_product
            &&& bytes[16] == descriptor.i_serial_number
            &&& bytes[17] == descriptor.b_num_configurations
        }),
{
}

/// The bytes of a configuration descriptor are its fields in order, 16-bit fields with the
/// low byte first.
pub proof fn configuration_descriptor_layout(descriptor: ConfigurationDescriptor)
    ensures
        ({
            let bytes = descriptor.bytes();
            &&& bytes.len() == 9
            &&& bytes[0] == descriptor.b_length
            &&& bytes[1] == descriptor.b_descriptor_type
            &&& bytes[2] + 0x100 * bytes[3] == descriptor.w_total_length
            &&& bytes[4] == descriptor.b_num_interfaces
            &&& bytes[5] == descriptor.b_configuration_value
            &&& bytes[6] == descriptor.i_configuration
            &&& bytes[7] == descriptor.bm_attributes
            &&& bytes[8] == descriptor.b_max_power
        }),
{
}

} // verus!
