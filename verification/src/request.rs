//! What the driver does with a SETUP packet, and which packets it has no answer to.
use vstd::prelude::*;

use crate::action::{Action, Register};
use crate::constants::{
    CONFIG_ADDRESS, GET_DESCRIPTOR_CONFIGURATION, GET_DESCRIPTOR_DEVICE,
    GET_DESCRIPTOR_DEVICE_QUALIFIER,
};
use crate::descriptor::only_configuration;
use crate::model::{
    device_descriptor, only_if, reply_actions, stall_actions, status_phase_actions, waiting_model,
    Model, USBState,
};
use crate::setup::{SetupDirection, SetupRecipient, SetupRequest, SetupRequestType};
use crate::table_case::TableCase;

verus! {

/// Why the driver cannot go on.
#[derive(Copy, Clone, PartialEq, Eq, Structural, Debug)]
pub enum Fault {
    /// Endpoint 0 raised an interrupt before it was given descriptors.
    NotInitialized,
    /// A packet other than SETUP arrived while a SETUP packet was expected.
    NotSetupPacket,
    /// A request addressed to an interface.
    InterfaceRecipient,
    /// A request with data from the host.
    HostToDeviceData,
    /// GET_STATUS without a data stage.
    GetStatusNoData,
    /// GET_DESCRIPTOR for a descriptor type that the device does not know.
    DescriptorType(u8),
    /// A device-to-host request with this code.
    DeviceToHostRequest(u8),
    /// A request without a data stage with this code.
    NoDataRequest(u8),
}

/// The fault of a standard device-to-host request, if it has one.
pub open spec fn device_to_host_fault(req: SetupRequest) -> Option<Fault> {
    match req.request_view() {
        SetupRequestType::GetDescriptor => {
            let kind = req.descriptor_type_view();
            if kind == GET_DESCRIPTOR_DEVICE || kind == GET_DESCRIPTOR_CONFIGURATION || kind
                == GET_DESCRIPTOR_DEVICE_QUALIFIER {
                None
            } else {
                Some(Fault::DescriptorType(kind))
            }
        },
        SetupRequestType::GetConfiguration => None,
        _ => Some(Fault::DeviceToHostRequest(req.b_request)),
    }
}

/// The fault of a standard request without a data stage, if it has one.
pub open spec fn no_data_fault(req: SetupRequest) -> Option<Fault> {
    match req.request_view() {
        SetupRequestType::GetStatus => Some(Fault::GetStatusNoData),
        SetupRequestType::SetAddress => None,
        SetupRequestType::SetConfiguration => None,
        _ => Some(Fault::NoDataRequest(req.b_request)),
    }
}

/// The fault of a request, if it has one.
pub open spec fn setup_fault(req: SetupRequest) -> Option<Fault> {
    if req.is_standard_device() {
        if req.direction_view() == SetupDirection::DeviceToHost {
            device_to_host_fault(req)
        } else if req.w_length > 0 {
            Some(Fault::HostToDeviceData)
        } else {
            no_data_fault(req)
        }
    } else if req.recipient_view() == SetupRecipient::Interface {
        Some(Fault::InterfaceRecipient)
    } else {
        None
    }
}

/// The bytes that answer a standard device-to-host request; `None` where the
/// answer is a STALL.
pub open spec fn reply_bytes(m: Model, req: SetupRequest) -> Option<Seq<u8>> {
    if req.request_view() == SetupRequestType::GetConfiguration {
        Some(seq![m.configuration_value])
    } else if req.descriptor_type_view() == GET_DESCRIPTOR_DEVICE {
        Some(device_descriptor(m).bytes())
    } else if req.descriptor_type_view() == GET_DESCRIPTOR_CONFIGURATION {
        Some(only_configuration().bytes())
    } else {
        None
    }
}

/// The state after a standard device-to-host request.
pub open spec fn device_to_host_model(m: Model, req: SetupRequest) -> Model {
    match reply_bytes(m, req) {
        Some(_) => Model { state: USBState::DataStageIn, ..m },
        None => waiting_model(m),
    }
}

/// What is done about a standard device-to-host request.
pub open spec fn device_to_host_actions(
    m: Model,
    transfer_type: TableCase,
    req: SetupRequest,
) -> Seq<Action> {
    match reply_bytes(m, req) {
        Some(bytes) => reply_actions(m, transfer_type, bytes, req.w_length),
        None => stall_actions(m),
    }
}

/// The device address that a SET_ADDRESS request carries: the low seven bits of
/// wValue.
pub open spec fn requested_address(req: SetupRequest) -> int {
    req.w_value as int % 0x80
}

/// The configuration that a SET_CONFIGURATION request carries: the low byte of
/// wValue.
pub open spec fn requested_configuration(req: SetupRequest) -> u8 {
    (req.w_value % 0x100) as u8
}

/// The state after a standard request without a data stage.
pub open spec fn no_data_model(m: Model, req: SetupRequest) -> Model {
    Model {
        state: USBState::NoDataStage,
        configuration_value: if req.request_view() == SetupRequestType::SetConfiguration {
            requested_configuration(req)
        } else {
            m.configuration_value
        },
        ..m
    }
}

/// What is done about a standard request without a data stage.
pub open spec fn no_data_actions(
    m: Model,
    transfer_type: TableCase,
    req: SetupRequest,
) -> Seq<Action> {
    only_if(
        req.request_view() == SetupRequestType::SetAddress,
        seq![
            Action::Modify {
                register: Register::DeviceConfig,
                clear: CONFIG_ADDRESS,
                set: (0x10 * requested_address(req)) as u32,
            },
        ],
    ) + status_phase_actions(m, transfer_type)
}

/// The state after a request.
pub open spec fn setup_model(m: Model, req: SetupRequest) -> Model {
    if m.memory is Some && req.is_standard_device() {
        if req.direction_view() == SetupDirection::DeviceToHost {
            device_to_host_model(m, req)
        } else {
            no_data_model(m, req)
        }
    } else {
        m
    }
}

/// What is done about a request. One that is neither a standard request to the
/// device nor a fault is passed over.
pub open spec fn setup_actions(m: Model, transfer_type: TableCase, req: SetupRequest) -> Seq<
    Action,
> {
    only_if(
        m.memory is Some && req.is_standard_device(),
        if req.direction_view() == SetupDirection::DeviceToHost {
            device_to_host_actions(m, transfer_type, req)
        } else {
            no_data_actions(m, transfer_type, req)
        },
    )
}

} // verus!
