//! SETUP packets: the eight bytes with which the host opens a control transfer.
use vstd::prelude::*;

verus! {

/// Which way the data stage of a request goes.
#[derive(Copy, Clone, PartialEq, Eq, Structural, Debug)]
pub enum SetupDirection {
    HostToDevice,
    DeviceToHost,
}

/// Who defines a request.
#[derive(Copy, Clone, PartialEq, Eq, Structural, Debug)]
pub enum SetupRequestClass {
    Standard,
    Class,
    Vendor,
    Other,
}

/// Whom a request is addressed to.
#[derive(Copy, Clone, PartialEq, Eq, Structural, Debug)]
pub enum SetupRecipient {
    Device,
    Interface,
    Endpoint,
    Other,
}

/// The standard requests.
#[derive(Copy, Clone, PartialEq, Eq, Structural, Debug)]
pub enum SetupRequestType {
    GetStatus,
    ClearFeature,
    SetFeature,
    SetAddress,
    GetDescriptor,
    SetDescriptor,
    GetConfiguration,
    SetConfiguration,
    GetInterface,
    SetInterface,
    SynchFrame,
    Other,
}

/// A SETUP packet, field by field.
#[derive(Copy, Clone, PartialEq, Eq, Structural, Debug)]
pub struct SetupRequest {
    pub bm_request_type: u8,
    pub b_request: u8,
    pub w_value: u16,
    pub w_index: u16,
    pub w_length: u16,
}

/// The packet that two little-endian words of a receive buffer hold.
pub open spec fn setup_request(low: u32, high: u32) -> SetupRequest {
    SetupRequest {
        bm_request_type: (low % 0x100) as u8,
        b_request: (low / 0x100 % 0x100) as u8,
        w_value: (low / 0x1_0000) as u16,
        w_index: (high % 0x1_0000) as u16,
        w_length: (high / 0x1_0000) as u16,
    }
}

impl SetupRequest {
    /// The first of the two words that hold the packet.
    pub open spec fn low_word(self) -> u32 {
        (self.bm_request_type + 0x100 * self.b_request + 0x1_0000 * self.w_value) as u32
    }

    /// The second of the two words that hold the packet.
    pub open spec fn high_word(self) -> u32 {
        (self.w_index + 0x1_0000 * self.w_length) as u32
    }

    /// Bit 7 of bmRequestType.
    pub open spec fn direction_view(self) -> SetupDirection {
        if self.bm_request_type >= 0x80 {
            SetupDirection::DeviceToHost
        } else {
            SetupDirection::HostToDevice
        }
    }

    /// Bits 6:5 of bmRequestType.
    pub open spec fn class_view(self) -> SetupRequestClass {
        let class = self.bm_request_type / 0x20 % 4;
        if class == 0 {
            SetupRequestClass::Standard
        } else if class == 1 {
            SetupRequestClass::Class
        } else if class == 2 {
            SetupRequestClass::Vendor
        } else {
            SetupRequestClass::Other
        }
    }

    /// Bits 4:0 of bmRequestType.
    pub open spec fn recipient_view(self) -> SetupRecipient {
        let recipient = self.bm_request_type % 0x20;
        if recipient == 0 {
            SetupRecipient::Device
        } else if recipient == 1 {
            SetupRecipient::Interface
        } else if recipient == 2 {
            SetupRecipient::Endpoint
        } else {
            SetupRecipient::Other
        }
    }

    /// The standard request that bRequest names.
    pub open spec fn request_view(self) -> SetupRequestType {
        let code = self.b_request;
        if code == 0 {
            SetupRequestType::GetStatus
        } else if code == 1 {
            SetupRequestType::ClearFeature
        } else if code == 3 {
            SetupRequestType::SetFeature
        } else if code == 5 {
            SetupRequestType::SetAddress
        } else if code == 6 {
            SetupRequestType::GetDescriptor
        } else if code == 7 {
            SetupRequestType::SetDescriptor
        } else if code == 8 {
            SetupRequestType::GetConfiguration
        } else if code == 9 {
            SetupRequestType::SetConfiguration
        } else if code == 10 {
            SetupRequestType::GetInterface
        } else if code == 11 {
            SetupRequestType::SetInterface
        } else if code == 12 {
            SetupRequestType::SynchFrame
        } else {
            SetupRequestType::Other
        }
    }

    /// The descriptor type that a GET_DESCRIPTOR request asks for: the high
    /// byte of wValue.
    pub open spec fn descriptor_type_view(self) -> u8 {
        (self.w_value / 0x100) as u8
    }

    /// Whether this is a standard request addressed to the device.
    pub open spec fn is_standard_device(self) -> bool {
        self.class_view() == SetupRequestClass::Standard && self.recipient_view()
            == SetupRecipient::Device
    }

    /// Reads a packet out of the first two words of a receive buffer.
    pub fn new(low: u32, high: u32) -> (r: SetupRequest)
        ensures
            r == setup_request(low, high),
    {
        SetupRequest {
            bm_request_type: (low % 0x100) as u8,
            b_request: (low / 0x100 % 0x100) as u8,
            w_value: (low / 0x1_0000) as u16,
            w_index: (high % 0x1_0000) as u16,
            w_length: (high / 0x1_0000) as u16,
        }
    }

    pub fn data_direction(&self) -> (r: SetupDirection)
        ensures
            r == self.direction_view(),
    {
        if self.bm_request_type >= 0x80 {
            SetupDirection::DeviceToHost
        } else {
            SetupDirection::HostToDevice
        }
    }

    pub fn req_type(&self) -> (r: SetupRequestClass)
        ensures
            r == self.class_view(),
    {
        match self.bm_request_type / 0x20 % 4 {
            0 => SetupRequestClass::Standard,
            1 => SetupRequestClass::Class,
            2 => SetupRequestClass::Vendor,
            _ => SetupRequestClass::Other,
        }
    }

    pub fn recipient(&self) -> (r: SetupRecipient)
        ensures
            r == self.recipient_view(),
    {
        match self.bm_request_type % 0x20 {
            0 => SetupRecipient::Device,
            1 => SetupRecipient::Interface,
            2 => SetupRecipient::Endpoint,
            _ => SetupRecipient::Other,
        }
    }

    pub fn request(&self) -> (r: SetupRequestType)
        ensures
            r == self.request_view(),
    {
        match self.b_request {
            0 => SetupRequestType::GetStatus,
            1 => SetupRequestType::ClearFeature,
            3 => SetupRequestType::SetFeature,
            5 => SetupRequestType::SetAddress,
            6 => SetupRequestType::GetDescriptor,
            7 => SetupRequestType::SetDescriptor,
            8 => SetupRequestType::GetConfiguration,
            9 => SetupRequestType::SetConfiguration,
            10 => SetupRequestType::GetInterface,
            11 => SetupRequestType::SetInterface,
            12 => SetupRequestType::SynchFrame,
            _ => SetupRequestType::Other,
        }
    }

    pub fn descriptor_type(&self) -> (r: u8)
        ensures
            r == self.descriptor_type_view(),
    {
        (self.w_value / 0x100) as u8
    }
}

} // verus!
