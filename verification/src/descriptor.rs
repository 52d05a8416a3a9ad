//! The descriptors that the device reports, and their byte images on the wire.
use vstd::prelude::*;

verus! {

/// The low byte of a 16-bit field.
pub open spec fn low_byte(x: u16) -> u8 {
    (x % 0x100) as u8
}

/// The high byte of a 16-bit field.
pub open spec fn high_byte(x: u16) -> u8 {
    (x / 0x100) as u8
}

/// Appends a 16-bit field, low byte first.
fn push_u16(bytes: &mut Vec<u8>, x: u16)
    ensures
        final(bytes)@ == old(bytes)@ + seq![low_byte(x), high_byte(x)],
{
    bytes.push((x % 0x100) as u8);
    bytes.push((x / 0x100) as u8);
}

/// The standard device descriptor.
#[derive(Copy, Clone, PartialEq, Eq, Structural, Debug)]
pub struct DeviceDescriptor {
    pub b_length: u8,
    pub b_descriptor_type: u8,
    pub bcd_usb: u16,
    pub b_device_class: u8,
    pub b_device_sub_class: u8,
    pub b_device_protocol: u8,
    pub b_max_packet_size0: u8,
    pub id_vendor: u16,
    pub id_product: u16,
    pub bcd_device: u16,
    pub i_manufacturer: u8,
    pub i_product: u8,
    pub i_serial_number: u8,
    pub b_num_configurations: u8,
}

impl DeviceDescriptor {
    /// The fields in order, 16-bit fields low byte first.
    pub open spec fn bytes(self) -> Seq<u8> {
        seq![
            self.b_length,
            self.b_descriptor_type,
            low_byte(self.bcd_usb),
            high_byte(self.bcd_usb),
            self.b_device_class,
            self.b_device_sub_class,
            self.b_device_protocol,
            self.b_max_packet_size0,
            low_byte(self.id_vendor),
            high_byte(self.id_vendor),
            low_byte(self.id_product),
            high_byte(self.id_product),
            low_byte(self.bcd_device),
            high_byte(self.bcd_device),
            self.i_manufacturer,
            self.i_product,
            self.i_serial_number,
            self.b_num_configurations,
        ]
    }

    /// The descriptor as it goes over the wire.
    pub fn serialize(&self) -> (r: Vec<u8>)
        ensures
            r@ == self.bytes(),
    {
        let mut bytes: Vec<u8> = Vec::new();
        bytes.push(self.b_length);
        bytes.push(self.b_descriptor_type);
        push_u16(&mut bytes, self.bcd_usb);
        bytes.push(self.b_device_class);
        bytes.push(self.b_device_sub_class);
        bytes.push(self.b_device_protocol);
        bytes.push(self.b_max_packet_size0);
        push_u16(&mut bytes, self.id_vendor);
        push_u16(&mut bytes, self.id_product);
        push_u16(&mut bytes, self.bcd_device);
        bytes.push(self.i_manufacturer);
        bytes.push(self.i_product);
        bytes.push(self.i_serial_number);
        bytes.push(self.b_num_configurations);
        bytes
    }
}

/// The standard configuration descriptor.
#[derive(Copy, Clone, PartialEq, Eq, Structural, Debug)]
pub struct ConfigurationDescriptor {
    pub b_length: u8,
    pub b_descriptor_type: u8,
    pub w_total_length: u16,
    pub b_num_interfaces: u8,
    pub b_configuration_value: u8,
    pub i_configuration: u8,
    pub bm_attributes: u8,
    pub b_max_power: u8,
}

/// The one configuration of the device: no interfaces, number 1, powered from
/// the bus with 100 mA.
pub open spec fn only_configuration() -> ConfigurationDescriptor {
    ConfigurationDescriptor {
        b_length: 9,
        b_descriptor_type: 2,
        w_total_length: 9,
        b_num_interfaces: 0,
        b_configuration_value: 1,
        i_configuration: 0,
        bm_attributes: 0x80,
        b_max_power: 50,
    }
}

impl ConfigurationDescriptor {
    /// The fields in order, 16-bit fields low byte first.
    pub open spec fn bytes(self) -> Seq<u8> {
        seq![
            self.b_length,
            self.b_descriptor_type,
            low_byte(self.w_total_length),
            high_byte(self.w_total_length),
            self.b_num_interfaces,
            self.b_configuration_value,
            self.i_configuration,
            self.bm_attributes,
            self.b_max_power,
        ]
    }

    pub fn new() -> (r: ConfigurationDescriptor)
        ensures
            r == only_configuration(),
    {
        ConfigurationDescriptor {
            b_length: 9,
            b_descriptor_type: 2,
            w_total_length: 9,
            b_num_interfaces: 0,
            b_configuration_value: 1,
            i_configuration: 0,
            bm_attributes: 0x80,
            b_max_power: 50,
        }
    }

    /// The descriptor as it goes over the wire.
    pub fn into_buf(&self) -> (r: Vec<u8>)
        ensures
            r@ == self.bytes(),
    {
        let mut bytes: Vec<u8> = Vec::new();
        bytes.push(self.b_length);
        bytes.push(self.b_descriptor_type);
        push_u16(&mut bytes, self.w_total_length);
        bytes.push(self.b_num_interfaces);
        bytes.push(self.b_configuration_value);
        bytes.push(self.i_configuration);
        bytes.push(self.bm_attributes);
        bytes.push(self.b_max_power);
        bytes
    }
}

} // verus!
