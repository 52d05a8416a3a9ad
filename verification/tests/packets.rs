use hotel_usb::action::{modified, settled, Register};
use hotel_usb::descriptor::{ConfigurationDescriptor, DeviceDescriptor};
use hotel_usb::setup::{
    SetupDirection, SetupRecipient, SetupRequest, SetupRequestClass, SetupRequestType,
};

#[test]
fn setup_packet_fields() {
    // 80 06 34 12 cd ab 40 00
    let req = SetupRequest::new(0x1234_0680, 0x0040_abcd);
    assert_eq!(req.bm_request_type, 0x80);
    assert_eq!(req.b_request, 6);
    assert_eq!(req.w_value, 0x1234);
    assert_eq!(req.w_index, 0xabcd);
    assert_eq!(req.w_length, 0x40);
    assert_eq!(req.descriptor_type(), 0x12);
}

#[test]
fn request_type_byte_is_split() {
    let of = |byte: u8| SetupRequest::new(byte as u32, 0);
    assert_eq!(of(0x80).data_direction(), SetupDirection::DeviceToHost);
    assert_eq!(of(0x7f).data_direction(), SetupDirection::HostToDevice);
    assert_eq!(of(0x9f).req_type(), SetupRequestClass::Standard);
    assert_eq!(of(0x20).req_type(), SetupRequestClass::Class);
    assert_eq!(of(0xc0).req_type(), SetupRequestClass::Vendor);
    assert_eq!(of(0x60).req_type(), SetupRequestClass::Other);
    assert_eq!(of(0xe0).recipient(), SetupRecipient::Device);
    assert_eq!(of(0x21).recipient(), SetupRecipient::Interface);
    assert_eq!(of(0x82).recipient(), SetupRecipient::Endpoint);
    assert_eq!(of(0x03).recipient(), SetupRecipient::Other);
    assert_eq!(of(0x1f).recipient(), SetupRecipient::Other);
}

#[test]
fn request_codes() {
    let of = |code: u32| SetupRequest::new(code << 8, 0).request();
    assert_eq!(of(0), SetupRequestType::GetStatus);
    assert_eq!(of(1), SetupRequestType::ClearFeature);
    assert_eq!(of(2), SetupRequestType::Other);
    assert_eq!(of(3), SetupRequestType::SetFeature);
    assert_eq!(of(4), SetupRequestType::Other);
    assert_eq!(of(5), SetupRequestType::SetAddress);
    assert_eq!(of(6), SetupRequestType::GetDescriptor);
    assert_eq!(of(7), SetupRequestType::SetDescriptor);
    assert_eq!(of(8), SetupRequestType::GetConfiguration);
    assert_eq!(of(9), SetupRequestType::SetConfiguration);
    assert_eq!(of(10), SetupRequestType::GetInterface);
    assert_eq!(of(11), SetupRequestType::SetInterface);
    assert_eq!(of(12), SetupRequestType::SynchFrame);
    assert_eq!(of(13), SetupRequestType::Other);
    assert_eq!(of(255), SetupRequestType::Other);
}

#[test]
fn device_descriptor_bytes() {
    let descriptor = DeviceDescriptor {
        b_length: 18,
        b_descriptor_type: 1,
        bcd_usb: 0x0200,
        b_device_class: 0xff,
        b_device_sub_class: 1,
        b_device_protocol: 2,
        b_max_packet_size0: 64,
        id_vendor: 0x18d1,
        id_product: 0x5026,
        bcd_device: 0x0100,
        i_manufacturer: 3,
        i_product: 4,
        i_serial_number: 5,
        b_num_configurations: 1,
    };
    assert_eq!(
        descriptor.serialize(),
        vec![
            18, 1, 0x00, 0x02, 0xff, 1, 2, 64, 0xd1, 0x18, 0x26, 0x50, 0x00, 0x01, 3, 4, 5, 1
        ]
    );
}

#[test]
fn configuration_descriptor_bytes() {
    let descriptor = ConfigurationDescriptor::new();
    assert_eq!(descriptor.into_buf(), vec![9, 2, 9, 0, 0, 1, 0, 0x80, 50]);
    let longer = ConfigurationDescriptor {
        w_total_length: 0x0123,
        ..descriptor
    };
    assert_eq!(longer.into_buf(), vec![9, 2, 0x23, 0x01, 0, 1, 0, 0x80, 50]);
}

#[test]
fn modification_clears_before_it_sets() {
    assert_eq!(modified(0xffff_ffff, 0x0000_07f0, 0x0000_0120), 0xffff_f92f);
    assert_eq!(modified(0x0000_0003, 0x1, 0x1), 0x0000_0003);
    assert_eq!(modified(0x0000_0010, 0, 0x1), 0x0000_0011);
}

#[test]
fn a_wait_is_over_when_the_bits_are_clear() {
    assert!(!settled(0x8000_0020, 0x20));
    assert!(settled(0x8000_0410, 0x20));
    assert!(!settled(0x30, 0x60));
    assert!(settled(0, !0));
}

#[test]
fn register_offsets() {
    assert_eq!(Register::Reset.offset(), 0x10);
    assert_eq!(Register::DeviceInEpTxFifoSize(14).offset(), 0x13c);
    assert_eq!(Register::DeviceAllEpInterruptMask.offset(), 0x81c);
    assert_eq!(Register::InControl(0).offset(), 0x900);
    assert_eq!(Register::InDmaAddress(0).offset(), 0x914);
    assert_eq!(Register::InInterrupt(15).offset(), 0xae8);
    assert_eq!(Register::OutControl(0).offset(), 0xb00);
    assert_eq!(Register::OutInterrupt(0).offset(), 0xb08);
    assert_eq!(Register::OutDmaAddress(0).offset(), 0xb14);
}
