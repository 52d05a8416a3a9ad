use hotel_usb::table_case::TableCase;

const XFER_COMPL: u32 = 1 << 0;
const SETUP: u32 = 1 << 3;
const STS_PHSE_RCVD: u32 = 1 << 5;

#[test]
fn rows_of_the_table_decode_to_their_cases() {
    assert_eq!(TableCase::decode_interrupt(XFER_COMPL), TableCase::A);
    assert_eq!(TableCase::decode_interrupt(SETUP), TableCase::B);
    assert_eq!(TableCase::decode_interrupt(SETUP | XFER_COMPL), TableCase::C);
    assert_eq!(TableCase::decode_interrupt(STS_PHSE_RCVD), TableCase::D);
    assert_eq!(TableCase::decode_interrupt(STS_PHSE_RCVD | XFER_COMPL), TableCase::E);
}

#[test]
fn combinations_outside_the_table() {
    assert_eq!(TableCase::decode_interrupt(0), TableCase::D);
    assert_eq!(TableCase::decode_interrupt(STS_PHSE_RCVD | SETUP), TableCase::B);
    assert_eq!(
        TableCase::decode_interrupt(STS_PHSE_RCVD | SETUP | XFER_COMPL),
        TableCase::C
    );
}

#[test]
fn other_bits_do_not_matter_to_the_case() {
    assert_eq!(TableCase::decode_interrupt(!(SETUP | STS_PHSE_RCVD)), TableCase::A);
    assert_eq!(
        TableCase::decode_interrupt(!(SETUP | STS_PHSE_RCVD | XFER_COMPL)),
        TableCase::D
    );
}
