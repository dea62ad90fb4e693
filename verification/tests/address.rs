use metadata_core::address::{Address, AddressError, IpAddrParser};

#[test]
fn ipv4_reading_is_an_ipv4_address() {
    let parser = IpAddrParser::new();
    assert!(matches!(
        parser.resolve(true, Some([127, 0, 0, 1]), None),
        Ok(Address::V4([127, 0, 0, 1]))
    ));
    assert!(matches!(parser.resolve(true, Some([0, 0, 0, 0]), None), Ok(Address::V4([0, 0, 0, 0]))));
}

#[test]
fn ipv6_reading_is_an_ipv6_address() {
    let mut loopback = [0u8; 16];
    loopback[15] = 1;
    let parser = IpAddrParser::new();
    assert!(matches!(
        parser.resolve(true, None, Some(loopback)),
        Ok(Address::V6(bytes)) if bytes == loopback
    ));
}

#[test]
fn value_without_a_reading_is_no_address() {
    let parser = IpAddrParser::new();
    assert_eq!(parser.resolve(true, None, None).err(), Some(AddressError::NotAnAddress));
}

#[test]
fn value_that_is_not_utf8_is_no_address() {
    let parser = IpAddrParser::new();
    assert_eq!(parser.resolve(false, None, None).err(), Some(AddressError::NotUtf8));
    assert_eq!(
        parser.resolve(false, Some([127, 0, 0, 1]), None).err(),
        Some(AddressError::NotUtf8)
    );
}

#[test]
fn ipv4_reading_goes_first() {
    let parser = IpAddrParser::default();
    assert!(matches!(
        parser.resolve(true, Some([10, 0, 0, 1]), Some([0; 16])),
        Ok(Address::V4([10, 0, 0, 1]))
    ));
}

#[test]
fn address_errors_say_what_is_wrong() {
    assert_eq!(AddressError::NotUtf8.message(), "must be a valid UTF-8 string");
    assert_eq!(AddressError::NotAnAddress.message(), "must be a valid IPv4 or IPv6 address");
}
