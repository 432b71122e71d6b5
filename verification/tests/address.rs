use comm_messenger::address::Address;

fn counting() -> [u8; 20] {
    let mut bytes = [0u8; 20];
    for (i, byte) in bytes.iter_mut().enumerate() {
        *byte = (i as u8) * 13 + 1;
    }
    bytes
}

#[test]
fn null_address_is_all_zero() {
    assert_eq!(Address::null().to_bytes(), [0u8; 20]);
    assert_eq!(
        Address::null().to_str(),
        "0000000000000000000000000000000000000000"
    );
}

#[test]
fn address_text_is_forty_small_hex_digits() {
    let mut bytes = [0u8; 20];
    bytes[0] = 0xde;
    bytes[1] = 0xad;
    bytes[2] = 0x0b;
    bytes[3] = 0xf0;
    bytes[19] = 0x9a;
    let text = Address::from_bytes(bytes).to_str();
    assert_eq!(text, "dead0bf00000000000000000000000000000009a");
    assert_eq!(text.len(), 40);
}

#[test]
fn address_text_round_trip() {
    let address = Address::from_bytes(counting());
    let text = address.to_str();
    assert_eq!(Address::from_str(&text), Some(address));
    assert_eq!(Address::from_str(&text).unwrap().to_bytes(), counting());
}

#[test]
fn from_str_reads_both_cases() {
    let small = Address::from_str("00ff10abcdef0123456789abcdefabcdef012345").unwrap();
    let capital = Address::from_str("00FF10ABCDEF0123456789ABCDEFABCDEF012345").unwrap();
    assert_eq!(small, capital);
    let bytes = small.to_bytes();
    assert_eq!(bytes[0], 0x00);
    assert_eq!(bytes[1], 0xff);
    assert_eq!(bytes[2], 0x10);
    assert_eq!(bytes[3], 0xab);
    assert_eq!(bytes[19], 0x45);
    assert_eq!(
        capital.to_str(),
        "00ff10abcdef0123456789abcdefabcdef012345"
    );
}

#[test]
fn from_str_refuses_what_is_no_address() {
    assert_eq!(Address::from_str(""), None);
    assert_eq!(
        Address::from_str("00ff10abcdef0123456789abcdefabcdef01234"),
        None
    );
    assert_eq!(
        Address::from_str("00ff10abcdef0123456789abcdefabcdef0123456"),
        None
    );
    assert_eq!(
        Address::from_str("00ff10abcdef0123456789abcdefabcdef01234g"),
        None
    );
    assert_eq!(
        Address::from_str("00ff10abcdef0123456789 bcdefabcdef012345"),
        None
    );
    assert_eq!(
        Address::from_str("00ff10abcdef0123456789abcdefabcdef0123\u{e9}"),
        None
    );
    assert_eq!(
        Address::from_str("\u{e9}\u{e9}\u{e9}\u{e9}\u{e9}\u{e9}\u{e9}\u{e9}\u{e9}\u{e9}\u{e9}\u{e9}\u{e9}\u{e9}\u{e9}\u{e9}\u{e9}\u{e9}\u{e9}\u{e9}"),
        None
    );
}

#[test]
fn addresses_are_the_same_when_their_bytes_are() {
    let a = Address::from_bytes(counting());
    let b = Address::from_bytes(counting());
    let mut other = counting();
    other[19] ^= 1;
    let c = Address::from_bytes(other);
    assert!(a == b);
    assert!(a != c);
    assert!(Address::null() != a);
    assert_eq!(Some(a), Some(b));
}
