use secret_account::keys::{make_address_key, make_id_key};

#[test]
fn id_key_is_the_prefix_and_the_id() {
    assert_eq!(make_id_key(&"alice".to_string()), b"ID_alice".to_vec());
}

#[test]
fn id_key_of_the_empty_id_is_the_prefix() {
    assert_eq!(make_id_key(&String::new()), b"ID_".to_vec());
}

#[test]
fn id_key_holds_the_utf8_bytes_of_the_id() {
    assert_eq!(
        make_id_key(&"\u{e9}\u{20ac}".to_string()),
        vec![0x49, 0x44, 0x5f, 0xc3, 0xa9, 0xe2, 0x82, 0xac]
    );
}

#[test]
fn id_keys_of_different_ids_differ() {
    assert_ne!(make_id_key(&"bob".to_string()), make_id_key(&"bo".to_string()));
    assert_ne!(make_id_key(&"ID_".to_string()), make_id_key(&String::new()));
}

#[test]
fn address_key_is_the_prefix_and_lower_case_hex() {
    let address = [0xAAu8; 20];
    assert_eq!(
        make_address_key(&address),
        b"0xaaaaaaaaaaaaaaaaaaaaaaaaaaaaaaaaaaaaaaaa".to_vec()
    );
}

#[test]
fn address_key_writes_high_digit_first() {
    let mut address = [0u8; 20];
    for i in 0..20 {
        address[i] = (i as u8) * 13 + 1;
    }
    address[18] = 0x0f;
    address[19] = 0xf0;
    assert_eq!(
        make_address_key(&address),
        b"0x010e1b2835424f5c697683909daab7c4d1de0ff0".to_vec()
    );
}

#[test]
fn address_key_has_a_fixed_width() {
    assert_eq!(make_address_key(&[0u8; 20]).len(), 42);
    assert_eq!(make_address_key(&[0xffu8; 20]).len(), 42);
    assert_eq!(
        make_address_key(&[0u8; 20]),
        b"0x0000000000000000000000000000000000000000".to_vec()
    );
}

#[test]
fn address_keys_of_different_addresses_differ() {
    let mut one = [0u8; 20];
    let mut other = [0u8; 20];
    one[19] = 0x01;
    other[19] = 0x10;
    assert_ne!(make_address_key(&one), make_address_key(&other));
}

#[test]
fn id_keys_and_address_keys_never_meet() {
    let id = "0xaaaaaaaaaaaaaaaaaaaaaaaaaaaaaaaaaaaaaaaa".to_string();
    assert_ne!(make_id_key(&id), make_address_key(&[0xAAu8; 20]));
}

#[test]
fn address_keys_keep_the_order_of_addresses() {
    let mut addresses = Vec::new();
    let steps =
        [(0usize, 0x00u8), (19, 0x01), (19, 0x0a), (19, 0x10), (19, 0x9f), (19, 0xa0), (0, 0x01)];
    for (place, byte) in steps {
        let mut address = [0u8; 20];
        address[place] = byte;
        addresses.push(address);
    }
    for pair in addresses.windows(2) {
        assert!(pair[0] < pair[1]);
        assert!(make_address_key(&pair[0]) < make_address_key(&pair[1]));
    }
}
