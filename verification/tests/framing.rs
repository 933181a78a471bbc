use secret_account::framing::prepare_hash_multiple;

#[test]
fn frame_of_no_parts_is_empty() {
    let parts: [&[u8]; 0] = [];
    assert_eq!(prepare_hash_multiple(&parts), Vec::<u8>::new());
}

#[test]
fn frame_prefixes_each_part_with_its_length() {
    let parts: [&[u8]; 2] = [b"ab", b"c"];
    assert_eq!(
        prepare_hash_multiple(&parts),
        vec![0, 0, 0, 0, 0, 0, 0, 2, 97, 98, 0, 0, 0, 0, 0, 0, 0, 1, 99]
    );
}

#[test]
fn frame_of_an_empty_part_is_its_length_alone() {
    let parts: [&[u8]; 1] = [b""];
    assert_eq!(prepare_hash_multiple(&parts), vec![0, 0, 0, 0, 0, 0, 0, 0]);
}

#[test]
fn frame_writes_the_length_big_endian() {
    let long = vec![7u8; 0x0102];
    let parts: [&[u8]; 1] = [&long];
    let framed = prepare_hash_multiple(&parts);
    assert_eq!(framed.len(), 8 + 0x0102);
    assert_eq!(&framed[..8], &[0, 0, 0, 0, 0, 0, 1, 2]);
    assert_eq!(&framed[8..], &long[..]);
}

#[test]
fn frame_tells_apart_what_concatenation_confuses() {
    let left: [&[u8]; 2] = [b"ab", b"c"];
    let right: [&[u8]; 2] = [b"a", b"bc"];
    assert_ne!(prepare_hash_multiple(&left), prepare_hash_multiple(&right));
}

#[test]
fn frame_tells_apart_sequences_of_different_length() {
    let one: [&[u8]; 1] = [b""];
    let two: [&[u8]; 2] = [b"", b""];
    let none: [&[u8]; 0] = [];
    let joined: [&[u8]; 1] = [b"abc"];
    let split: [&[u8]; 3] = [b"a", b"b", b"c"];
    assert_ne!(prepare_hash_multiple(&one), prepare_hash_multiple(&two));
    assert_ne!(prepare_hash_multiple(&one), prepare_hash_multiple(&none));
    assert_ne!(prepare_hash_multiple(&joined), prepare_hash_multiple(&split));
}

#[test]
fn frame_keeps_the_order_of_parts() {
    let forth: [&[u8]; 2] = [b"x", b"yz"];
    let back: [&[u8]; 2] = [b"yz", b"x"];
    assert_eq!(
        prepare_hash_multiple(&back),
        vec![0, 0, 0, 0, 0, 0, 0, 2, 121, 122, 0, 0, 0, 0, 0, 0, 0, 1, 120]
    );
    assert_ne!(prepare_hash_multiple(&forth), prepare_hash_multiple(&back));
}
