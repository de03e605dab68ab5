use hypervisor::nt::UnicodeString;

#[test]
fn descriptor_counts_bytes_without_terminator() {
    let name: Vec<u8> = b"KeRaiseIrqlToDpcLevel".to_vec();
    let s = UnicodeString::from_ascii(&name);
    assert_eq!(s.length, 42);
    assert_eq!(s.maximum_length, 44);
    assert_eq!(s.buffer.len(), 22);
    assert_eq!(s.buffer[21], 0);
    let expected: Vec<u16> = "KeRaiseIrqlToDpcLevel".encode_utf16().collect();
    assert_eq!(&s.buffer[..21], &expected[..]);
}

#[test]
fn empty_name_is_just_the_terminator() {
    let s = UnicodeString::from_ascii(&Vec::new());
    assert_eq!(s.length, 0);
    assert_eq!(s.maximum_length, 2);
    assert_eq!(s.buffer, vec![0u16]);
}
