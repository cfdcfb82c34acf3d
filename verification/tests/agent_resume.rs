use local_control::agent_resume::registry_file_name;

#[test]
fn uuid_hex_is_lowercase() {
    assert_eq!(hex::encode([0xAB, 0xCD]), "abcd");
    assert_eq!(registry_file_name(&[0xAB, 0xCD]), "abcd.json");
}

#[test]
fn registry_file_name_spells_every_byte_with_two_digits() {
    assert_eq!(registry_file_name(&[0x00, 0x0f, 0xf0, 0x7e]), "000ff07e.json");
    assert_eq!(registry_file_name(&[]), ".json");
    assert_eq!(registry_file_name(&[0xde, 0xad, 0xbe, 0xef]), "deadbeef.json");
}
