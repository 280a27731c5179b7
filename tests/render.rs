use guest_binding::render::render_module;

#[test]
fn module_source_is_exact() {
    let id = [0u32, 1, 0xdeadbeef, 0x10, 0xffffffff, 0x0a0b0c0d, 7, 0x80000000];
    let text = render_module("adder_guest", &[0x00, 0x01, 0xab, 0xff], id);
    let expected = "pub mod adder_guest {\n    pub const ELF: &[u8] = &[0x00, 0x01, 0xab, 0xff, ];\n    pub const ID: [u32; 8] = [0x00000000, 0x00000001, 0xdeadbeef, 0x00000010, 0xffffffff, 0x0a0b0c0d, 0x00000007, 0x80000000, ];\n}\n";
    assert_eq!(text, expected);
}

#[test]
fn module_source_with_no_bytes() {
    let text = render_module("g", &[], [0; 8]);
    let expected = "pub mod g {\n    pub const ELF: &[u8] = &[];\n    pub const ID: [u32; 8] = [0x00000000, 0x00000000, 0x00000000, 0x00000000, 0x00000000, 0x00000000, 0x00000000, 0x00000000, ];\n}\n";
    assert_eq!(text, expected);
}
