use gpu_context::pci_id::{parse_pci_id, show_pci_id, PciIdError};

#[test]
fn test_parse_device_id() {
    assert!(parse_pci_id("0xABCD").is_ok());
    assert!(parse_pci_id("ABCD").is_ok());
    assert!(parse_pci_id("abcd").is_ok());
    assert!(parse_pci_id("1234").is_ok());
    assert!(parse_pci_id("123").is_err());
    assert_eq!(
        parse_pci_id(&format!("{:x}", 0x1234)).unwrap(),
        parse_pci_id(&format!("{:X}", 0x1234)).unwrap(),
    );

    assert_eq!(
        parse_pci_id(&format!("{:#x}", 0x1234)).unwrap(),
        parse_pci_id(&format!("{:#X}", 0x1234)).unwrap(),
    );
}

#[test]
fn values_of_identifiers() {
    assert_eq!(parse_pci_id("0xABCD"), Ok(0xabcd));
    assert_eq!(parse_pci_id("0Xabcd"), Ok(0xabcd));
    assert_eq!(parse_pci_id("aBcD"), Ok(0xabcd));
    assert_eq!(parse_pci_id("0000"), Ok(0));
    assert_eq!(parse_pci_id("ffff"), Ok(0xffff));
    assert_eq!(parse_pci_id("0x12"), Err(PciIdError::NotFourHexDigits));
    assert_eq!(parse_pci_id("0xx1"), Err(PciIdError::NotFourHexDigits));
    assert_eq!(parse_pci_id("0x0x1234"), Err(PciIdError::NotFourHexDigits));
    assert_eq!(parse_pci_id("x1234"), Err(PciIdError::NotFourHexDigits));
}

#[test]
fn prefix_makes_no_difference() {
    for text in ["1f2e", "FFFF", "123", "12345", "wxyz", "", "x1f2"] {
        assert_eq!(parse_pci_id(&format!("0x{text}")), parse_pci_id(text));
        assert_eq!(parse_pci_id(&format!("0X{text}")), parse_pci_id(text));
    }
}

#[test]
fn white_space_around_is_ignored() {
    assert_eq!(parse_pci_id(" \t0x1f2e\r\n"), Ok(0x1f2e));
    assert_eq!(parse_pci_id("\u{3000}1f2e\u{a0}"), Ok(0x1f2e));
    assert_eq!(parse_pci_id("1f 2e"), Err(PciIdError::NotFourHexDigits));
    assert_eq!(parse_pci_id("0x 1f2e"), Err(PciIdError::NotFourHexDigits));
}

#[test]
fn white_space_is_what_trimming_takes_for_it() {
    for code in 0..=0x10ffff_u32 {
        if let Some(c) = char::from_u32(code) {
            let text = format!("{c}1234{c}");
            let expected = text.trim() == "1234";
            assert_eq!(parse_pci_id(&text).is_ok(), expected, "{:#x}", code);
        }
    }
}

#[test]
fn texts_that_are_no_identifiers() {
    for text in ["", "   ", "0x", "12345", "12g4", "+123", "-123", "\u{e9}12", "\u{ff11}234", "0x+123"] {
        assert_eq!(parse_pci_id(text), Err(PciIdError::NotFourHexDigits), "{text:?}");
    }
    assert_eq!(
        parse_pci_id("").unwrap_err().message(),
        "Expected a 4 digit PCI ID in hexadecimal format",
    );
}

#[test]
fn shown_identifiers_read_back() {
    for id in [0, 1, 0xf, 0x10, 0x1f2, 0x1234, 0xabcd, 0xffff] {
        assert_eq!(show_pci_id(id), format!("{:#06x}", id));
        assert_eq!(parse_pci_id(&show_pci_id(id)), Ok(id));
    }
    for id in [0x10000, 0x12345, 0xdeadbeef, u32::MAX] {
        assert_eq!(show_pci_id(id), format!("{:#06x}", id));
        assert!(parse_pci_id(&show_pci_id(id)).is_err());
    }
}
