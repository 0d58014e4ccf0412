use storescp::text::{
    decode_text_trap, validate_cs, validate_da, validate_dt, validate_iso_8859, validate_tm,
    DefaultCharacterSetCodec, SpecificCharacterSet, TextCodec, TextValidationOutcome,
    Utf8CharacterSetCodec,
};

#[test]
fn iso_ir_6_baseline() {
    let codec = SpecificCharacterSet::Default
        .codec()
        .expect("Must be fully supported");
    assert_eq!(codec.decode(b"Smith^John").unwrap(), "Smith^John");
}

#[test]
fn iso_ir_192_baseline() {
    let codec = SpecificCharacterSet::IsoIr192
        .codec()
        .expect("Should be fully supported");
    assert_eq!(
        codec.decode("Simões^John".as_bytes()).unwrap(),
        "Simões^John",
    );
    assert_eq!(
        codec.decode("Иванков^Андрей".as_bytes()).unwrap(),
        "Иванков^Андрей",
    );
}

#[test]
fn iso_ir_100_baseline() {
    let codec = SpecificCharacterSet::IsoIr100
        .codec()
        .expect("Should be fully supported");
    assert_eq!(codec.decode(b"Sim\xF5es^Jo\xE3o").unwrap(), "Simões^João");
    assert_eq!(codec.decode(b"G\xfcnther^Hans").unwrap(), "Günther^Hans");
}

#[test]
fn iso_ir_101_baseline() {
    let codec = SpecificCharacterSet::IsoIr101
        .codec()
        .expect("Should be fully supported");
    assert_eq!(codec.decode(b"G\xfcnther^Hans").unwrap(), "Günther^Hans");
}

#[test]
fn from_code_accepts_both_spellings_and_trailing_space() {
    assert_eq!(SpecificCharacterSet::from_code("ISO_IR 100"), Some(SpecificCharacterSet::IsoIr100));
    assert_eq!(SpecificCharacterSet::from_code("ISO_IR_100"), Some(SpecificCharacterSet::IsoIr100));
    assert_eq!(SpecificCharacterSet::from_code("ISO_IR 192  "), Some(SpecificCharacterSet::IsoIr192));
    assert_eq!(SpecificCharacterSet::from_code("GB18030 "), Some(SpecificCharacterSet::GB18030));
    assert_eq!(SpecificCharacterSet::from_code("Default"), Some(SpecificCharacterSet::Default));
    assert_eq!(SpecificCharacterSet::from_code("ISO 2022 IR 87"), None);
    assert_eq!(SpecificCharacterSet::from_code(" ISO_IR 100"), None);
}

#[test]
fn codec_names_are_defined_terms() {
    assert_eq!(SpecificCharacterSet::Default.codec().unwrap().name(), "ISO_IR 6");
    assert_eq!(SpecificCharacterSet::IsoIr101.codec().unwrap().name(), "ISO_IR 101");
    assert_eq!(SpecificCharacterSet::GB18030.codec().unwrap().name(), "GB18030");
    assert_eq!(SpecificCharacterSet::default(), SpecificCharacterSet::Default);
}

#[test]
fn invalid_utf8_is_escaped_in_octal() {
    let codec = Utf8CharacterSetCodec;
    assert_eq!(codec.decode(b"A\xFFB").unwrap(), "A\\377B");
}

#[test]
fn trap_writes_octal_escape_of_first_byte() {
    let mut out = String::from("x");
    assert!(decode_text_trap(&[0o101, 7], &mut out));
    assert_eq!(out, "x\\101");
    let mut empty = String::new();
    assert!(decode_text_trap(&[], &mut empty));
    assert_eq!(empty, "");
}

#[test]
fn latin1_encoding_is_strict() {
    let codec = DefaultCharacterSetCodec;
    assert_eq!(codec.encode("Günther").unwrap(), b"G\xfcnther".to_vec());
    assert!(codec.encode("Иван").is_err());
    let utf8 = Utf8CharacterSetCodec;
    assert_eq!(utf8.encode("Иван").unwrap(), "Иван".as_bytes().to_vec());
}

#[test]
fn gb18030_round_trip() {
    let codec = SpecificCharacterSet::GB18030.codec().unwrap();
    let bytes = codec.encode("王^小东").unwrap();
    assert_ne!(bytes, "王^小东".as_bytes().to_vec());
    assert_eq!(codec.decode(&bytes).unwrap(), "王^小东");
}

#[test]
fn value_representation_checks() {
    assert_eq!(validate_da(b"20240131"), TextValidationOutcome::Valid);
    assert_eq!(validate_da(b"2024-01-31"), TextValidationOutcome::NotOk);
    assert_eq!(validate_tm(b"101010.25\\0930"), TextValidationOutcome::Valid);
    assert_eq!(validate_tm(b"10:10"), TextValidationOutcome::NotOk);
    assert_eq!(validate_dt(b"20240131101010+0100"), TextValidationOutcome::Valid);
    assert_eq!(validate_dt(b"2024/01"), TextValidationOutcome::NotOk);
    assert_eq!(validate_cs(b"ORIGINAL_1 "), TextValidationOutcome::Valid);
    assert_eq!(validate_cs(b"original"), TextValidationOutcome::NotOk);
    assert_eq!(validate_iso_8859(b"Sim\xF5es"), TextValidationOutcome::Valid);
}
