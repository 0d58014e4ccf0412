use storescp::command_set::{decode_command, encode_response, read_elements};
use storescp::dimse::{create_cecho_response, create_cstore_response, C_STORE_RQ, STATUS_SUCCESS};

fn element(element: u16, value: &[u8]) -> Vec<u8> {
    let mut out = vec![0, 0];
    out.extend_from_slice(&element.to_le_bytes());
    out.extend_from_slice(&(value.len() as u32).to_le_bytes());
    out.extend_from_slice(value);
    out
}

#[test]
fn decodes_store_request() {
    let mut bytes = element(0x0002, b"1.2.840.10008.5.1.4.1.1.2\0");
    bytes.extend(element(0x0100, &[0x01, 0x00]));
    bytes.extend(element(0x0110, &[0x07, 0x00]));
    bytes.extend(element(0x0800, &[0x00, 0x00]));
    bytes.extend(element(0x1000, b"1.2.3.4 "));
    let cmd = decode_command(&bytes).unwrap();
    assert_eq!(cmd.command_field, C_STORE_RQ);
    assert_eq!(cmd.message_id, 7);
    assert_eq!(cmd.affected_sop_class_uid.as_deref(), Some("1.2.840.10008.5.1.4.1.1.2"));
    assert_eq!(cmd.affected_sop_instance_uid.as_deref(), Some("1.2.3.4"));
}

#[test]
fn truncated_or_incomplete_commands_are_malformed() {
    let mut bytes = element(0x0100, &[0x30, 0x00]);
    bytes.extend(element(0x0110, &[0x01, 0x00]));
    assert!(decode_command(&bytes).is_some());
    assert!(decode_command(&bytes[..bytes.len() - 1]).is_none());
    assert!(decode_command(&element(0x0100, &[0x30, 0x00])).is_none());
    assert!(decode_command(&element(0x0100, &[0x30])).is_none());
    assert!(decode_command(&[]).is_none());
}

#[test]
fn echo_response_framing() {
    let bytes = encode_response(&create_cecho_response(0x0102));
    let mut expected = element(0x0000, &[40, 0, 0, 0]);
    expected.extend(element(0x0100, &[0x30, 0x80]));
    expected.extend(element(0x0120, &[0x02, 0x01]));
    expected.extend(element(0x0800, &[0x01, 0x01]));
    expected.extend(element(0x0900, &[0x00, 0x00]));
    assert_eq!(bytes, expected);
}

#[test]
fn store_response_pads_identifiers() {
    let bytes = encode_response(&create_cstore_response(3, "1.2.3", "4.5", STATUS_SUCCESS));
    let elements = read_elements(&bytes).unwrap();
    assert_eq!(elements.len(), 7);
    assert_eq!(elements[1].element, 0x0002);
    assert_eq!(elements[1].value, b"1.2.3\0".to_vec());
    assert_eq!(elements[6].element, 0x1000);
    assert_eq!(elements[6].value, b"4.5\0".to_vec());
    let body: usize = bytes.len() - 12;
    assert_eq!(elements[0].value, (body as u32).to_le_bytes().to_vec());
}
