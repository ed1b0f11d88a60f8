use zao_transfer_core::error::CoreError;
use zao_transfer_core::stun_client::{
    build_binding_request, generate_transaction_id, parse_binding_response, parse_mapped_address,
    parse_xor_mapped_address, Ipv4Endpoint, StunSearch, STUN_BINDING_REQUEST,
    STUN_BINDING_RESPONSE, STUN_MAGIC_COOKIE,
};

fn answer(attributes: &[u8]) -> Vec<u8> {
    let mut data = Vec::new();
    data.extend_from_slice(&STUN_BINDING_RESPONSE.to_be_bytes());
    data.extend_from_slice(&(attributes.len() as u16).to_be_bytes());
    data.extend_from_slice(&STUN_MAGIC_COOKIE.to_be_bytes());
    data.extend_from_slice(&[0u8; 12]);
    data.extend_from_slice(attributes);
    data
}

fn failure(data: &[u8]) -> String {
    match parse_binding_response(data, &[0u8; 12]) {
        Err(CoreError::InvalidState(text)) => text,
        _ => panic!("expected an error"),
    }
}

const PLAIN: [u8; 12] = [0, 1, 0, 8, 0, 1, 0x1F, 0x90, 10, 0, 0, 7];

#[test]
fn build_request_has_correct_header() {
    let tid = [1u8; 12];
    let req = build_binding_request(&tid);
    assert_eq!(req.len(), 20);
    assert_eq!(u16::from_be_bytes([req[0], req[1]]), STUN_BINDING_REQUEST);
    assert_eq!(
        u32::from_be_bytes([req[4], req[5], req[6], req[7]]),
        STUN_MAGIC_COOKIE
    );
    assert_eq!(&req[8..20], &tid);
}

#[test]
fn parse_xor_mapped_address_roundtrip() {
    let tid = [0u8; 12];
    let cookie_bytes = STUN_MAGIC_COOKIE.to_be_bytes();
    let real_port: u16 = 12345;
    let real_ip = [192, 0, 2, 1];

    let xport = real_port ^ u16::from_be_bytes([cookie_bytes[0], cookie_bytes[1]]);
    let mut value = vec![0u8, 0x01];
    value.extend_from_slice(&xport.to_be_bytes());
    for i in 0..4 {
        value.push(real_ip[i] ^ cookie_bytes[i]);
    }

    let addr = parse_xor_mapped_address(&value, &tid).unwrap();
    assert_eq!(addr, Ipv4Endpoint { ip: [192, 0, 2, 1], port: 12345 });
    assert_eq!(addr.to_text(), "192.0.2.1:12345");
}

#[test]
fn rejects_wrong_message_type() {
    let mut data = vec![0u8; 20];
    data[0..2].copy_from_slice(&0x0002u16.to_be_bytes()); // not a binding response
    let result = parse_binding_response(&data, &[0u8; 12]);
    assert!(result.is_err());
    assert_eq!(failure(&data), "unexpected STUN message type: 0x0002");
}

#[test]
fn rejects_transaction_id_mismatch() {
    let mut data = vec![0u8; 20];
    data[0..2].copy_from_slice(&STUN_BINDING_RESPONSE.to_be_bytes());
    data[4..8].copy_from_slice(&STUN_MAGIC_COOKIE.to_be_bytes());
    data[8..20].copy_from_slice(&[9u8; 12]); // different transaction id
    let result = parse_binding_response(&data, &[0u8; 12]);
    assert!(result.is_err());
    assert_eq!(
        failure(&data),
        "STUN transaction ID mismatch (response to a different request?)"
    );
}

#[test]
fn other_malformed_answers_are_refused() {
    assert_eq!(failure(&[0u8; 19]), "STUN response too short");
    let mut data = answer(&[]);
    assert_eq!(failure(&data), "STUN response had no mapped address");
    data[5] ^= 1;
    assert_eq!(failure(&data), "STUN magic cookie mismatch");
    let mut long_type = answer(&[]);
    long_type[0] = 0xAB;
    long_type[1] = 0xCD;
    assert_eq!(failure(&long_type), "unexpected STUN message type: 0xabcd");
}

#[test]
fn plain_address_is_used_where_there_is_no_other() {
    let addr = parse_binding_response(&answer(&PLAIN), &[0u8; 12]).unwrap();
    assert_eq!(addr, Ipv4Endpoint { ip: [10, 0, 0, 7], port: 8080 });
    assert_eq!(
        parse_mapped_address(&PLAIN[4..]),
        Some(Ipv4Endpoint { ip: [10, 0, 0, 7], port: 8080 })
    );
}

#[test]
fn combined_address_goes_before_the_plain_one() {
    let mut attributes = Vec::new();
    // An attribute of another kind, with one byte and its padding.
    attributes.extend_from_slice(&[0x80, 0x22, 0, 1, 65, 0, 0, 0]);
    attributes.extend_from_slice(&[
        0x00, 0x20, 0, 8, 0, 1, 0x21, 0x13, 192 ^ 0x21, 0x12, 2 ^ 0xA4, 1 ^ 0x42,
    ]);
    attributes.extend_from_slice(&PLAIN);
    let addr = parse_binding_response(&answer(&attributes), &[0u8; 12]).unwrap();
    assert_eq!(addr, Ipv4Endpoint { ip: [192, 0, 2, 1], port: 1 });
}

#[test]
fn later_attributes_win_and_broken_ones_are_passed_over() {
    let mut attributes = Vec::new();
    attributes.extend_from_slice(&PLAIN);
    attributes.extend_from_slice(&[0, 1, 0, 8, 0, 1, 0, 80, 1, 2, 3, 4]);
    // An IPv6 address and one that is too short leave the last good one.
    attributes.extend_from_slice(&[0, 1, 0, 8, 0, 2, 0, 80, 9, 9, 9, 9]);
    attributes.extend_from_slice(&[0, 1, 0, 4, 0, 1, 0, 80]);
    let addr = parse_binding_response(&answer(&attributes), &[0u8; 12]).unwrap();
    assert_eq!(addr, Ipv4Endpoint { ip: [1, 2, 3, 4], port: 80 });
}

#[test]
fn truncated_attribute_ends_the_list() {
    let mut attributes = Vec::new();
    attributes.extend_from_slice(&PLAIN);
    attributes.extend_from_slice(&[0, 0x20, 0, 200, 0, 1]);
    let addr = parse_binding_response(&answer(&attributes), &[0u8; 12]).unwrap();
    assert_eq!(addr.port, 8080);

    // The header says that there are no attributes: what follows is not read.
    let mut data = answer(&PLAIN);
    data[3] = 0;
    assert_eq!(failure(&data), "STUN response had no mapped address");
}

#[test]
fn transaction_ids_differ() {
    assert_ne!(generate_transaction_id(), generate_transaction_id());
}

#[test]
fn servers_are_asked_in_turn() {
    let mut search = StunSearch::new();
    assert_eq!(search.next_server(), Some("stun.l.google.com:19302"));
    search.failed(CoreError::InvalidState("first".to_string()));
    assert_eq!(search.next_server(), Some("stun1.l.google.com:19302"));
    search.failed(CoreError::InvalidState("second".to_string()));
    assert_eq!(search.next_server(), None);
    assert_eq!(search.into_error().into_text(), "second");
    assert_eq!(StunSearch::new().into_error().into_text(), "no STUN servers configured");
}
