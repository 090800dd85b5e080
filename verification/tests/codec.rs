use wasm_icq_invoker::ack::{ack_or_malformed, make_ack_fail, make_ack_success, Ack};
use wasm_icq_invoker::error::ContractError;
use wasm_icq_invoker::text::to_decimal;

#[test]
fn success_acknowledgement_on_the_wire() {
    assert_eq!(make_ack_success(), br#"{"result":"MQ=="}"#.to_vec());
    assert_eq!(Ack::Result(vec![1]).encode(), br#"{"result":"AQ=="}"#.to_vec());
    assert_eq!(Ack::Result(vec![]).encode(), br#"{"result":""}"#.to_vec());
}

#[test]
fn error_acknowledgement_on_the_wire() {
    assert_eq!(make_ack_fail("kaputt".to_string()), br#"{"error":"kaputt"}"#.to_vec());
    assert_eq!(Ack::Error(String::new()).encode(), br#"{"error":""}"#.to_vec());
    assert_eq!(
        Ack::Error("a \"b\"\n\\".to_string()).encode(),
        br#"{"error":"a \"b\"\n\\"}"#.to_vec()
    );
}

#[test]
fn acknowledgement_is_read_from_the_wire() {
    assert_eq!(Ack::decode(br#"{"result":"AQ=="}"#), Ok(Ack::Result(vec![1])));
    assert_eq!(Ack::decode(br#"{"error":"kaputt"}"#), Ok(Ack::Error("kaputt".to_string())));
    assert_eq!(Ack::decode(br#" { "result" : "MQ==" } "#), Ok(Ack::Result(b"1".to_vec())));
}

#[test]
fn a_third_shape_is_malformed() {
    let shapes: [&[u8]; 9] = [
        b"",
        b"{}",
        b"[]",
        b"\"result\"",
        br#"{"success":"AQ=="}"#,
        br#"{"result":1}"#,
        br#"{"result":"***"}"#,
        br#"{"error":null}"#,
        br#"{"result":"AQ=="} trailing"#,
    ];
    for bytes in shapes {
        assert_eq!(Ack::decode(bytes), Err(ContractError::MalformedAck));
    }
}

#[test]
fn success_payload_round_trip() {
    let payloads: [&[u8]; 5] = [
        b"",
        b"1",
        &[0, 255, 128, 7],
        br#"{"balances":{"coins":[{"denom":"uosmo","amount":"500"}]},"last_submitted_local_height":100}"#,
        &[0xfb, 0xff, 0xfe, 0x3e, 0x3f],
    ];
    for payload in payloads {
        let ack = Ack::Result(payload.to_vec());
        assert_eq!(Ack::decode(&ack.encode()), Ok(ack));
    }
}

#[test]
fn error_string_round_trip() {
    for message in [
        "",
        "remote module not found",
        "quote \" backslash \\ slash /",
        "tab\there\nnewline\r\u{8}\u{c}\u{0}\u{1f}\u{7f}",
        "caf\u{e9} \u{4e2d}\u{6587} \u{1f600}",
        "{\"error\":\"nested\"}",
    ] {
        let ack = Ack::Error(message.to_string());
        assert_eq!(Ack::decode(&ack.encode()), Ok(ack));
    }
}

#[test]
fn what_was_read_decides_the_outcome() {
    assert_eq!(ack_or_malformed(None), Err(ContractError::MalformedAck));
    assert_eq!(ack_or_malformed(Some(Ack::Error("e".to_string()))), Ok(Ack::Error("e".to_string())));
    assert_eq!(ack_or_malformed(Some(Ack::Result(vec![9]))), Ok(Ack::Result(vec![9])));
}

#[test]
fn numbers_in_decimal() {
    assert_eq!(to_decimal(0), "0");
    assert_eq!(to_decimal(7), "7");
    assert_eq!(to_decimal(9), "9");
    assert_eq!(to_decimal(10), "10");
    assert_eq!(to_decimal(1234567890), "1234567890");
    assert_eq!(to_decimal(u64::MAX), "18446744073709551615");
    for n in [11u64, 99, 100, 101, 1000, 4096, 999_999_999_999] {
        assert_eq!(to_decimal(n), n.to_string());
    }
}
