use pump_sniper::address::Address;
use pump_sniper::codec::{parse_instruction_data, DecodeError, DecodedInstruction, Field};

const CREATE_DISC: [u8; 8] = [0x18, 0x1e, 0xc8, 0x28, 0x05, 0x1c, 0x07, 0x77];
const BUY_DISC: [u8; 8] = [0x66, 0x06, 0x3d, 0x12, 0x01, 0xda, 0xeb, 0xea];

fn push_text(out: &mut Vec<u8>, text: &[u8]) {
    out.extend_from_slice(&(text.len() as u32).to_le_bytes());
    out.extend_from_slice(text);
}

fn create_payload(name: &str, symbol: &str, uri: &str, creator: Option<[u8; 32]>) -> Vec<u8> {
    let mut out = CREATE_DISC.to_vec();
    push_text(&mut out, name.as_bytes());
    push_text(&mut out, symbol.as_bytes());
    push_text(&mut out, uri.as_bytes());
    if let Some(c) = creator {
        out.extend_from_slice(&c);
    }
    out
}

fn buy_payload(disc: &[u8], amount: u64, cost: u64) -> Vec<u8> {
    let mut out = disc.to_vec();
    out.extend_from_slice(&amount.to_le_bytes());
    out.extend_from_slice(&cost.to_le_bytes());
    out
}

fn creator_bytes() -> [u8; 32] {
    let mut c = [0u8; 32];
    for (i, b) in c.iter_mut().enumerate() {
        *b = (i as u8) + 1;
    }
    c
}

#[test]
fn create_round_trip_recovers_fields_and_creator() {
    let data = create_payload("Moon Cat", "MCAT", "https://example.org/m.json", Some(creator_bytes()));
    match parse_instruction_data(&data) {
        Ok(DecodedInstruction::Create(c)) => {
            assert_eq!(c.name, "Moon Cat");
            assert_eq!(c.symbol, "MCAT");
            assert_eq!(c.uri, "https://example.org/m.json");
            assert_eq!(c.user, Address::new_from_array(creator_bytes()));
        }
        other => panic!("unexpected: {:?}", other),
    }
}

#[test]
fn create_with_non_ascii_text_round_trips() {
    let data = create_payload("猫币", "ÇAT", "", Some(creator_bytes()));
    match parse_instruction_data(&data) {
        Ok(DecodedInstruction::Create(c)) => {
            assert_eq!(c.name, "猫币");
            assert_eq!(c.symbol, "ÇAT");
            assert_eq!(c.uri, "");
            assert_eq!(c.user.bytes, creator_bytes());
        }
        other => panic!("unexpected: {:?}", other),
    }
}

#[test]
fn structured_record_without_creator_gives_zero_creator() {
    let data = create_payload("A", "B", "C", None);
    match parse_instruction_data(&data) {
        Ok(DecodedInstruction::Create(c)) => {
            assert_eq!(c.name, "A");
            assert_eq!(c.symbol, "B");
            assert_eq!(c.uri, "C");
            assert_eq!(c.user.bytes, [0u8; 32]);
        }
        other => panic!("unexpected: {:?}", other),
    }
}

#[test]
fn buy_round_trip() {
    let data = buy_payload(&BUY_DISC, 1_000_000, 2_000_000_000);
    match parse_instruction_data(&data) {
        Ok(DecodedInstruction::Buy(b)) => {
            assert_eq!(b.amount, 1_000_000);
            assert_eq!(b.max_sol_cost, 2_000_000_000);
        }
        other => panic!("unexpected: {:?}", other),
    }
}

#[test]
fn buy_with_trailing_bytes_uses_cursor_path() {
    let mut data = buy_payload(&BUY_DISC, 7, 9);
    data.extend_from_slice(&[1, 2, 3]);
    match parse_instruction_data(&data) {
        Ok(DecodedInstruction::Buy(b)) => {
            assert_eq!(b.amount, 7);
            assert_eq!(b.max_sol_cost, 9);
        }
        other => panic!("unexpected: {:?}", other),
    }
}

#[test]
fn legacy_create_opcode_decodes_with_zero_creator() {
    let mut data = create_payload("Old", "OLD", "u", Some(creator_bytes()));
    data[1] = 0;
    match parse_instruction_data(&data) {
        Ok(DecodedInstruction::Create(c)) => {
            assert_eq!(c.name, "Old");
            assert_eq!(c.symbol, "OLD");
            assert_eq!(c.uri, "u");
            assert_eq!(c.user.bytes, [0u8; 32]);
        }
        other => panic!("unexpected: {:?}", other),
    }
}

#[test]
fn legacy_buy_opcode_decodes() {
    let data = buy_payload(&[102, 0, 0, 0, 0, 0, 0, 0], 5, 6);
    match parse_instruction_data(&data) {
        Ok(DecodedInstruction::Buy(b)) => {
            assert_eq!(b.amount, 5);
            assert_eq!(b.max_sol_cost, 6);
        }
        other => panic!("unexpected: {:?}", other),
    }
}

#[test]
fn short_payload_is_too_short() {
    assert_eq!(parse_instruction_data(&[0x18, 0x1e, 0xc8]), Err(DecodeError::TooShort));
    assert_eq!(parse_instruction_data(&[]), Err(DecodeError::TooShort));
}

#[test]
fn unknown_discriminator_is_rejected() {
    let data = [9u8, 1, 2, 3, 4, 5, 6, 7, 8, 9];
    assert_eq!(parse_instruction_data(&data), Err(DecodeError::UnknownInstruction));
}

#[test]
fn invalid_utf8_names_the_field() {
    let mut data = CREATE_DISC.to_vec();
    push_text(&mut data, &[0xff, 0xfe]);
    push_text(&mut data, b"S");
    push_text(&mut data, b"U");
    data.extend_from_slice(&creator_bytes());
    assert_eq!(parse_instruction_data(&data), Err(DecodeError::InvalidText(Field::Name)));
}

#[test]
fn every_truncation_of_create_names_the_cut_field() {
    let data = create_payload("ab", "c", "def", Some(creator_bytes()));
    // Field boundaries: name length 8..12, name 12..14, symbol length 14..18,
    // symbol 18..19, uri length 19..23, uri 23..26, creator 26..58.
    let record_end = 26;
    for k in 0..data.len() {
        let r = parse_instruction_data(&data[..k]);
        if k < 8 {
            assert_eq!(r, Err(DecodeError::TooShort), "k = {}", k);
            continue;
        }
        if k == record_end {
            assert!(matches!(r, Ok(DecodedInstruction::Create(_))), "k = {}", k);
            continue;
        }
        let field = if k < 12 {
            Field::NameLength
        } else if k < 14 {
            Field::Name
        } else if k < 18 {
            Field::SymbolLength
        } else if k < 19 {
            Field::Symbol
        } else if k < 23 {
            Field::UriLength
        } else if k < 26 {
            Field::Uri
        } else {
            Field::User
        };
        assert_eq!(r, Err(DecodeError::Missing(field)), "k = {}", k);
    }
}

#[test]
fn every_truncation_of_buy_fails() {
    let data = buy_payload(&BUY_DISC, 1, 2);
    for k in 0..data.len() {
        let expected = if k < 8 { DecodeError::TooShort } else { DecodeError::Missing(Field::BuyArgs) };
        assert_eq!(parse_instruction_data(&data[..k]), Err(expected), "k = {}", k);
    }
}
