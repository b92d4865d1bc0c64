use flashloan_arbitrage::wire::{push_u64_le, u64_from_le};
use flashloan_arbitrage::{DecodeError, FlashloanArbitrageInstruction};

fn with_tag(tag: u8, parts: &[&[u8]]) -> Vec<u8> {
    let mut v = vec![tag];
    for p in parts {
        v.extend_from_slice(p);
    }
    v
}

#[test]
fn round_trip_init() {
    let op = FlashloanArbitrageInstruction::InitFlashloanArbitrage;
    assert_eq!(FlashloanArbitrageInstruction::unpack(&op.pack()), Ok(op));
}

#[test]
fn round_trip_execute() {
    for amount in [0u64, 1, 1000, u64::MAX, 0x0102_0304_0506_0708] {
        let op = FlashloanArbitrageInstruction::ExecuteOperation { amount };
        assert_eq!(FlashloanArbitrageInstruction::unpack(&op.pack()), Ok(op));
    }
}

#[test]
fn round_trip_arbitrage() {
    let datas: Vec<Vec<u8>> = vec![vec![], vec![7], (0..=255u8).collect()];
    for data in datas {
        let op = FlashloanArbitrageInstruction::FlashloanArbitrage {
            amount: u64::MAX,
            execute_operation_ix_data: data,
            expected_profit: 42,
        };
        assert_eq!(FlashloanArbitrageInstruction::unpack(&op.pack()), Ok(op));
    }
}

#[test]
fn empty_input_is_missing_tag() {
    assert_eq!(FlashloanArbitrageInstruction::unpack(&[]), Err(DecodeError::MissingTag));
}

#[test]
fn unknown_tags() {
    assert_eq!(FlashloanArbitrageInstruction::unpack(&[3]), Err(DecodeError::UnknownTag));
    assert_eq!(
        FlashloanArbitrageInstruction::unpack(&[255, 0, 0, 0, 0, 0, 0, 0, 0]),
        Err(DecodeError::UnknownTag)
    );
}

#[test]
fn execute_truncated() {
    assert_eq!(
        FlashloanArbitrageInstruction::unpack(&[1, 1, 2, 3]),
        Err(DecodeError::TruncatedPayload)
    );
    assert_eq!(FlashloanArbitrageInstruction::unpack(&[1]), Err(DecodeError::TruncatedPayload));
    assert_eq!(
        FlashloanArbitrageInstruction::unpack(&[1, 0, 0, 0, 0, 0, 0, 0]),
        Err(DecodeError::TruncatedPayload)
    );
}

#[test]
fn arbitrage_truncated() {
    let input = with_tag(2, &[&[0u8; 8]]);
    assert_eq!(FlashloanArbitrageInstruction::unpack(&input), Err(DecodeError::TruncatedPayload));
    assert_eq!(FlashloanArbitrageInstruction::unpack(&[2, 1, 2]), Err(DecodeError::TruncatedPayload));
    let input = with_tag(2, &[&[0u8; 16]]);
    assert_eq!(input.len(), 17);
    let input = &input[..16];
    assert_eq!(FlashloanArbitrageInstruction::unpack(input), Err(DecodeError::TruncatedPayload));
}

#[test]
fn decode_execute_exact() {
    let input = with_tag(1, &[&1000u64.to_le_bytes()]);
    assert_eq!(
        FlashloanArbitrageInstruction::unpack(&input),
        Ok(FlashloanArbitrageInstruction::ExecuteOperation { amount: 1000 })
    );
}

#[test]
fn decode_arbitrage_with_extra_data() {
    let input = with_tag(2, &[&500u64.to_le_bytes(), &10u64.to_le_bytes(), &[9, 9, 9]]);
    assert_eq!(
        FlashloanArbitrageInstruction::unpack(&input),
        Ok(FlashloanArbitrageInstruction::FlashloanArbitrage {
            amount: 500,
            execute_operation_ix_data: vec![9, 9, 9],
            expected_profit: 10,
        })
    );
}

#[test]
fn decode_arbitrage_empty_extra_data() {
    let input = with_tag(2, &[&1u64.to_le_bytes(), &1u64.to_le_bytes()]);
    assert_eq!(
        FlashloanArbitrageInstruction::unpack(&input),
        Ok(FlashloanArbitrageInstruction::FlashloanArbitrage {
            amount: 1,
            execute_operation_ix_data: vec![],
            expected_profit: 1,
        })
    );
}

#[test]
fn trailing_bytes_ignored() {
    assert_eq!(
        FlashloanArbitrageInstruction::unpack(&[0, 9, 9, 9]),
        Ok(FlashloanArbitrageInstruction::InitFlashloanArbitrage)
    );
    let input = with_tag(1, &[&7u64.to_le_bytes(), &[1, 2, 3]]);
    assert_eq!(
        FlashloanArbitrageInstruction::unpack(&input),
        Ok(FlashloanArbitrageInstruction::ExecuteOperation { amount: 7 })
    );
}

#[test]
fn pack_exact_bytes() {
    assert_eq!(FlashloanArbitrageInstruction::InitFlashloanArbitrage.pack(), vec![0]);
    assert_eq!(
        FlashloanArbitrageInstruction::ExecuteOperation { amount: 0x0102_0304_0506_0708 }.pack(),
        vec![1, 8, 7, 6, 5, 4, 3, 2, 1]
    );
    let op = FlashloanArbitrageInstruction::FlashloanArbitrage {
        amount: 500,
        execute_operation_ix_data: vec![9, 8],
        expected_profit: 10,
    };
    assert_eq!(op.pack(), vec![2, 0xf4, 1, 0, 0, 0, 0, 0, 0, 10, 0, 0, 0, 0, 0, 0, 0, 9, 8]);
}

#[test]
fn little_endian_helpers() {
    assert_eq!(u64_from_le(&[0x08, 0x07, 0x06, 0x05, 0x04, 0x03, 0x02, 0x01, 0xff]), 0x0102_0304_0506_0708);
    assert_eq!(u64_from_le(&[0xff; 8]), u64::MAX);
    let mut buf = vec![0xaa];
    push_u64_le(&mut buf, 1000);
    assert_eq!(buf, vec![0xaa, 0xe8, 0x03, 0, 0, 0, 0, 0, 0]);
}
