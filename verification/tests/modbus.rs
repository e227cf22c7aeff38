use pv_hub::catalog::def_for;
use pv_hub::config::WordOrder;
use pv_hub::model::Metric;
use pv_hub::sinks::modbus::frame::{handle_adu, FC_READ_HOLDING, FC_READ_INPUT};
use pv_hub::sinks::modbus::server::pdu_body_len;
use pv_hub::sinks::modbus::{build_bank, u32_from_words, words_from_u32};

fn read_req(fc: u8, unit: u8, start: u16, qty: u16) -> Vec<u8> {
    let mut v = vec![0x00, 0x01, 0x00, 0x00, 0x00, 0x06, unit, fc];
    v.extend_from_slice(&start.to_be_bytes());
    v.extend_from_slice(&qty.to_be_bytes());
    v
}

#[test]
fn reads_input_registers() {
    let bank = vec![0x1234u16, 0x5678, 0x9ABC];
    let resp = handle_adu(&bank, true, 1, &read_req(FC_READ_INPUT, 1, 0, 2));
    assert_eq!(resp[7], FC_READ_INPUT);
    assert_eq!(resp[8], 4);
    assert_eq!(&resp[9..13], &[0x12, 0x34, 0x56, 0x78]);
}

#[test]
fn holding_disabled_returns_exception() {
    let bank = vec![0u16; 4];
    let resp = handle_adu(&bank, false, 1, &read_req(FC_READ_HOLDING, 1, 0, 1));
    assert_eq!(resp[7], FC_READ_HOLDING | 0x80);
    assert_eq!(resp[8], 0x01);
}

#[test]
fn out_of_range_returns_exception_02() {
    let bank = vec![0u16; 4];
    let resp = handle_adu(&bank, true, 1, &read_req(FC_READ_INPUT, 1, 3, 5));
    assert_eq!(resp[7], FC_READ_INPUT | 0x80);
    assert_eq!(resp[8], 0x02);
}

#[test]
fn unknown_function_returns_exception_01() {
    let bank = vec![0u16; 4];
    let req = read_req(0x10, 1, 0, 1);
    let resp = handle_adu(&bank, true, 1, &req);
    assert_eq!(resp[7], 0x10 | 0x80);
    assert_eq!(resp[8], 0x01);
}

#[test]
fn wrong_unit_id_is_ignored() {
    let bank = vec![0u16; 4];
    let resp = handle_adu(&bank, true, 1, &read_req(FC_READ_INPUT, 9, 0, 1));
    assert!(resp.is_empty());
}

#[test]
fn full_response_frame_is_exact() {
    let bank = vec![0x1234u16, 0x5678, 0x9ABC];
    let mut req = read_req(FC_READ_INPUT, 0, 1, 2);
    req[0] = 0xAB;
    req[1] = 0xCD;
    let resp = handle_adu(&bank, true, 7, &req);
    assert_eq!(resp, vec![0xAB, 0xCD, 0, 0, 0, 7, 0, 0x04, 4, 0x56, 0x78, 0x9A, 0xBC]);
}

#[test]
fn holding_mirror_answers_like_input() {
    let bank = vec![1u16, 2, 3, 4];
    let r3 = handle_adu(&bank, true, 1, &read_req(FC_READ_HOLDING, 1, 1, 3));
    let r4 = handle_adu(&bank, true, 1, &read_req(FC_READ_INPUT, 1, 1, 3));
    assert_eq!(r3.len(), r4.len());
    for k in 0..r3.len() {
        if k != 7 {
            assert_eq!(r3[k], r4[k]);
        }
    }
    assert_eq!(r3[7], FC_READ_HOLDING);
}

#[test]
fn bad_quantity_and_short_requests() {
    let bank = vec![0u16; 200];
    let zero = handle_adu(&bank, true, 1, &read_req(FC_READ_INPUT, 1, 0, 0));
    assert_eq!(&zero[7..], &[FC_READ_INPUT | 0x80, 0x03]);
    let too_many = handle_adu(&bank, true, 1, &read_req(FC_READ_INPUT, 1, 0, 126));
    assert_eq!(&too_many[7..], &[FC_READ_INPUT | 0x80, 0x03]);
    let short = handle_adu(&bank, true, 1, &[0, 1, 0, 0, 0, 3, 1, FC_READ_INPUT, 0]);
    assert_eq!(short, vec![0, 1, 0, 0, 0, 3, 1, FC_READ_INPUT | 0x80, 0x03]);
    assert!(handle_adu(&bank, true, 1, &[0, 1, 0, 0, 0, 1, 1]).is_empty());
    let max = handle_adu(&bank, true, 1, &read_req(FC_READ_INPUT, 1, 0, 125));
    assert_eq!(max.len(), 9 + 250);
    assert_eq!(max[8], 250);
    assert_eq!(max[4..6], [0, 253]);
}

#[test]
fn words_split_and_join() {
    assert_eq!(words_from_u32(0x1234_5678, WordOrder::Abcd), [0x1234, 0x5678]);
    assert_eq!(words_from_u32(0x1234_5678, WordOrder::Cdab), [0x5678, 0x1234]);
    assert_eq!(u32_from_words(0x1234, 0x5678, WordOrder::Abcd), 0x1234_5678);
    assert_eq!(u32_from_words(0x5678, 0x1234, WordOrder::Cdab), 0x1234_5678);
    for raw in [0u32, 1, 0xFFFF, 0x1_0000, u32::MAX, 0xDEAD_BEEF] {
        for order in [WordOrder::Abcd, WordOrder::Cdab] {
            let w = words_from_u32(raw, order);
            assert_eq!(u32_from_words(w[0], w[1], order), raw);
        }
    }
}

fn raw_with(metric: Metric, value: u32) -> Vec<Option<u32>> {
    let mut raw = vec![None; 32];
    let idx = Metric::ALL.iter().position(|m| *m == metric).unwrap();
    raw[idx] = Some(value);
    raw
}

#[test]
fn f32_roundtrip_abcd() {
    let raw = raw_with(Metric::Ghi, 812.5f32.to_bits());
    let bank = build_bank(&raw, WordOrder::Abcd);
    let reg = def_for(Metric::Ghi).unwrap().register as usize;
    let v = f32::from_bits(u32_from_words(bank[reg], bank[reg + 1], WordOrder::Abcd));
    assert!((v - 812.5).abs() < 1e-3);
}

#[test]
fn f32_roundtrip_cdab_swaps_words() {
    let raw = raw_with(Metric::Dni, 690.0f32.to_bits());
    let reg = def_for(Metric::Dni).unwrap().register as usize;
    let abcd = build_bank(&raw, WordOrder::Abcd);
    let cdab = build_bank(&raw, WordOrder::Cdab);
    assert_eq!(abcd[reg], cdab[reg + 1]);
    assert_eq!(abcd[reg + 1], cdab[reg]);
    let v = f32::from_bits(u32_from_words(cdab[reg], cdab[reg + 1], WordOrder::Cdab));
    assert!((v - 690.0).abs() < 1e-3);
}

#[test]
fn missing_metric_stays_zero() {
    let bank = build_bank(&vec![None; 32], WordOrder::Abcd);
    let reg = def_for(Metric::Ghi).unwrap().register as usize;
    assert_eq!(bank.len(), 118);
    assert_eq!(bank[reg], 0);
    assert_eq!(bank[reg + 1], 0);
    assert!(build_bank(&Vec::new(), WordOrder::Cdab).iter().all(|w| *w == 0));
}

#[test]
fn bank_places_u32_epoch_and_leaves_gaps_zero() {
    let raw = raw_with(Metric::LastUpdateEpoch, 1_700_000_000);
    let bank = build_bank(&raw, WordOrder::Abcd);
    assert_eq!(u32_from_words(bank[112], bank[113], WordOrder::Abcd), 1_700_000_000);
    let all: Vec<Option<u32>> = (0..32).map(|i| Some(0xFFFF_FFFFu32 - i)).collect();
    let full = build_bank(&all, WordOrder::Abcd);
    for w in 18..30 {
        assert_eq!(full[w], 0);
    }
    assert_eq!(full[0], 0xFFFF);
    assert_eq!(full[116], 0xFFFF);
    assert_eq!(full[117], 0xFFE0);
}

#[test]
fn read_of_a_built_bank_returns_the_metric() {
    let raw = raw_with(Metric::Ghi, 812.0f32.to_bits());
    let bank = build_bank(&raw, WordOrder::Abcd);
    let resp = handle_adu(&bank, true, 1, &[0u8, 1, 0, 0, 0, 6, 1, 0x04, 0, 0, 0, 2]);
    let ghi = f32::from_bits(u32_from_words(
        u16::from_be_bytes([resp[9], resp[10]]),
        u16::from_be_bytes([resp[11], resp[12]]),
        WordOrder::Abcd,
    ));
    assert!((ghi - 812.0).abs() < 1e-2, "ghi {ghi}");
}

#[test]
fn pdu_length_from_header() {
    assert_eq!(pdu_body_len(&[0, 1, 0, 0, 0, 6, 1]), Some(5));
    assert_eq!(pdu_body_len(&[0, 1, 0, 0, 0, 0, 1]), None);
    assert_eq!(pdu_body_len(&[0, 1, 0, 0, 0, 253, 1]), Some(252));
    assert_eq!(pdu_body_len(&[0, 1, 0, 0, 0, 254, 1]), None);
    assert_eq!(pdu_body_len(&[0, 1, 0, 0, 1, 0, 1]), None);
    assert_eq!(pdu_body_len(&[0, 1, 0, 0, 0, 1, 1]), Some(0));
}
