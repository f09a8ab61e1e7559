use cosmrs::proto::cosmos::auth::v1beta1::BaseAccount as ProtoBaseAccount;
use cosmrs::proto::cosmos::vesting::v1beta1::{BaseVestingAccount, PeriodicVestingAccount};
use cosmrs::proto::traits::Message;
use cw_orch_daemon::account::{
    account_shapes, decode_account, decode_as, decode_eth_account, decode_vesting_account,
    decode_with, first_match, read_eth_envelope, unwrap_vesting, AccountShape, BaseAccount,
};
use cw_orch_daemon::error::DaemonError;

fn plain(address: &str, account_number: u64, sequence: u64) -> ProtoBaseAccount {
    ProtoBaseAccount {
        address: address.to_string(),
        pub_key: None,
        account_number,
        sequence,
    }
}

fn account(address: &str, account_number: u64, sequence: u64) -> BaseAccount {
    BaseAccount::new(address.to_string(), account_number, sequence)
}

fn eth_record(inner: &[u8], code_hash: &[u8]) -> Vec<u8> {
    assert!(inner.len() < 128 && code_hash.len() < 128);
    let mut record = vec![0x0a, inner.len() as u8];
    record.extend_from_slice(inner);
    record.push(0x12);
    record.push(code_hash.len() as u8);
    record.extend_from_slice(code_hash);
    record
}

#[test]
fn plain_account_is_resolved() {
    let bytes = plain("juno16g2rahf5846rxzp3fwlswy08fz8ccuwk03k57y", 7, 42).encode_to_vec();
    assert_eq!(
        decode_account(&bytes),
        Ok(account("juno16g2rahf5846rxzp3fwlswy08fz8ccuwk03k57y", 7, 42))
    );
}

#[test]
fn periodic_vesting_account_is_resolved() {
    let record = PeriodicVestingAccount {
        base_vesting_account: Some(BaseVestingAccount {
            base_account: Some(plain("terra1x46rqay4d3cssq8gxxvqz8xt6nwlz4td20k38v", 19, 3)),
            original_vesting: vec![],
            delegated_free: vec![],
            delegated_vesting: vec![],
            end_time: 1_700_000_000,
        }),
        start_time: 1_600_000_000,
        vesting_periods: vec![],
    };
    let bytes = record.encode_to_vec();
    assert_eq!(
        decode_account(&bytes),
        Ok(account("terra1x46rqay4d3cssq8gxxvqz8xt6nwlz4td20k38v", 19, 3))
    );
    assert_eq!(
        decode_vesting_account(&bytes),
        Some(account("terra1x46rqay4d3cssq8gxxvqz8xt6nwlz4td20k38v", 19, 3))
    );
}

#[test]
fn eth_account_is_resolved() {
    let inner = plain("inj1hkhdaj2a2clmq5jq6mspsggqs32vynpk228q3r", 5, 11).encode_to_vec();
    let code_hash = [0xc5u8; 32];
    let bytes = eth_record(&inner, &code_hash);
    assert_eq!(
        decode_eth_account(&bytes),
        Some(account("inj1hkhdaj2a2clmq5jq6mspsggqs32vynpk228q3r", 5, 11))
    );
    assert_eq!(
        decode_account(&bytes),
        Ok(account("inj1hkhdaj2a2clmq5jq6mspsggqs32vynpk228q3r", 5, 11))
    );
}

#[test]
fn unknown_record_is_refused() {
    // Field 1 as a 32-bit value fits none of the three shapes.
    let bytes = [0x0d, 1, 2, 3, 4];
    assert_eq!(decode_account(&bytes), Err(DaemonError::UnknownAccountType));
    // A truncated record is no record at all.
    let truncated = [0x0a, 0x20, 0x01];
    assert_eq!(decode_account(&truncated), Err(DaemonError::UnknownAccountType));
}

#[test]
fn vesting_record_without_an_account_holds_none() {
    let empty = PeriodicVestingAccount {
        base_vesting_account: None,
        start_time: 5,
        vesting_periods: vec![],
    };
    assert_eq!(decode_vesting_account(&empty.encode_to_vec()), None);
    let hollow = PeriodicVestingAccount {
        base_vesting_account: Some(BaseVestingAccount {
            base_account: None,
            original_vesting: vec![],
            delegated_free: vec![],
            delegated_vesting: vec![],
            end_time: 9,
        }),
        start_time: 5,
        vesting_periods: vec![],
    };
    assert_eq!(decode_vesting_account(&hollow.encode_to_vec()), None);
}

#[test]
fn eth_record_without_an_account_holds_none() {
    assert_eq!(read_eth_envelope(&[0x12, 0x01, 0xff]), Some(vec![]));
    assert_eq!(decode_eth_account(&[0x12, 0x01, 0xff]), None);
    assert_eq!(read_eth_envelope(&[]), Some(vec![]));
    assert_eq!(decode_eth_account(&[]), None);
}

#[test]
fn eth_record_with_an_empty_account() {
    let record = eth_record(&[], &[0xc5u8; 32]);
    assert_eq!(read_eth_envelope(&record), Some(vec![0x0a, 0x00]));
    assert_eq!(decode_eth_account(&record), Some(account("", 0, 0)));
}

#[test]
fn eth_envelope_hands_out_the_account_fields() {
    let inner = plain("inj1hkhdaj2a2clmq5jq6mspsggqs32vynpk228q3r", 5, 11).encode_to_vec();
    let field = eth_record(&inner, &[]);
    let field = &field[..field.len() - 2];
    assert_eq!(read_eth_envelope(&eth_record(&inner, &[0xc5u8; 32])), Some(field.to_vec()));
    // The code hash may come first, and other fields are passed over.
    let mut record = vec![0x12, 0x02, 0xaa, 0xbb, 0x18, 0x07, 0x25, 1, 2, 3, 4];
    record.extend_from_slice(&eth_record(&inner, &[]));
    record.extend_from_slice(&[0x31, 1, 2, 3, 4, 5, 6, 7, 8]);
    assert_eq!(read_eth_envelope(&record), Some(field.to_vec()));
    assert_eq!(
        decode_eth_account(&record),
        Some(account("inj1hkhdaj2a2clmq5jq6mspsggqs32vynpk228q3r", 5, 11))
    );
}

#[test]
fn groups_under_other_numbers_are_passed_over() {
    let inner = plain("inj1abc", 5, 11).encode_to_vec();
    // A group of number 3 with a varint inside, before the account.
    let mut record = vec![0x1b, 0x08, 0x07, 0x1c];
    record.extend_from_slice(&eth_record(&inner, &[1, 2, 3]));
    assert_eq!(decode_eth_account(&record), Some(account("inj1abc", 5, 11)));
    // The account or the code hash as a group, and a group that is not closed.
    assert_eq!(read_eth_envelope(&[0x0b, 0x0c]), None);
    assert_eq!(read_eth_envelope(&[0x13, 0x14]), None);
    assert_eq!(read_eth_envelope(&[0x1b, 0x08, 0x07]), None);
    assert_eq!(read_eth_envelope(&[0x1c]), None);
}

#[test]
fn repeated_accounts_are_merged() {
    let first = plain("inj1first", 5, 0).encode_to_vec();
    let second = plain("", 0, 11).encode_to_vec();
    let mut record = eth_record(&first, &[1, 2, 3]);
    record.extend_from_slice(&eth_record(&second, &[]));
    assert_eq!(decode_eth_account(&record), Some(account("inj1first", 5, 11)));
}

#[test]
fn every_occurrence_of_the_account_has_to_decode() {
    // The address of an account, cut in two: each half is no account, though
    // the two in a row would be one.
    let whole = plain("inj1abc", 5, 11).encode_to_vec();
    let (head, tail) = whole.split_at(4);
    let mut record = eth_record(head, &[]);
    record.extend_from_slice(&eth_record(tail, &[]));
    assert!(read_eth_envelope(&record).is_some());
    assert_eq!(decode_eth_account(&record), None);
    assert_eq!(decode_eth_account(&eth_record(&whole, &[])), Some(account("inj1abc", 5, 11)));
}

#[test]
fn malformed_eth_envelopes_are_refused() {
    // The account as a varint, the code hash as a varint.
    assert_eq!(read_eth_envelope(&[0x08, 0x01]), None);
    assert_eq!(read_eth_envelope(&[0x0a, 0x00, 0x10, 0x01]), None);
    // A truncated field, field number 0.
    assert_eq!(read_eth_envelope(&[0x0a, 0x05, 0x01]), None);
    assert_eq!(read_eth_envelope(&[0x0a, 0x00, 0x00, 0x00]), None);
    // An envelope whose account does not decode.
    assert_eq!(read_eth_envelope(&[0x0a, 0x01, 0xff]), Some(vec![0x0a, 0x01, 0xff]));
    assert_eq!(decode_eth_account(&[0x0a, 0x01, 0xff]), None);
}

#[test]
fn unwrapping_a_vesting_record() {
    let a = account("a", 1, 2);
    assert_eq!(unwrap_vesting(Some(Some(Some(a.clone())))), Some(a));
    assert_eq!(unwrap_vesting(Some(Some(None))), None);
    assert_eq!(unwrap_vesting(Some(None)), None);
    assert_eq!(unwrap_vesting(None), None);
}

#[test]
fn readings_are_taken_in_order() {
    let a = account("a", 1, 1);
    let b = account("b", 2, 2);
    let c = account("c", 3, 3);
    assert_eq!(first_match(vec![Some(a.clone()), Some(b.clone()), Some(c.clone())]), Ok(a));
    assert_eq!(first_match(vec![None, Some(b.clone()), Some(c.clone())]), Ok(b));
    assert_eq!(first_match(vec![None, None, Some(c.clone())]), Ok(c.clone()));
    assert_eq!(first_match(vec![None, None, None]), Err(DaemonError::UnknownAccountType));
    assert_eq!(first_match(vec![]), Err(DaemonError::UnknownAccountType));
    assert_eq!(first_match(vec![Some(c.clone())]), Ok(c));
}

#[test]
fn shapes_are_tried_in_a_fixed_order() {
    assert_eq!(
        account_shapes(),
        vec![AccountShape::Plain, AccountShape::PeriodicVesting, AccountShape::EthKeyed]
    );
}

#[test]
fn record_is_read_in_one_shape() {
    let bytes = plain("juno1abc", 7, 42).encode_to_vec();
    assert_eq!(decode_as(AccountShape::Plain, &bytes), Some(account("juno1abc", 7, 42)));
    assert_eq!(decode_as(AccountShape::PeriodicVesting, &bytes), None);
    // Read as an envelope, the address is taken for the account inside.
    assert_eq!(decode_as(AccountShape::EthKeyed, &[0x0a, 0x02, 0x18, 0x07]), Some(account("", 7, 0)));
}

#[test]
fn record_is_resolved_under_the_shapes_given() {
    let inner = plain("inj1abc", 5, 11).encode_to_vec();
    let record = eth_record(&inner, &[0xc5u8; 32]);
    assert_eq!(
        decode_with(&vec![AccountShape::EthKeyed], &record),
        Ok(account("inj1abc", 5, 11))
    );
    assert_eq!(
        decode_with(&vec![AccountShape::PeriodicVesting], &record),
        Err(DaemonError::UnknownAccountType)
    );
    assert_eq!(decode_with(&vec![], &record), Err(DaemonError::UnknownAccountType));
    // The order of the shapes decides where two of them fit.
    let both = [0x0a, 0x02, 0x18, 0x07];
    assert_eq!(
        decode_with(&vec![AccountShape::Plain, AccountShape::EthKeyed], &both),
        Ok(account("\u{18}\u{7}", 0, 0))
    );
    assert_eq!(
        decode_with(&vec![AccountShape::EthKeyed, AccountShape::Plain], &both),
        Ok(account("", 7, 0))
    );
}

// A small generator of byte strings that look like fields of numbers 5 to
// 20: well formed, cut short, with groups, with wire types that do not exist.
fn next(state: &mut u64) -> u64 {
    *state = state.wrapping_mul(6364136223846793005).wrapping_add(1442695040888963407);
    *state >> 33
}

fn some_fields(state: &mut u64, depth: u32, out: &mut Vec<u8>) {
    let count = next(state) % 4;
    for _ in 0..count {
        let tag = 5 + next(state) % 16;
        let wire_type = match next(state) % 10 {
            0..=1 => 0,
            2 => 1,
            3..=4 => 2,
            5..=6 => 3,
            7 => 4,
            8 => 5,
            _ => 6 + next(state) % 2,
        };
        let key = tag << 3 | wire_type;
        if key < 128 {
            out.push(key as u8);
        } else {
            out.push((key & 0x7f) as u8 | 0x80);
            out.push((key >> 7) as u8);
        }
        match wire_type {
            0 => out.push((next(state) % 200) as u8),
            1 => out.extend((0..8 - next(state) % 2).map(|i| i as u8)),
            2 => {
                let len = next(state) % 5;
                out.push(len as u8);
                let written = (len + next(state) % 2).saturating_sub(next(state) % 2);
                out.extend((0..written).map(|i| i as u8));
            }
            3 => {
                if depth < 4 {
                    some_fields(state, depth + 1, out);
                }
                if next(state) % 8 != 0 {
                    let closing = if next(state) % 8 == 0 { tag + 1 } else { tag };
                    let end = closing << 3 | 4;
                    if end < 128 {
                        out.push(end as u8);
                    } else {
                        out.push((end & 0x7f) as u8 | 0x80);
                        out.push((end >> 7) as u8);
                    }
                }
            }
            5 => out.extend((0..4 - next(state) % 2).map(|i| i as u8)),
            _ => {}
        }
    }
}

#[test]
fn unknown_fields_are_passed_over_as_the_decoder_does() {
    let mut state = 0x5eed_u64;
    let mut accepted = 0;
    let mut refused = 0;
    for _ in 0..20_000 {
        let mut bytes = Vec::new();
        some_fields(&mut state, 0, &mut bytes);
        let decoder = ProtoBaseAccount::decode(bytes.as_slice()).is_ok();
        assert_eq!(read_eth_envelope(&bytes).is_some(), decoder, "on {:?}", bytes);
        if decoder {
            accepted += 1;
        } else {
            refused += 1;
        }
    }
    assert!(accepted > 1_000 && refused > 1_000);
}

#[test]
fn deep_groups_are_passed_over_as_the_decoder_does() {
    for depth in [1usize, 2, 50, 99, 100, 101, 150] {
        // Groups of number 5 in one another, with and without a field innermost.
        for innermost in [vec![], vec![0x30u8, 0x01]] {
            let mut bytes = vec![0x2bu8; depth];
            bytes.extend_from_slice(&innermost);
            bytes.extend(vec![0x2cu8; depth]);
            let decoder = ProtoBaseAccount::decode(bytes.as_slice()).is_ok();
            assert_eq!(read_eth_envelope(&bytes).is_some(), decoder, "at depth {}", depth);
        }
    }
}
