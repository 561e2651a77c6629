use tx_primitives::{consume_utxo, invalid_txid_message, move_txid, Outpoint, UTXO};

#[test]
fn outpoint_keeps_what_it_is_given() {
    let outpoint = Outpoint::new("deadbeef".to_string(), 7);
    assert_eq!(outpoint.txid(), "deadbeef");
    assert_eq!(outpoint.txid, "deadbeef");
    assert_eq!(outpoint.vout, 7);
}

#[test]
fn outpoint_from_a_pair() {
    let outpoint = Outpoint::from(("00ff".to_string(), 0));
    assert_eq!(outpoint.txid(), "00ff");
    assert_eq!(outpoint.vout, 0);
    let other: Outpoint = ("ab".to_string(), u32::MAX).into();
    assert_eq!(other.txid(), "ab");
    assert_eq!(other.vout, u32::MAX);
}

#[test]
fn outpoint_txid_bytes_decodes_hex() {
    let outpoint = Outpoint::new("DEADbeef".to_string(), 1);
    assert_eq!(outpoint.txid_bytes(), Ok(vec![0xde, 0xad, 0xbe, 0xef]));
    assert_eq!(Outpoint::new(String::new(), 1).txid_bytes(), Ok(vec![]));
}

#[test]
fn outpoint_takes_any_text_and_fails_on_conversion() {
    let outpoint = Outpoint::new("not hex".to_string(), 2);
    assert_eq!(outpoint.txid(), "not hex");
    assert_eq!(
        outpoint.txid_bytes(),
        Err("Invalid hex string: Odd number of digits".to_string())
    );
    let other = Outpoint::new("nothex".to_string(), 2);
    assert_eq!(
        other.txid_bytes(),
        Err("Invalid hex string: Invalid character 'n' at position 0".to_string())
    );
    let third = Outpoint::new("abcdefgh".to_string(), 2);
    assert_eq!(
        third.txid_bytes(),
        Err("Invalid hex string: Invalid character 'g' at position 6".to_string())
    );
}

#[test]
fn invalid_txid_message_puts_the_cause_last() {
    assert_eq!(
        invalid_txid_message("Odd number of digits"),
        "Invalid hex string: Odd number of digits"
    );
    assert_eq!(invalid_txid_message(""), "Invalid hex string: ");
}

#[test]
fn consume_utxo_hands_the_same_one_back() {
    let utxo = UTXO { txid: vec![0xde, 0xad], vout: 3, value: 5000 };
    let copy = utxo.clone();
    assert_eq!(consume_utxo(utxo), copy);
    let empty = UTXO { txid: vec![], vout: 0, value: 0 };
    assert_eq!(consume_utxo(empty.clone()), empty);
}

#[test]
fn utxo_equality_goes_by_every_field() {
    let utxo = UTXO { txid: vec![1, 2, 3], vout: 1, value: 10 };
    assert_eq!(utxo, UTXO { txid: vec![1, 2, 3], vout: 1, value: 10 });
    assert_ne!(utxo, UTXO { txid: vec![1, 2, 4], vout: 1, value: 10 });
    assert_ne!(utxo, UTXO { txid: vec![1, 2], vout: 1, value: 10 });
    assert_ne!(utxo, UTXO { txid: vec![1, 2, 3], vout: 2, value: 10 });
    assert_ne!(utxo, UTXO { txid: vec![1, 2, 3], vout: 1, value: 11 });
}

#[test]
fn move_txid_labels_the_identifier() {
    assert_eq!(move_txid("abc123".to_string()), "txid: abc123");
    assert_eq!(move_txid(String::new()), "txid: ");
    assert_eq!(move_txid("\u{e9} x".to_string()), "txid: \u{e9} x");
}
