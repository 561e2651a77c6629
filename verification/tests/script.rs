use tx_primitives::{classify_script, read_pushdata, Opcode, ScriptType};

#[test]
fn classify_script_knows_p2pkh() {
    assert_eq!(classify_script(&[0x76, 0xa9, 0x14]), ScriptType::P2PKH);
    assert_eq!(classify_script(&[0x76, 0xa9, 0x14, 0x01, 0x02]), ScriptType::P2PKH);
    let mut script = vec![0x76, 0xa9, 0x14];
    script.extend_from_slice(&[0x11; 20]);
    script.extend_from_slice(&[0x88, 0xac]);
    assert_eq!(classify_script(&script), ScriptType::P2PKH);
}

#[test]
fn classify_script_knows_p2wpkh() {
    assert_eq!(classify_script(&[0x00, 0x14]), ScriptType::P2WPKH);
    assert_eq!(classify_script(&[0x00, 0x14, 0xff]), ScriptType::P2WPKH);
    let mut script = vec![0x00, 0x14];
    script.extend_from_slice(&[0x22; 20]);
    assert_eq!(classify_script(&script), ScriptType::P2WPKH);
}

#[test]
fn classify_script_calls_the_rest_unknown() {
    assert_eq!(classify_script(&[]), ScriptType::Unknown);
    assert_eq!(classify_script(&[0x76]), ScriptType::Unknown);
    assert_eq!(classify_script(&[0x76, 0xa9]), ScriptType::Unknown);
    assert_eq!(classify_script(&[0x76, 0xa9, 0x15]), ScriptType::Unknown);
    assert_eq!(classify_script(&[0x76, 0xa8, 0x14]), ScriptType::Unknown);
    assert_eq!(classify_script(&[0x00]), ScriptType::Unknown);
    assert_eq!(classify_script(&[0x00, 0x15]), ScriptType::Unknown);
    assert_eq!(classify_script(&[0x01, 0x14]), ScriptType::Unknown);
    assert_eq!(classify_script(&[0x14, 0x00]), ScriptType::Unknown);
    assert_eq!(classify_script(&[0xa9, 0x14, 0x76]), ScriptType::Unknown);
}

#[test]
fn classify_script_goes_by_the_prefix_alone() {
    for first in 0..=255u8 {
        for second in [0x00u8, 0x14, 0xa9, 0xff] {
            for third in [0x00u8, 0x14, 0xff] {
                let script = [first, second, third];
                let expected = if script == [0x76, 0xa9, 0x14] {
                    ScriptType::P2PKH
                } else if script[..2] == [0x00, 0x14] {
                    ScriptType::P2WPKH
                } else {
                    ScriptType::Unknown
                };
                assert_eq!(classify_script(&script), expected);
            }
        }
    }
}

#[test]
fn read_pushdata_skips_two_bytes() {
    assert_eq!(read_pushdata(&[0x76, 0x14, 0x01, 0x02, 0x03]), &[0x01, 0x02, 0x03]);
}

#[test]
fn read_pushdata_of_a_short_script_is_empty() {
    assert_eq!(read_pushdata(&[0x76]), &[] as &[u8]);
    assert_eq!(read_pushdata(&[]), &[] as &[u8]);
    assert_eq!(read_pushdata(&[0x76, 0x14]), &[] as &[u8]);
}

#[test]
fn read_pushdata_ignores_the_length_byte() {
    assert_eq!(read_pushdata(&[0x00, 0x14, 0xaa]), &[0xaa]);
    assert_eq!(read_pushdata(&[0x00, 0x00, 0xaa, 0xbb]), &[0xaa, 0xbb]);
    assert_eq!(read_pushdata(&[0x4c, 0xff, 0x01]), &[0x01]);
}

#[test]
fn opcode_from_byte_knows_checksig_and_dup() {
    assert_eq!(Opcode::from_byte(0xac), Ok(Opcode::OpChecksig));
    assert_eq!(Opcode::from_byte(0x76), Ok(Opcode::OpDup));
}

#[test]
fn opcode_from_byte_names_the_byte_it_refuses() {
    assert_eq!(Opcode::from_byte(0x00), Err("Invalid opcode: 0x00".to_string()));
    assert_eq!(Opcode::from_byte(0x0a), Err("Invalid opcode: 0x0a".to_string()));
    assert_eq!(Opcode::from_byte(0xff), Err("Invalid opcode: 0xff".to_string()));
    assert_eq!(Opcode::from_byte(0xab), Err("Invalid opcode: 0xab".to_string()));
    assert_eq!(Opcode::from_byte(0x77), Err("Invalid opcode: 0x77".to_string()));
}

#[test]
fn opcode_from_byte_on_every_byte() {
    for byte in 0..=255u8 {
        let expected = match byte {
            0xac => Ok(Opcode::OpChecksig),
            0x76 => Ok(Opcode::OpDup),
            _ => Err(format!("Invalid opcode: 0x{:02x}", byte)),
        };
        assert_eq!(Opcode::from_byte(byte), expected);
    }
}

#[test]
fn opcode_from_byte_never_gives_the_invalid_marker() {
    for byte in 0..=255u8 {
        assert_ne!(Opcode::from_byte(byte), Ok(Opcode::OpInvalid));
    }
}
