//! Script prefixes, push data and opcodes.

use crate::hexadecimal::lower_hex_digit;
use vstd::prelude::*;

verus! {

/// The script templates that are told apart by their first bytes.
#[derive(Debug, Clone, Copy, PartialEq, Eq, Structural)]
pub enum ScriptType {
    P2PKH,
    P2WPKH,
    Unknown,
}

/// How a pay-to-public-key-hash script begins: duplicate, hash, push twenty
/// bytes.
pub open spec fn p2pkh_prefix() -> Seq<u8> {
    seq![0x76u8, 0xa9u8, 0x14u8]
}

/// How a pay-to-witness-public-key-hash script begins: version zero, push
/// twenty bytes.
pub open spec fn p2wpkh_prefix() -> Seq<u8> {
    seq![0x00u8, 0x14u8]
}

/// The template that a script's first bytes select.
pub open spec fn script_type_of(script: Seq<u8>) -> ScriptType {
    if p2pkh_prefix().is_prefix_of(script) {
        ScriptType::P2PKH
    } else if p2wpkh_prefix().is_prefix_of(script) {
        ScriptType::P2WPKH
    } else {
        ScriptType::Unknown
    }
}

/// Classifies a script by its first bytes. Every script gets exactly one
/// answer; one that is too short to hold a known prefix, or that starts with
/// anything else, is `Unknown`.
pub fn classify_script(script: &[u8]) -> (kind: ScriptType)
    ensures
        kind == script_type_of(script@),
        kind == ScriptType::P2PKH <==> p2pkh_prefix().is_prefix_of(script@),
        kind == ScriptType::P2WPKH <==> p2wpkh_prefix().is_prefix_of(script@)
            && !p2pkh_prefix().is_prefix_of(script@),
        kind == ScriptType::Unknown <==> !p2pkh_prefix().is_prefix_of(script@)
            && !p2wpkh_prefix().is_prefix_of(script@),
{
    let n = script.len();
    proof {
        if n >= 3 {
            assert(script@.subrange(0, 3) =~= p2pkh_prefix() <==> script@[0] == 0x76 && script@[1]
                == 0xa9 && script@[2] == 0x14);
        }
        if n >= 2 {
            assert(script@.subrange(0, 2) =~= p2wpkh_prefix() <==> script@[0] == 0x00 && script@[1]
                == 0x14);
        }
    }
    if n >= 3 && script[0] == 0x76 && script[1] == 0xa9 && script[2] == 0x14 {
        ScriptType::P2PKH
    } else if n >= 2 && script[0] == 0x00 && script[1] == 0x14 {
        ScriptType::P2WPKH
    } else {
        ScriptType::Unknown
    }
}

/// What follows the two header bytes of a script that has at least three
/// bytes; nothing for a shorter one.
pub open spec fn pushdata_of(script: Seq<u8>) -> Seq<u8> {
    if script.len() >= 3 {
        script.subrange(2, script.len() as int)
    } else {
        Seq::empty()
    }
}

/// Returns the part of a script behind a two-byte header of opcode and
/// length, or an empty slice for a script of fewer than three bytes. The
/// header is skipped by position only: the length byte is not compared with
/// what follows it.
pub fn read_pushdata(script: &[u8]) -> (data: &[u8])
    ensures
        data@ == pushdata_of(script@),
{
    if script.len() >= 3 {
        &script[2..script.len()]
    } else {
        &script[0..0]
    }
}

/// The instructions that this library knows by their byte.
#[derive(Debug, Clone, Copy, PartialEq, Eq, Structural)]
pub enum Opcode {
    OpChecksig,
    OpDup,
    OpInvalid,
}

/// The opcode that a byte stands for, if it stands for one.
pub open spec fn opcode_of(byte: u8) -> Option<Opcode> {
    if byte == 0xac {
        Some(Opcode::OpChecksig)
    } else if byte == 0x76 {
        Some(Opcode::OpDup)
    } else {
        None
    }
}

/// The text that reports a byte without an opcode: the byte is shown as two
/// lowercase hex digits.
pub open spec fn invalid_opcode_message(byte: u8) -> Seq<char> {
    "Invalid opcode: 0x"@ + seq![lower_hex_digit(byte / 16), lower_hex_digit(byte % 16)]
}

/// One lowercase hex digit as text.
fn hex_digit_text(nibble: u8) -> (text: &'static str)
    requires
        nibble < 16,
    ensures
        text@ == seq![lower_hex_digit(nibble)],
{
    proof {
        reveal_strlit("0");
        reveal_strlit("1");
        reveal_strlit("2");
        reveal_strlit("3");
        reveal_strlit("4");
        reveal_strlit("5");
        reveal_strlit("6");
        reveal_strlit("7");
        reveal_strlit("8");
        reveal_strlit("9");
        reveal_strlit("a");
        reveal_strlit("b");
        reveal_strlit("c");
        reveal_strlit("d");
        reveal_strlit("e");
        reveal_strlit("f");
    }
    let text = match nibble {
        0 => "0",
        1 => "1",
        2 => "2",
        3 => "3",
        4 => "4",
        5 => "5",
        6 => "6",
        7 => "7",
        8 => "8",
        9 => "9",
        10 => "a",
        11 => "b",
        12 => "c",
        13 => "d",
        14 => "e",
        _ => "f",
    };
    assert(text@ =~= seq![lower_hex_digit(nibble)]);
    text
}

impl Opcode {
    /// Maps a byte to its opcode. Only `0xac` and `0x76` have one; every
    /// other byte is refused with a message that names it. `OpInvalid` is
    /// never returned.
    pub fn from_byte(byte: u8) -> (r: Result<Self, String>)
        ensures
            byte == 0xac ==> r == Ok::<Opcode, String>(Opcode::OpChecksig),
            byte == 0x76 ==> r == Ok::<Opcode, String>(Opcode::OpDup),
            byte != 0xac && byte != 0x76 ==> r is Err && r->Err_0@ == invalid_opcode_message(byte),
            match r {
                Ok(op) => opcode_of(byte) == Some(op),
                Err(msg) => opcode_of(byte) is None && msg@ == invalid_opcode_message(byte),
            },
    {
        if byte == 0xac {
            Ok(Opcode::OpChecksig)
        } else if byte == 0x76 {
            Ok(Opcode::OpDup)
        } else {
            let high = hex_digit_text(byte / 16);
            let low = hex_digit_text(byte % 16);
            let msg = String::from_str("Invalid opcode: 0x").concat(high).concat(low);
            assert(msg@ =~= invalid_opcode_message(byte));
            Err(msg)
        }
    }
}

} // verus!
