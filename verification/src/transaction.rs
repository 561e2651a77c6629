//! Outpoints and unspent outputs.

use crate::hexadecimal::hex_text_decoding;
use crate::hexadecimal::hex_to_bytes;
use crate::hexadecimal::hex_error_text;
use crate::hexadecimal::is_hex_text;
use crate::hexadecimal::HexError;
use vstd::prelude::*;
use vstd::std_specs::cmp::PartialEqSpecImpl;
use vstd::std_specs::convert::FromSpecImpl;

verus! {

/// A reference to one output of an earlier transaction: the transaction's
/// identifier as hex text, and the position of the output in it, counted from
/// zero. The text is not examined when the outpoint is made, only when it is
/// turned into bytes.
pub struct Outpoint {
    pub txid: String,
    pub vout: u32,
}

/// The message for a transaction identifier that is no hex text, whose fault
/// is described by `description`.
pub open spec fn invalid_txid_text(description: Seq<char>) -> Seq<char> {
    "Invalid hex string: "@ + description
}

/// Builds the message for a transaction identifier that is no hex text from
/// the description of its fault.
pub fn invalid_txid_message(description: &str) -> (msg: String)
    ensures
        msg@ == invalid_txid_text(description@),
{
    String::from_str("Invalid hex string: ").concat(description)
}

impl Outpoint {
    /// Makes an outpoint from an identifier and an output index. Any text is
    /// taken.
    pub fn new(txid_str: String, vout: u32) -> (outpoint: Self)
        ensures
            outpoint == (Outpoint { txid: txid_str, vout }),
    {
        Outpoint { txid: txid_str, vout }
    }

    /// The transaction identifier, as the text it was given as.
    pub fn txid(&self) -> (text: &str)
        ensures
            text@ == self.txid@,
    {
        self.txid.as_str()
    }

    /// The transaction identifier as bytes. It is here, and not when the
    /// outpoint is made, that an identifier which is no hex text is found
    /// out.
    pub fn txid_bytes(&self) -> (r: Result<Vec<u8>, String>)
        ensures
            r is Ok <==> is_hex_text(self.txid@),
            match r {
                Ok(bytes) => hex_text_decoding(self.txid@) == Ok::<Seq<u8>, HexError>(
                    bytes@,
                ),
                Err(msg) => hex_text_decoding(self.txid@) matches Err(error) && msg@
                    == invalid_txid_text(hex_error_text(error)),
            },
    {
        match hex_to_bytes(self.txid.as_str()) {
            Ok(bytes) => Ok(bytes),
            Err(error) => {
                let description = error.message();
                Err(invalid_txid_message(description.as_str()))
            },
        }
    }
}

impl From<(String, u32)> for Outpoint {
    /// Makes an outpoint from a pair of identifier and output index.
    fn from(pair: (String, u32)) -> (outpoint: Self) {
        Outpoint { txid: pair.0, vout: pair.1 }
    }
}

impl FromSpecImpl<(String, u32)> for Outpoint {
    open spec fn obeys_from_spec() -> bool {
        true
    }

    open spec fn from_spec(pair: (String, u32)) -> Self {
        Outpoint { txid: pair.0, vout: pair.1 }
    }
}

/// An unspent output: the bytes of its transaction's identifier, its
/// position in that transaction, and its value in the smallest currency
/// unit. Nothing is required of the fields: the value may be zero and the
/// identifier of any length.
#[derive(Debug, Clone, Eq)]
pub struct UTXO {
    pub txid: Vec<u8>,
    pub vout: u32,
    pub value: u64,
}

impl PartialEq for UTXO {
    /// Two unspent outputs are equal when all their fields are.
    fn eq(&self, other: &Self) -> (equal: bool) {
        let same_txid = self.txid == other.txid;
        assert(same_txid <==> self.txid@ =~= other.txid@);
        same_txid && self.vout == other.vout && self.value == other.value
    }
}

impl PartialEqSpecImpl for UTXO {
    open spec fn obeys_eq_spec() -> bool {
        true
    }

    open spec fn eq_spec(&self, other: &Self) -> bool {
        self.txid@ == other.txid@ && self.vout == other.vout && self.value == other.value
    }
}

/// Takes an unspent output and hands the same one back.
pub fn consume_utxo(utxo: UTXO) -> (out: UTXO)
    ensures
        out == utxo,
{
    utxo
}

/// The label that `move_txid` puts before an identifier.
pub open spec fn labelled_txid(txid: Seq<char>) -> Seq<char> {
    "txid: "@ + txid
}

/// Takes an identifier and returns it behind the label `txid: `.
pub fn move_txid(txid: String) -> (text: String)
    ensures
        text@ == labelled_txid(txid@),
{
    String::from_str("txid: ").concat(txid.as_str())
}

} // verus!
