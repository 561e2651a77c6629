//! Small building blocks for working with transaction data: hex text, byte
//! order and amounts, script prefixes and opcodes, outpoints and unspent
//! outputs, and a wallet balance with fee deduction.

pub mod amount;
pub mod byte_order;
pub mod hexadecimal;
pub mod script;
pub mod transaction;
pub mod wallet;

pub use amount::parse_satoshis;
pub use byte_order::swap_endian_u32;
pub use byte_order::to_big_endian;
pub use hexadecimal::bytes_to_hex;
pub use hexadecimal::decode_failure_message;
pub use hexadecimal::decode_hex;
pub use hexadecimal::hex_to_bytes;
pub use hexadecimal::HexError;
pub use script::classify_script;
pub use script::read_pushdata;
pub use script::Opcode;
pub use script::ScriptType;
pub use transaction::consume_utxo;
pub use transaction::invalid_txid_message;
pub use transaction::move_txid;
pub use transaction::Outpoint;
pub use transaction::UTXO;
pub use wallet::apply_fee;
pub use wallet::TestWallet;
pub use wallet::Wallet;
