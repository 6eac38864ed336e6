//! Byte-level codec and classification primitives for Bitcoin-style data:
//! hexadecimal text, byte order, locking-script templates, opcodes and the
//! small value types that carry outpoints and unspent outputs.

pub mod ascii;
pub mod endian;
pub mod hex_codec;
pub mod primitives;
pub mod script;
pub mod wallet;

pub use endian::{
    byte_order_of_layout, host_byte_order, swap_endian_u32, swap_endian_u32_on, to_big_endian, ByteOrder,
};
pub use hex_codec::{bytes_to_hex, decode_hex, hex_to_bytes, DecodeError};
pub use primitives::{consume_utxo, move_txid, Outpoint, UTXO};
pub use script::{classify_script, read_pushdata, Opcode, ScriptType, TruncatedScript};
pub use wallet::{apply_fee, parse_satoshis, TestWallet, Wallet};
