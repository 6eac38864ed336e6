//! The value types that name transaction outputs.

use vstd::prelude::*;
use vstd::string::*;

verus! {

/// A reference to one output of an earlier transaction: the transaction's
/// identifier as text, and the output's index.
pub struct Outpoint(pub String, pub usize);

/// An output that no later transaction has spent.
#[derive(Clone, Debug, PartialEq)]
pub struct UTXO {
    /// Identifier of the transaction that holds the output.
    pub txid: Vec<u8>,
    /// Index of the output within that transaction.
    pub vout: u32,
    /// Value of the output in satoshis.
    pub value: u64,
}

/// Consumes an unspent output. Nothing is marked yet: the output comes
/// back as it went in.
pub fn consume_utxo(utxo: UTXO) -> (out: UTXO)
    ensures
        out == utxo,
{
    utxo
}

/// A transaction identifier as it is shown: the text `txid: ` and the
/// identifier behind it.
pub fn move_txid(txid: String) -> (shown: String)
    ensures
        shown@ == "txid: "@ + txid@,
{
    let header = String::from_str("txid: ");
    header.concat(txid.as_str())
}

} // verus!
