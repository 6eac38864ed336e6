//! Recognition of locking-script templates, the opcode table and the
//! extraction of the pushed payload from a script buffer.

use crate::hex_codec::upper_hex_digits;
use vstd::prelude::*;
use vstd::string::*;

verus! {

/// The locking-script templates that the classifier tells apart.
#[derive(Debug, Clone, Copy, PartialEq, Eq, Structural)]
pub enum ScriptType {
    /// Pay to public-key hash.
    P2PKH,
    /// Pay to witness public-key hash.
    P2WPKH,
    /// None of the templates.
    Unknown,
}

/// Length of the byte patterns that the classifier recognises.
pub const TEMPLATE_LEN: usize = 3;

/// The template that a script's bytes stand for.
///
/// Only a script of exactly three bytes is matched against the pattern
/// table; the third byte of the witness pattern is a wildcard.
pub open spec fn script_type_of(script: Seq<u8>) -> ScriptType {
    if script.len() != 3 {
        ScriptType::Unknown
    } else if script[0] == 0x76 && script[1] == 0xa9 && script[2] == 0x14 {
        ScriptType::P2PKH
    } else if script[0] == 0x00 && script[1] == 0x14 {
        ScriptType::P2WPKH
    } else {
        ScriptType::Unknown
    }
}

/// Classifies a locking script by its byte pattern.
pub fn classify_script(script: &[u8]) -> (kind: ScriptType)
    ensures
        kind == script_type_of(script@),
{
    if script.len() == TEMPLATE_LEN {
        match (script[0], script[1], script[2]) {
            // OP_DUP OP_HASH160 OP_PUSHBYTES_20
            (0x76, 0xa9, 0x14) => ScriptType::P2PKH,
            // OP_0 OP_PUSHBYTES_20
            (0x00, 0x14, _) => ScriptType::P2WPKH,
            _ => ScriptType::Unknown,
        }
    } else {
        ScriptType::Unknown
    }
}

/// Number of bytes in front of the pushed payload: an opcode and a length.
pub const PUSHDATA_OFFSET: usize = 2;

/// Number of bytes of the pushed payload.
pub const PUSHDATA_LEN: usize = 20;

/// A script that ends before the payload it is expected to carry.
#[derive(Debug, Clone, Copy, PartialEq, Eq)]
pub struct TruncatedScript {
    /// Number of bytes the script has.
    pub len: usize,
}

/// Reads the pushed payload of a script: the twenty bytes that follow the
/// two-byte prefix.
///
/// A script of fewer than twenty-two bytes does not hold the whole payload
/// and is refused; nothing is read from it.
pub fn read_pushdata(script: &[u8]) -> (res: Result<Vec<u8>, TruncatedScript>)
    ensures
        res is Ok <==> script@.len() >= 22,
        res is Ok ==> res.unwrap()@ == script@.subrange(2, 22),
        res is Err ==> res.unwrap_err().len == script@.len(),
{
    if script.len() < PUSHDATA_OFFSET + PUSHDATA_LEN {
        return Err(TruncatedScript { len: script.len() });
    }
    let mut buffer: Vec<u8> = Vec::with_capacity(PUSHDATA_LEN);
    let mut i: usize = 0;
    while i < PUSHDATA_LEN
        invariant
            script@.len() >= 22,
            i <= PUSHDATA_LEN,
            buffer@.len() == i,
            forall|k: int| 0 <= k < i ==> buffer@[k] == script@[2 + k],
        decreases PUSHDATA_LEN - i,
    {
        buffer.push(script[PUSHDATA_OFFSET + i]);
        i += 1;
    }
    assert(buffer@ =~= script@.subrange(2, 22));
    Ok(buffer)
}

/// The script operations that the opcode table knows.
#[derive(Debug, PartialEq)]
pub enum Opcode {
    /// Checks a signature against a public key (0xAC).
    OpChecksig,
    /// Duplicates the top value of the stack (0x76).
    OpDup,
    /// Marks a byte that denotes no operation; the table never hands it
    /// out, it refuses such a byte with a message.
    OpInvalid,
}

/// The message for a byte that the opcode table does not know: the byte is
/// written as `0x` and two uppercase hex digits.
pub open spec fn unknown_opcode_message(byte: u8) -> Seq<char> {
    "Invalid opcode: 0x"@ + seq![
        upper_hex_digits()[byte as int / 16],
        upper_hex_digits()[byte as int % 16],
    ]
}

/// The uppercase hex digit of a value below sixteen, as text.
fn upper_digit_text(n: u8) -> (text: &'static str)
    requires
        n < 16,
    ensures
        text@ == seq![upper_hex_digits()[n as int]],
{
    proof {
        reveal_strlit("0");
        reveal_strlit("1");
        reveal_strlit("2");
        reveal_strlit("3");
        reveal_strlit("4");
        reveal_strlit("5");
        reveal_strlit("6");
        reveal_strlit("7");
        reveal_strlit("8");
        reveal_strlit("9");
        reveal_strlit("A");
        reveal_strlit("B");
        reveal_strlit("C");
        reveal_strlit("D");
        reveal_strlit("E");
        reveal_strlit("F");
    }
    let text = match n {
        0 => "0",
        1 => "1",
        2 => "2",
        3 => "3",
        4 => "4",
        5 => "5",
        6 => "6",
        7 => "7",
        8 => "8",
        9 => "9",
        10 => "A",
        11 => "B",
        12 => "C",
        13 => "D",
        14 => "E",
        _ => "F",
    };
    assert(text@ =~= seq![upper_hex_digits()[n as int]]);
    text
}

impl Opcode {
    /// Maps a byte to the operation it denotes: 0xAC is the signature check
    /// and 0x76 the duplication. Any other byte is refused with a message
    /// that names it.
    pub fn from_byte(byte: u8) -> (res: Result<Self, String>)
        ensures
            byte == 0xAC ==> res == Ok::<Opcode, String>(Opcode::OpChecksig),
            byte == 0x76 ==> res == Ok::<Opcode, String>(Opcode::OpDup),
            byte != 0xAC && byte != 0x76 ==> res is Err && res.unwrap_err()@
                == unknown_opcode_message(byte),
    {
        match byte {
            0xAC => Ok(Opcode::OpChecksig),
            0x76 => Ok(Opcode::OpDup),
            _ => {
                let mut err_str = String::from_str("Invalid opcode: 0x");
                err_str.append(upper_digit_text(byte / 16));
                err_str.append(upper_digit_text(byte % 16));
                assert(err_str@ =~= unknown_opcode_message(byte));
                Err(err_str)
            },
        }
    }
}

} // verus!
