//! Identifiers of code and debug files, and their text forms.

use vstd::prelude::*;

verus! {

/// Identifies a debug information file.
#[derive(Clone, Copy, Debug, PartialEq, Eq, Structural)]
pub enum DebugId {
    /// A UUID, read as a big-endian number, and an appendix.
    Uuid { uuid: u128, appendix: u32 },
    /// The timestamp and age of the old PDB 2.0 format.
    Pdb20 { timestamp: u32, age: u32 },
}

/// The hexadecimal digit for a number below sixteen.
pub open spec fn hex_digit(n: int, upper: bool) -> char {
    if n < 10 {
        ('0' as int + n) as char
    } else if upper {
        ('A' as int + n - 10) as char
    } else {
        ('a' as int + n - 10) as char
    }
}

/// The last `width` hexadecimal digits of a number.
pub open spec fn hex_padded(n: nat, width: nat, upper: bool) -> Seq<char>
    decreases width,
{
    if width == 0 {
        Seq::empty()
    } else {
        hex_padded(n / 16, (width - 1) as nat, upper).push(hex_digit((n % 16) as int, upper))
    }
}

/// The hexadecimal digits of a number, without leading zeros.
pub open spec fn hex_minimal(n: nat, upper: bool) -> Seq<char>
    decreases n,
{
    if n < 16 {
        seq![hex_digit(n as int, upper)]
    } else {
        hex_minimal(n / 16, upper).push(hex_digit((n % 16) as int, upper))
    }
}

/// The breakpad form of a debug identifier: the identifier in upper case
/// hexadecimal digits, then the appendix in lower case ones.
pub open spec fn breakpad_text(id: DebugId) -> Seq<char> {
    match id {
        DebugId::Uuid { uuid, appendix } => hex_padded(uuid as nat, 32, true) + hex_minimal(
            appendix as nat,
            false,
        ),
        DebugId::Pdb20 { timestamp, age } => hex_padded(timestamp as nat, 8, true) + hex_minimal(
            age as nat,
            false,
        ),
    }
}

/// The breakpad form of a debug identifier, as `debugid::DebugId::breakpad`
/// formats it: the UUID in 32 upper case digits, or the timestamp of a PDB 2.0
/// identifier in eight, followed by the appendix in lower case digits.
#[verifier::external_body]
pub(crate) fn breakpad(id: DebugId) -> (r: String)
    ensures
        r@ == breakpad_text(id),
{
    let id = match id {
        DebugId::Uuid { uuid, appendix } => debugid::DebugId::from_parts(
            uuid.to_be_bytes().to_vec().try_into().unwrap(),
            appendix,
        ),
        DebugId::Pdb20 { timestamp, age } => debugid::DebugId::from_pdb20(timestamp, age),
    };
    id.breakpad().to_string()
}

/// The code identifier of a binary build ID: two lower case hexadecimal
/// digits per byte.
pub open spec fn code_id_text(bytes: Seq<u8>) -> Seq<char> {
    Seq::new(
        2 * bytes.len(),
        |i: int|
            hex_digit(
                if i % 2 == 0 {
                    bytes[i / 2] as int / 16
                } else {
                    bytes[i / 2] as int % 16
                },
                false,
            ),
    )
}

/// The code identifier of a binary build ID, as `debugid::CodeId::from_binary`
/// builds it: two lower case hexadecimal digits per byte.
#[verifier::external_body]
pub(crate) fn code_id_from_binary(bytes: &[u8]) -> (r: String)
    ensures
        r@ == code_id_text(bytes@),
{
    debugid::CodeId::from_binary(bytes).to_string()
}

/// The code identifier of an optional build ID.
pub open spec fn code_id_of(build_id: Option<Seq<u8>>) -> Option<Seq<char>> {
    match build_id {
        Some(bytes) => Some(code_id_text(bytes)),
        None => None,
    }
}

} // verus!
