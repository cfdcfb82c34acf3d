use vstd::prelude::*;

use vstd::string::StringExecFns;

verus! {

/// The lowercase hexadecimal digits, by value.
pub open spec fn lowercase_hex_digits() -> Seq<char> {
    seq!['0', '1', '2', '3', '4', '5', '6', '7', '8', '9', 'a', 'b', 'c', 'd', 'e', 'f']
}

/// `bytes` in lowercase hexadecimal, two digits per byte, high digit first.
pub open spec fn lowercase_hex(bytes: Seq<u8>) -> Seq<char>
    decreases bytes.len(),
{
    if bytes.len() == 0 {
        Seq::empty()
    } else {
        lowercase_hex(bytes.drop_last()) + seq![
            lowercase_hex_digits()[(bytes.last() / 16) as int],
            lowercase_hex_digits()[(bytes.last() % 16) as int],
        ]
    }
}

/// `hex::encode`: each byte becomes two lowercase hexadecimal digits, high nibble first,
/// in the order of the bytes (the crate's source maps each byte through the table
/// `0123456789abcdef`).
#[verifier::external_body]
fn hex_encode(bytes: &[u8]) -> (text: String)
    ensures
        text@ == lowercase_hex(bytes@),
{
    hex::encode(bytes)
}

/// The registry file that holds the resume command of the pane with raw UUID bytes `uuid`:
/// the UUID in lowercase hexadecimal (as `$WARP_TERMINAL_SESSION_UUID` spells it), with
/// a `.json` extension.
pub fn registry_file_name(uuid: &[u8]) -> (name: String)
    ensures
        name@ == lowercase_hex(uuid@) + ".json"@,
{
    hex_encode(uuid).concat(".json")
}

} // verus!
