//! The name and version of the OpenSSL library that the program runs with.

use crate::text::{decimal, push_char, push_decimal};
use vstd::prelude::*;

verus! {

/// The major version in a version number of the form `MNNFFPPS`.
pub open spec fn major_of(version_num: u64) -> nat {
    ((version_num / 0x1000_0000) % 256) as nat
}

/// The minor version in a version number.
pub open spec fn minor_of(version_num: u64) -> nat {
    ((version_num / 0x10_0000) % 256) as nat
}

/// The fix level in a version number.
pub open spec fn fix_of(version_num: u64) -> nat {
    ((version_num / 0x1000) % 256) as nat
}

/// The patch level in a version number.
pub open spec fn patch_of(version_num: u64) -> nat {
    ((version_num / 0x10) % 256) as nat
}

/// The letter that stands for a patch level: `a` for 1, `b` for 2 and so on,
/// counted within a byte.
pub open spec fn patch_letter(patch: nat) -> char {
    ((96 + patch) % 256) as char
}

/// The text for a version number: `openssl`, then major, minor and fix level with
/// dots between them, then the letter of the patch level.
pub open spec fn version_text(version_num: u64) -> Seq<char> {
    "openssl"@ + decimal(major_of(version_num)) + "."@ + decimal(minor_of(version_num)) + "."@
        + decimal(fix_of(version_num)) + seq![patch_letter(patch_of(version_num))]
}

/// `openssl::version::number`: the version number of the OpenSSL library that is
/// linked in. It is that library's to say, so nothing is claimed of it.
#[verifier::external_body]
fn linked_version_number() -> i64 {
    openssl::version::number()
}

fn byte_at(version_num: u64, shift: u64) -> (byte: u8)
    requires
        shift == 4 || shift == 12 || shift == 20 || shift == 28,
    ensures
        shift == 4 ==> byte == patch_of(version_num),
        shift == 12 ==> byte == fix_of(version_num),
        shift == 20 ==> byte == minor_of(version_num),
        shift == 28 ==> byte == major_of(version_num),
{
    let shifted = version_num >> shift;
    let low = shifted & 0xff;
    assert(shift == 4 ==> low == (version_num / 0x10) % 256) by (bit_vector)
        requires
            low == (version_num >> shift) & 0xff,
    ;
    assert(shift == 12 ==> low == (version_num / 0x1000) % 256) by (bit_vector)
        requires
            low == (version_num >> shift) & 0xff,
    ;
    assert(shift == 20 ==> low == (version_num / 0x10_0000) % 256) by (bit_vector)
        requires
            low == (version_num >> shift) & 0xff,
    ;
    assert(shift == 28 ==> low == (version_num / 0x1000_0000) % 256) by (bit_vector)
        requires
            low == (version_num >> shift) & 0xff,
    ;
    assert(low < 256) by (bit_vector)
        requires
            low == shifted & 0xff,
    ;
    low as u8
}

/// The text for a version number.
pub fn version_str(version_num: u64) -> (text: String)
    ensures
        text@ == version_text(version_num),
{
    let patch = byte_at(version_num, 4);
    let fix = byte_at(version_num, 12);
    let minor = byte_at(version_num, 20);
    let major = byte_at(version_num, 28);
    let letter: u16 = (96 + patch as u16) % 256;
    let mut text = String::from_str("openssl");
    push_decimal(&mut text, major as u64);
    text.append(".");
    push_decimal(&mut text, minor as u64);
    text.append(".");
    push_decimal(&mut text, fix as u64);
    push_char(&mut text, (letter as u8) as char);
    assert(text@ =~= version_text(version_num));
    text
}

/// The text for the version of the OpenSSL library that is linked in.
pub fn openssl_version_str() -> (text: String)
    ensures
        exists|version_num: u64| text@ == #[trigger] version_text(version_num),
{
    let version_num = linked_version_number() as u64;
    version_str(version_num)
}

} // verus!
