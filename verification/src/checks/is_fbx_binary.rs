//! The binary-format gate: classifies a file's raw bytes as binary or
//! text-like before any other check runs.
//!
//! The classification is the byte-pattern heuristic of the `content_inspector`
//! crate: a buffer is binary when it does not start with a known text byte
//! order mark, and either holds a zero byte among its first 1024 bytes or
//! starts with one of two known binary magic numbers.

use vstd::prelude::*;

verus! {

/// `p` is a prefix of `b`.
pub open spec fn starts_with_bytes(b: Seq<u8>, p: Seq<u8>) -> bool {
    p.len() <= b.len() && b.subrange(0, p.len() as int) == p
}

/// The buffer starts with the byte order mark of a known text encoding
/// (UTF-8, UTF-16 in either endianness, or UTF-32 in either endianness).
pub open spec fn spec_bom_prefixed(b: Seq<u8>) -> bool {
    ||| starts_with_bytes(b, seq![0xefu8, 0xbbu8, 0xbfu8])
    ||| starts_with_bytes(b, seq![0x00u8, 0x00u8, 0xfeu8, 0xffu8])
    ||| starts_with_bytes(b, seq![0xffu8, 0xfeu8, 0x00u8, 0x00u8])
    ||| starts_with_bytes(b, seq![0xfeu8, 0xffu8])
    ||| starts_with_bytes(b, seq![0xffu8, 0xfeu8])
}

/// A zero byte occurs among the first 1024 bytes.
pub open spec fn spec_zero_in_prefix(b: Seq<u8>) -> bool {
    exists|i: int| 0 <= i < b.len() && i < 1024 && b[i] == 0u8
}

/// The buffer starts with a known binary magic number (PDF or PNG).
pub open spec fn spec_magic_prefixed(b: Seq<u8>) -> bool {
    ||| starts_with_bytes(b, seq![0x25u8, 0x50u8, 0x44u8, 0x46u8])
    ||| starts_with_bytes(b, seq![0x89u8, 0x50u8, 0x4eu8, 0x47u8])
}

/// The content heuristic calls the buffer binary: no text byte order mark, and
/// a zero byte in the scanned prefix or a known binary magic number.
pub open spec fn spec_is_binary(b: Seq<u8>) -> bool {
    !spec_bom_prefixed(b) && (spec_zero_in_prefix(b) || spec_magic_prefixed(b))
}

/// The binary-format gate.  Downstream consumers cannot load the textual
/// dialect of the format, so a file that is not in the binary form is
/// rejected before any scene check runs.
///
/// Relies on `content_inspector::inspect`: it returns `BINARY` exactly when no
/// byte-order-mark prefix matched and either a zero byte occurs in the first
/// 1024 bytes or a known binary magic number prefixes the buffer.
#[verifier::external_body]
pub fn verify(bytes: &Vec<u8>) -> (r: bool)
    ensures
        r == spec_is_binary(bytes@),
{
    content_inspector::inspect(bytes.as_slice()) == content_inspector::ContentType::BINARY
}

} // verus!
