//! Paths, as the bytes that the system knows them by.

use vstd::prelude::*;
use vstd::utf8::*;

verus! {

/// The byte that separates the parts of a path.
pub const SLASH: u8 = 47;

/// The bytes of a text in a path.
pub open spec fn path_bytes(text: Seq<char>) -> Seq<u8> {
    encode_utf8(text)
}

/// Whether a path begins at the root.
pub open spec fn is_rooted(path: Seq<u8>) -> bool {
    path.len() > 0 && path[0] == SLASH
}

/// A path continued by another: one that begins at the root stands alone.
pub open spec fn joined_path(base: Seq<u8>, part: Seq<u8>) -> Seq<u8> {
    if is_rooted(part) {
        part
    } else if base.len() == 0 || base.last() == SLASH {
        base + part
    } else {
        base.push(SLASH) + part
    }
}

/// Copies bytes.
pub fn copy_bytes(bytes: &[u8]) -> (copy: Vec<u8>)
    ensures
        copy@ == bytes@,
{
    let mut copy: Vec<u8> = Vec::new();
    append_bytes(&mut copy, bytes);
    assert(copy@ =~= bytes@);
    copy
}

/// Appends bytes.
pub fn append_bytes(bytes: &mut Vec<u8>, more: &[u8])
    ensures
        final(bytes)@ == old(bytes)@ + more@,
{
    let mut i: usize = 0;
    assert(bytes@ =~= old(bytes)@ + more@.take(0));
    while i < more.len()
        invariant
            i <= more.len(),
            bytes@ == old(bytes)@ + more@.take(i as int),
        decreases more.len() - i,
    {
        bytes.push(more[i]);
        assert(bytes@ =~= old(bytes)@ + more@.take(i + 1));
        i += 1;
    }
    assert(more@.take(more.len() as int) =~= more@);
}

/// Continues a path by another.
pub fn join_path(base: &[u8], part: &[u8]) -> (path: Vec<u8>)
    ensures
        path@ == joined_path(base@, part@),
{
    if part.len() > 0 && part[0] == SLASH {
        return copy_bytes(part);
    }
    let mut path = copy_bytes(base);
    if base.len() > 0 && base[base.len() - 1] != SLASH {
        path.push(SLASH);
    }
    append_bytes(&mut path, part);
    path
}

/// The bytes of a text in a path.
pub fn bytes_of(text: &str) -> (bytes: Vec<u8>)
    ensures
        bytes@ == path_bytes(text@),
{
    copy_bytes(text.as_bytes())
}

/// Different texts have different bytes.
pub proof fn lemma_path_bytes_injective(a: Seq<char>, b: Seq<char>)
    requires
        path_bytes(a) == path_bytes(b),
    ensures
        a == b,
{
    encode_utf8_decode_utf8(a);
    encode_utf8_decode_utf8(b);
}

} // verus!
