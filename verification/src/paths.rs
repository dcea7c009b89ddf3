use vstd::prelude::*;

verus! {

/// Why a location could not be worked out.
#[derive(Debug, Clone, Copy, PartialEq, Eq, Structural)]
pub enum PathError {
    /// The platform reports no per-user configuration directory.
    NoConfigDir,
    /// The platform reports no home directory.
    NoHomeDir,
}

/// The byte that separates path components (`/`).
pub const SEPARATOR: u8 = 47;

/// Joining a path component onto a base path, both as the raw bytes of a
/// Unix path, as a path buffer does it: an absolute component replaces the
/// base; otherwise a separator is put between them unless the base is empty or
/// already ends in one.
pub open spec fn path_join(base: Seq<u8>, rel: Seq<u8>) -> Seq<u8> {
    if rel.len() > 0 && rel[0] == SEPARATOR {
        rel
    } else if base.len() == 0 || base.last() == SEPARATOR {
        base + rel
    } else {
        base + seq![SEPARATOR] + rel
    }
}

/// Appends `bytes` to `out`.
pub fn append_bytes(out: &mut Vec<u8>, bytes: &[u8])
    ensures
        final(out)@ == old(out)@ + bytes@,
{
    let n = bytes.len();
    let mut i: usize = 0;
    while i < n
        invariant
            n == bytes@.len(),
            i <= n,
            out@ == old(out)@ + bytes@.subrange(0, i as int),
        decreases n - i,
    {
        out.push(bytes[i]);
        i = i + 1;
        assert(bytes@.subrange(0, i as int) == bytes@.subrange(0, i - 1) + seq![bytes@[i - 1]]);
    }
    assert(bytes@.subrange(0, n as int) == bytes@);
}

/// Joins `rel` onto `base`.
pub fn join_path(base: &[u8], rel: &[u8]) -> (r: Vec<u8>)
    ensures
        r@ == path_join(base@, rel@),
        rel@.len() > 0 && rel@[0] == 47u8 ==> r@ == rel@,
        !(rel@.len() > 0 && rel@[0] == 47u8) && (base@.len() == 0 || base@.last() == 47u8)
            ==> r@ == base@ + rel@,
        !(rel@.len() > 0 && rel@[0] == 47u8) && base@.len() > 0 && base@.last() != 47u8 ==> r@
            == base@ + seq![47u8] + rel@,
{
    let mut out: Vec<u8> = Vec::new();
    if rel.len() > 0 && rel[0] == SEPARATOR {
        append_bytes(&mut out, rel);
        return out;
    }
    append_bytes(&mut out, base);
    if base.len() > 0 && base[base.len() - 1] != SEPARATOR {
        out.push(SEPARATOR);
    }
    append_bytes(&mut out, rel);
    out
}

} // verus!
