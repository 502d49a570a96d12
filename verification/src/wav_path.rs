//! Cache-file naming: where the normalized copy of a sample file lives.
//! The path is handled as bytes with `/` as the separator; the file-name
//! derivation is a pure, deterministic function of the source path, so
//! the same source always yields the same cache path.

use vstd::prelude::*;

verus! {

/// The byte of the ASCII dot.
pub const DOT_BYTE: u8 = 0x2E;

/// The byte of the ASCII path separator.
pub const SEPARATOR_BYTE: u8 = 0x2F;

/// Where the file name begins: the index just after the last separator,
/// or zero when there is none.
pub open spec fn name_start(p: Seq<u8>) -> int
    decreases p.len(),
{
    if p.len() == 0 {
        0
    } else if p.last() == SEPARATOR_BYTE {
        p.len() as int
    } else {
        name_start(p.drop_last())
    }
}

/// Whether the file name has an extension: a dot strictly after the
/// name's first byte, so a leading dot alone names no extension.
pub open spec fn has_extension(p: Seq<u8>) -> bool {
    exists|i: int| name_start(p) < i < p.len() && p[i] == DOT_BYTE
}

/// The ASCII bytes of ".16.wav".
pub open spec fn target_suffix() -> Seq<u8> {
    seq![0x2Eu8, 0x31u8, 0x36u8, 0x2Eu8, 0x77u8, 0x61u8, 0x76u8]
}

/// The ASCII bytes of "16.wav".
pub open spec fn bare_target_name() -> Seq<u8> {
    seq![0x31u8, 0x36u8, 0x2Eu8, 0x77u8, 0x61u8, 0x76u8]
}

/// The cache path for a source path: with an extension the source name
/// gains ".16.wav" after it; without one the target in the same
/// directory is named "16.wav".
pub open spec fn normalized_target_path(p: Seq<u8>) -> Seq<u8> {
    if has_extension(p) {
        p + target_suffix()
    } else {
        p.take(name_start(p)) + bare_target_name()
    }
}

/// A position whose suffix holds no separator, and whose predecessor is
/// one, is where the name starts.
pub(crate) proof fn lemma_name_start_at(p: Seq<u8>, k: int)
    requires
        0 <= k <= p.len(),
        forall|j: int| k <= j < p.len() ==> p[j] != SEPARATOR_BYTE,
        k > 0 ==> p[k - 1] == SEPARATOR_BYTE,
    ensures
        name_start(p) == k,
    decreases p.len(),
{
    if p.len() == 0 {
    } else if p.last() == SEPARATOR_BYTE {
        assert(k == p.len());
    } else {
        assert(k < p.len());
        lemma_name_start_at(p.drop_last(), k);
    }
}

/// Derives the cache path for a source path given as bytes.
pub fn derive_target_path(path: &[u8]) -> (r: Vec<u8>)
    ensures
        r@ == normalized_target_path(path@),
{
    let len = path.len();
    // find where the file name starts
    let mut ns: usize = len;
    while ns > 0 && path[ns - 1] != SEPARATOR_BYTE
        invariant
            ns <= len,
            len == path@.len(),
            forall|j: int| ns <= j < len ==> path@[j] != SEPARATOR_BYTE,
        decreases ns,
    {
        ns = ns - 1;
    }
    proof {
        lemma_name_start_at(path@, ns as int);
    }
    // look for a dot strictly after the name's first byte
    let mut has_dot = false;
    let mut i: usize = ns;
    while i < len
        invariant
            ns <= i <= len,
            len == path@.len(),
            ns == name_start(path@),
            has_dot == exists|j: int| ns < j < i && path@[j] == DOT_BYTE,
        decreases len - i,
    {
        if i > ns && path[i] == DOT_BYTE {
            has_dot = true;
        }
        proof {
            if !has_dot {
                assert(forall|j: int| ns < j < i + 1 ==> path@[j] != DOT_BYTE);
            }
        }
        i = i + 1;
    }
    let mut r: Vec<u8> = Vec::new();
    if has_dot {
        // keep the whole path and append ".16.wav"
        let mut k: usize = 0;
        while k < len
            invariant
                k <= len,
                len == path@.len(),
                r@ =~= path@.take(k as int),
            decreases len - k,
        {
            r.push(path[k]);
            proof {
                assert(r@ =~= path@.take(k + 1));
            }
            k = k + 1;
        }
        r.push(0x2E);
        r.push(0x31);
        r.push(0x36);
        r.push(0x2E);
        r.push(0x77);
        r.push(0x61);
        r.push(0x76);
        proof {
            assert(path@.take(len as int) =~= path@);
            assert(r@ =~= path@ + target_suffix());
        }
    } else {
        // keep the directory part and name the target "16.wav"
        let mut k: usize = 0;
        while k < ns
            invariant
                k <= ns <= len,
                len == path@.len(),
                r@ =~= path@.take(k as int),
            decreases ns - k,
        {
            r.push(path[k]);
            proof {
                assert(r@ =~= path@.take(k + 1));
            }
            k = k + 1;
        }
        r.push(0x31);
        r.push(0x36);
        r.push(0x2E);
        r.push(0x77);
        r.push(0x61);
        r.push(0x76);
        proof {
            assert(r@ =~= path@.take(ns as int) + bare_target_name());
        }
    }
    r
}

} // verus!
