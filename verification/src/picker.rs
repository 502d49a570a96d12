//! The file-browser's decisions: which directory entries are shown,
//! how they are ordered, how the cursor moves, and what selecting an
//! entry means. Reading directories, path juggling and drawing stay
//! outside; entries arrive here as plain names with a directory flag.

use crate::wav_path::has_extension;
use crate::wav_path::name_start;
use crate::wav_path::DOT_BYTE;
use vstd::prelude::*;

verus! {

/// One entry of the browsed directory.
pub struct PickerEntry {
    pub is_dir: bool,
    pub name: Vec<u8>,
}

/// Strict lexicographic order on byte strings.
pub open spec fn lex_lt(a: Seq<u8>, b: Seq<u8>) -> bool
    decreases a.len(),
{
    if b.len() == 0 {
        false
    } else if a.len() == 0 {
        true
    } else if a[0] < b[0] {
        true
    } else if a[0] > b[0] {
        false
    } else {
        lex_lt(a.skip(1), b.skip(1))
    }
}

/// Two byte strings that agree up to `i` and diverge there are ordered
/// by the diverging position.
proof fn lemma_lex_lt_at(a: Seq<u8>, b: Seq<u8>, i: int)
    requires
        0 <= i <= a.len(),
        i <= b.len(),
        forall|j: int| 0 <= j < i ==> a[j] == b[j],
        (i < a.len() && i < b.len() && a[i] < b[i]) || (i == a.len() && i < b.len()),
    ensures
        lex_lt(a, b),
    decreases i,
{
    if i == 0 {
    } else {
        assert(a[0] == b[0]);
        assert(forall|j: int| 0 <= j < i - 1 ==> a.skip(1)[j] == b.skip(1)[j]);
        if i < a.len() && i < b.len() {
            assert(a.skip(1)[i - 1] == a[i]);
            assert(b.skip(1)[i - 1] == b[i]);
        }
        lemma_lex_lt_at(a.skip(1), b.skip(1), i - 1);
    }
}

/// Compares two names: `-1`, `0` or `1` for before, equal, after.
pub fn compare_names(a: &Vec<u8>, b: &Vec<u8>) -> (r: i8)
    ensures
        r == -1 || r == 0 || r == 1,
        r == -1 <==> lex_lt(a@, b@),
        r == 0 <==> a@ == b@,
        r == 1 <==> lex_lt(b@, a@),
{
    let alen = a.len();
    let blen = b.len();
    let mut i: usize = 0;
    while i < alen && i < blen
        invariant
            i <= alen,
            i <= blen,
            alen == a@.len(),
            blen == b@.len(),
            forall|j: int| 0 <= j < i ==> a@[j] == b@[j],
        decreases alen - i,
    {
        if a[i] < b[i] {
            proof {
                lemma_lex_lt_at(a@, b@, i as int);
                lemma_lex_not_both(a@, b@);
            }
            return -1;
        }
        if a[i] > b[i] {
            proof {
                lemma_lex_lt_at(b@, a@, i as int);
                lemma_lex_not_both(b@, a@);
            }
            return 1;
        }
        i = i + 1;
    }
    if alen < blen {
        proof {
            lemma_lex_lt_at(a@, b@, alen as int);
            lemma_lex_not_both(a@, b@);
        }
        -1
    } else if blen < alen {
        proof {
            lemma_lex_lt_at(b@, a@, blen as int);
            lemma_lex_not_both(b@, a@);
        }
        1
    } else {
        proof {
            assert(a@ =~= b@);
            lemma_lex_irreflexive(a@);
        }
        0
    }
}

/// The order is strict: two strings are never each below the other,
/// and an ordered pair is not equal.
proof fn lemma_lex_not_both(a: Seq<u8>, b: Seq<u8>)
    requires
        lex_lt(a, b),
    ensures
        !lex_lt(b, a),
        a != b,
    decreases a.len(),
{
    if b.len() == 0 {
    } else if a.len() == 0 {
    } else if a[0] < b[0] {
    } else if a[0] > b[0] {
    } else {
        lemma_lex_not_both(a.skip(1), b.skip(1));
        if a == b {
        } else {
        }
        assert(a != b) by {
            if a =~= b {
                lemma_lex_irreflexive(a.skip(1));
            }
        }
    }
}

/// No string is below itself.
proof fn lemma_lex_irreflexive(a: Seq<u8>)
    ensures
        !lex_lt(a, a),
    decreases a.len(),
{
    if a.len() > 0 {
        lemma_lex_irreflexive(a.skip(1));
    }
}

/// The display order of the browser: directories before files, and
/// within each kind names lexicographically.
pub fn entry_order(a: &PickerEntry, b: &PickerEntry) -> (r: i8)
    ensures
        r == -1 || r == 0 || r == 1,
        a.is_dir && !b.is_dir ==> r == -1,
        !a.is_dir && b.is_dir ==> r == 1,
        a.is_dir == b.is_dir ==> {
            &&& (r == -1 <==> lex_lt(a.name@, b.name@))
            &&& (r == 0 <==> a.name@ == b.name@)
            &&& (r == 1 <==> lex_lt(b.name@, a.name@))
        },
{
    if a.is_dir && !b.is_dir {
        -1
    } else if !a.is_dir && b.is_dir {
        1
    } else {
        compare_names(&a.name, &b.name)
    }
}

/// The ASCII bytes of the "organ" extension.
pub open spec fn organ_extension() -> Seq<u8> {
    seq![0x6Fu8, 0x72u8, 0x67u8, 0x61u8, 0x6Eu8]
}

/// The ASCII bytes of the "Organ_Hauptwerk_xml" extension.
pub open spec fn hauptwerk_extension() -> Seq<u8> {
    seq![
        0x4Fu8, 0x72u8, 0x67u8, 0x61u8, 0x6Eu8, 0x5Fu8, 0x48u8, 0x61u8, 0x75u8, 0x70u8, 0x74u8,
        0x77u8, 0x65u8, 0x72u8, 0x6Bu8, 0x5Fu8, 0x78u8, 0x6Du8, 0x6Cu8,
    ]
}

/// Where the last dot of the file name sits, when the name has an
/// extension.
pub open spec fn last_dot(p: Seq<u8>) -> int
    decreases p.len(),
{
    if p.len() == 0 {
        -1
    } else if p.last() == DOT_BYTE {
        p.len() - 1
    } else {
        last_dot(p.drop_last())
    }
}

/// The instrument-definition extensions the browser offers: the file
/// name's extension is "organ" or "Organ_Hauptwerk_xml".
pub open spec fn allowed_instrument_path(p: Seq<u8>) -> bool {
    &&& has_extension(p)
    &&& {
        let ext = p.subrange(last_dot(p) + 1, p.len() as int);
        ext == organ_extension() || ext == hauptwerk_extension()
    }
}

/// A position holding a dot, with none after it, is the last dot.
proof fn lemma_last_dot_at(p: Seq<u8>, k: int)
    requires
        0 <= k < p.len(),
        p[k] == DOT_BYTE,
        forall|j: int| k < j < p.len() ==> p[j] != DOT_BYTE,
    ensures
        last_dot(p) == k,
    decreases p.len(),
{
    if k == p.len() - 1 {
    } else {
        lemma_last_dot_at(p.drop_last(), k);
    }
}

/// Whether a path names a file the browser offers for loading: it must
/// carry one of the two instrument-definition extensions. Whether the
/// path is a regular file at all is the caller's to check.
pub fn is_allowed_file_name(path: &[u8]) -> (r: bool)
    ensures
        r == allowed_instrument_path(path@),
{
    let len = path.len();
    // where the file name starts
    let mut ns: usize = len;
    while ns > 0 && path[ns - 1] != crate::wav_path::SEPARATOR_BYTE
        invariant
            ns <= len,
            len == path@.len(),
            forall|j: int| ns <= j < len ==> path@[j] != crate::wav_path::SEPARATOR_BYTE,
        decreases ns,
    {
        ns = ns - 1;
    }
    proof {
        crate::wav_path::lemma_name_start_at(path@, ns as int);
    }
    // the last dot strictly after the name's first byte
    let mut dot: usize = len;
    let mut i: usize = len;
    while i > 0 && i - 1 > ns
        invariant
            ns <= len,
            i <= len,
            dot <= len,
            ns == name_start(path@),
            len == path@.len(),
            dot == len ==> forall|j: int| i <= j < len ==> path@[j] != DOT_BYTE,
            dot < len ==> ns < dot && i <= dot && path@[dot as int] == DOT_BYTE,
            dot < len ==> forall|j: int| dot < j < len ==> path@[j] != DOT_BYTE,
        decreases i,
    {
        i = i - 1;
        if path[i] == DOT_BYTE && dot == len {
            dot = i;
        }
    }
    proof {
        if dot == len {
            assert(forall|j: int| ns < j < len ==> path@[j] != DOT_BYTE) by {
                assert(i <= ns + 1);
            }
        }
    }
    if dot == len {
        // no dot strictly after the name's first byte: no extension
        proof {
            assert(forall|j: int| name_start(path@) < j < path@.len() ==> path@[j] != DOT_BYTE);
            assert(!has_extension(path@));
        }
        return false;
    }
    proof {
        assert(name_start(path@) < dot < path@.len() && path@[dot as int] == DOT_BYTE);
        assert(has_extension(path@));
        lemma_last_dot_at(path@, dot as int);
    }
    let ext_start = dot + 1;
    let ext_len = len - ext_start;
    if ext_len == 5 {
        let hit = path[ext_start] == 0x6F && path[ext_start + 1] == 0x72 && path[ext_start + 2]
            == 0x67 && path[ext_start + 3] == 0x61 && path[ext_start + 4] == 0x6E;
        proof {
            let ext = path@.subrange(dot + 1, len as int);
            if hit {
                assert(ext =~= organ_extension());
            } else {
                assert(ext != organ_extension()) by {
                    if ext == organ_extension() {
                        assert(ext[0] == 0x6F && ext[1] == 0x72 && ext[2] == 0x67 && ext[3] == 0x61
                            && ext[4] == 0x6E);
                    }
                }
                assert(ext != hauptwerk_extension()) by {
                    if ext == hauptwerk_extension() {
                        assert(ext.len() == 19);
                    }
                }
            }
        }
        return hit;
    }
    if ext_len == 19 {
        let hit = path[ext_start] == 0x4F && path[ext_start + 1] == 0x72 && path[ext_start + 2]
            == 0x67 && path[ext_start + 3] == 0x61 && path[ext_start + 4] == 0x6E && path[ext_start
            + 5] == 0x5F && path[ext_start + 6] == 0x48 && path[ext_start + 7] == 0x61
            && path[ext_start + 8] == 0x75 && path[ext_start + 9] == 0x70 && path[ext_start + 10]
            == 0x74 && path[ext_start + 11] == 0x77 && path[ext_start + 12] == 0x65 && path[
            ext_start + 13] == 0x72 && path[ext_start + 14] == 0x6B && path[ext_start + 15] == 0x5F
            && path[ext_start + 16] == 0x78 && path[ext_start + 17] == 0x6D && path[ext_start + 18]
            == 0x6C;
        proof {
            let ext = path@.subrange(dot + 1, len as int);
            if hit {
                assert(ext =~= hauptwerk_extension());
            } else {
                assert(ext != hauptwerk_extension()) by {
                    if ext == hauptwerk_extension() {
                        assert(ext[0] == 0x4F && ext[1] == 0x72 && ext[2] == 0x67 && ext[3] == 0x61
                            && ext[4] == 0x6E && ext[5] == 0x5F && ext[6] == 0x48 && ext[7] == 0x61
                            && ext[8] == 0x75 && ext[9] == 0x70 && ext[10] == 0x74 && ext[11]
                            == 0x77 && ext[12] == 0x65 && ext[13] == 0x72 && ext[14] == 0x6B && ext[
                            15] == 0x5F && ext[16] == 0x78 && ext[17] == 0x6D && ext[18] == 0x6C);
                    }
                }
                assert(ext != organ_extension()) by {
                    if ext == organ_extension() {
                        assert(ext.len() == 5);
                    }
                }
            }
        }
        return hit;
    }
    proof {
        let ext = path@.subrange(dot + 1, len as int);
        assert(ext.len() != 5 && ext.len() != 19);
    }
    false
}

/// The browser's cursor over the entry list. An empty list has no
/// selection.
pub struct PickerCursor {
    pub selected: Option<usize>,
    pub count: usize,
}

/// What selecting the current entry means for the loop around the
/// browser.
#[derive(Clone, Copy, Debug, PartialEq, Eq, Structural)]
pub enum PickerActivation {
    /// A directory: descend into it and reload the entries.
    EnterDirectory,
    /// An allowed instrument file: the browse is over.
    ChooseFile,
    /// Anything else, or no selection: nothing happens.
    Ignore,
}

impl PickerCursor {
    /// The selection stays on an entry whenever there is one.
    pub open spec fn wf(self) -> bool {
        match self.selected {
            Some(i) => i < self.count,
            None => true,
        }
    }

    /// A fresh cursor: the first entry when the list is not empty.
    pub fn new(count: usize) -> (c: PickerCursor)
        ensures
            c.wf(),
            c.count == count,
            count > 0 ==> c.selected == Some(0usize),
            count == 0 ==> c.selected is None,
    {
        PickerCursor { selected: if count > 0 { Some(0) } else { None }, count }
    }

    /// Moves to the next entry, wrapping; from no selection, the first.
    pub fn next_item(&mut self)
        requires
            old(self).wf(),
        ensures
            final(self).wf(),
            final(self).count == old(self).count,
            old(self).count == 0 ==> final(self).selected == old(self).selected,
            old(self).count > 0 ==> final(self).selected == Some(
                (match old(self).selected {
                    Some(i) => ((i + 1) as int % old(self).count as int) as usize,
                    None => 0usize,
                }),
            ),
    {
        if self.count == 0 {
            return ;
        }
        let next = match self.selected {
            Some(i) => (i + 1) % self.count,
            None => 0,
        };
        self.selected = Some(next);
    }

    /// Moves to the previous entry, wrapping; from no selection, the
    /// first.
    pub fn prev_item(&mut self)
        requires
            old(self).wf(),
        ensures
            final(self).wf(),
            final(self).count == old(self).count,
            old(self).count == 0 ==> final(self).selected == old(self).selected,
            old(self).count > 0 ==> final(self).selected == Some(
                (match old(self).selected {
                    Some(i) => if i == 0 {
                        (old(self).count - 1) as usize
                    } else {
                        (i - 1) as usize
                    },
                    None => 0usize,
                }),
            ),
    {
        if self.count == 0 {
            return ;
        }
        let next = match self.selected {
            Some(i) => if i == 0 {
                self.count - 1
            } else {
                i - 1
            },
            None => 0,
        };
        self.selected = Some(next);
    }
}

/// What activating the selected entry does: descend into a directory,
/// finish on an allowed instrument file, ignore everything else.
pub fn activate_entry(entry: &PickerEntry) -> (r: PickerActivation)
    ensures
        entry.is_dir ==> r == PickerActivation::EnterDirectory,
        !entry.is_dir && allowed_instrument_path(entry.name@) ==> r == PickerActivation::ChooseFile,
        !entry.is_dir && !allowed_instrument_path(entry.name@) ==> r == PickerActivation::Ignore,
{
    if entry.is_dir {
        PickerActivation::EnterDirectory
    } else if is_allowed_file_name(entry.name.as_slice()) {
        PickerActivation::ChooseFile
    } else {
        PickerActivation::Ignore
    }
}

} // verus!
