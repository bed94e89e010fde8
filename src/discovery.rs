//! Which entries of the root directory are guest binaries, and under which
//! identifiers they are offered.
use vstd::prelude::*;
use vstd::utf8::encode_utf8;

verus! {

/// One entry of a directory listing: its file name and whether it is a
/// regular file.
#[derive(Debug)]
pub struct DirEntry {
    pub name: String,
    pub is_file: bool,
}

/// Index of the last '.' in `name`, or -1 when there is none.
pub open spec fn last_dot(name: Seq<char>) -> int
    decreases name.len(),
{
    if name.len() == 0 {
        -1
    } else if name.last() == '.' {
        name.len() - 1
    } else {
        last_dot(name.drop_last())
    }
}

proof fn lemma_last_dot_bounds(name: Seq<char>)
    ensures
        -1 <= last_dot(name) < name.len(),
    decreases name.len(),
{
    if name.len() > 0 && name.last() != '.' {
        lemma_last_dot_bounds(name.drop_last());
    }
}

/// The extension of a file name: what follows its last '.', unless that dot
/// is the first character (a hidden file such as ".wasm" has none).
pub open spec fn extension_of(name: Seq<char>) -> Option<Seq<char>> {
    let d = last_dot(name);
    if d <= 0 {
        None
    } else {
        Some(name.subrange(d + 1, name.len() as int))
    }
}

/// The file name without its extension.
pub open spec fn stem_of(name: Seq<char>) -> Seq<char> {
    let d = last_dot(name);
    if d <= 0 {
        name
    } else {
        name.subrange(0, d)
    }
}

pub open spec fn is_guest_binary(e: DirEntry, ext: Seq<char>) -> bool {
    e.is_file && extension_of(e.name@) == Some(ext)
}

/// The identifiers of the guest binaries among `entries`, in listing order.
pub open spec fn discovered_ids(entries: Seq<DirEntry>, ext: Seq<char>) -> Seq<Seq<char>>
    decreases entries.len(),
{
    if entries.len() == 0 {
        seq![]
    } else {
        let before = discovered_ids(entries.drop_last(), ext);
        if is_guest_binary(entries.last(), ext) {
            before.push(stem_of(entries.last().name@))
        } else {
            before
        }
    }
}

/// Lexicographic order on bytes, a proper prefix first.
pub open spec fn bytes_lt(a: Seq<u8>, b: Seq<u8>) -> bool
    decreases a.len(),
{
    if b.len() == 0 {
        false
    } else if a.len() == 0 {
        true
    } else if a[0] != b[0] {
        a[0] < b[0]
    } else {
        bytes_lt(a.drop_first(), b.drop_first())
    }
}

/// Ascending in the order of `String`, which compares the UTF-8 bytes.
pub open spec fn ascending(ids: Seq<Seq<char>>) -> bool {
    forall|i: int, j: int|
        0 <= i < j < ids.len() ==> !bytes_lt(encode_utf8(#[trigger] ids[j]), encode_utf8(
            #[trigger] ids[i],
        ))
}

pub open spec fn views(v: Seq<String>) -> Seq<Seq<char>> {
    v.map_values(|s: String| s@)
}

/// Relies on `slice::sort` over `String`: a stable reordering into ascending
/// `Ord` order, which for strings is byte-wise lexicographic.
#[verifier::external_body]
fn sort_strings(v: &mut Vec<String>)
    ensures
        views(final(v)@).to_multiset() == views(old(v)@).to_multiset(),
        ascending(views(final(v)@)),
{
    v.sort();
}

/// Index of the last '.' in `name`.
fn find_last_dot(name: &str) -> (r: Option<usize>)
    ensures
        match r {
            Some(d) => d as int == last_dot(name@),
            None => last_dot(name@) == -1,
        },
{
    let n = name.unicode_len();
    let mut i: usize = n;
    assert(name@.take(n as int) =~= name@);
    while i > 0
        invariant
            i <= n == name@.len(),
            last_dot(name@) == last_dot(name@.take(i as int)),
        decreases i,
    {
        assert(name@.take(i as int).drop_last() =~= name@.take(i - 1));
        if name.get_char(i - 1) == '.' {
            return Some(i - 1);
        }
        i = i - 1;
    }
    assert(name@.take(0).len() == 0);
    None
}

/// The identifier a listing entry offers, when it is a guest binary.
pub fn guest_id(e: &DirEntry, ext: &str) -> (r: Option<String>)
    ensures
        r is Some <==> is_guest_binary(*e, ext@),
        r matches Some(id) ==> id@ == stem_of(e.name@),
{
    if !e.is_file {
        return None;
    }
    let name = e.name.as_str();
    proof {
        lemma_last_dot_bounds(name@);
    }
    match find_last_dot(name) {
        None => None,
        Some(d) => {
            if d == 0 {
                return None;
            }
            let n = name.unicode_len();
            let found: String = name.substring_char(d + 1, n).to_owned();
            let wanted: String = ext.to_owned();
            if found == wanted {
                Some(name.substring_char(0, d).to_owned())
            } else {
                None
            }
        },
    }
}

/// The identifiers of the guest binaries in a directory listing: the stems
/// of the regular files whose extension is `ext`, in ascending order.
/// Directories and other files are left out.
pub fn select_ids(entries: &Vec<DirEntry>, ext: &str) -> (r: Vec<String>)
    ensures
        views(r@).to_multiset() == discovered_ids(entries@, ext@).to_multiset(),
        ascending(views(r@)),
{
    let mut ids: Vec<String> = Vec::new();
    let mut i: usize = 0;
    while i < entries.len()
        invariant
            i <= entries.len(),
            views(ids@) == discovered_ids(entries@.take(i as int), ext@),
        decreases entries.len() - i,
    {
        let ghost before = ids@;
        assert(entries@.take(i + 1).drop_last() =~= entries@.take(i as int));
        assert(entries@.take(i + 1).last() == entries@[i as int]);
        match guest_id(&entries[i], ext) {
            Some(id) => {
                ids.push(id);
                assert(views(ids@) =~= views(before).push(ids@.last()@));
            },
            None => {},
        }
        i = i + 1;
    }
    assert(entries@.take(entries.len() as int) =~= entries@);
    sort_strings(&mut ids);
    ids
}

} // verus!
