use vstd::prelude::*;
use vstd::string::StrSliceExecFns;
use vstd::string::StringExecFns;

verus! {

/// True when `n` ends in `.dll` (case-sensitive, as the file enumeration
/// pattern matches).
pub open spec fn has_dll_ext(n: Seq<char>) -> bool {
    &&& n.len() >= 4
    &&& n[n.len() - 4] == '.'
    &&& n[n.len() - 3] == 'd'
    &&& n[n.len() - 2] == 'l'
    &&& n[n.len() - 1] == 'l'
}

/// True when `n` ends in `.exe` (case-sensitive).
pub open spec fn has_exe_ext(n: Seq<char>) -> bool {
    &&& n.len() >= 4
    &&& n[n.len() - 4] == '.'
    &&& n[n.len() - 3] == 'e'
    &&& n[n.len() - 2] == 'x'
    &&& n[n.len() - 1] == 'e'
}

/// Only libraries and executables get their download-zone marker removed.
pub open spec fn is_strippable_view(n: Seq<char>) -> bool {
    has_dll_ext(n) || has_exe_ext(n)
}

/// Whether the file at `path` is one whose download-zone marker the installer
/// removes: its name must end in `.dll` or `.exe`.
pub fn is_strippable(path: &str) -> (r: bool)
    ensures
        r == is_strippable_view(path@),
{
    let len = path.unicode_len();
    if len < 4 {
        return false;
    }
    let c0 = path.get_char(len - 4);
    let c1 = path.get_char(len - 3);
    let c2 = path.get_char(len - 2);
    let c3 = path.get_char(len - 1);
    c0 == '.' && ((c1 == 'd' && c2 == 'l' && c3 == 'l') || (c1 == 'e' && c2 == 'x' && c3 == 'e'))
}

/// The alternate-stream name that marks `path` as downloaded from an
/// untrusted zone.
pub open spec fn zone_marker_view(path: Seq<char>) -> Seq<char> {
    path + ":Zone.Identifier"@
}

/// The path of the download-zone marker stream of the file at `path`.
/// `path` is expected to name a plain file, so the marker is the path itself
/// with the stream suffix appended.
pub fn zone_marker_path(path: &str) -> (r: String)
    ensures
        r@ == zone_marker_view(path@),
{
    String::from_str(path).concat(":Zone.Identifier")
}

/// The marker streams to delete for an enumerated file tree: one marker per
/// `.dll` or `.exe` file, in enumeration order, and nothing for any other
/// file.
pub open spec fn zone_targets_view(files: Seq<Seq<char>>) -> Seq<Seq<char>>
    decreases files.len(),
{
    if files.len() == 0 {
        Seq::empty()
    } else {
        let rest = zone_targets_view(files.drop_first());
        if is_strippable_view(files.first()) {
            seq![zone_marker_view(files.first())] + rest
        } else {
            rest
        }
    }
}

proof fn lemma_zone_targets_push(files: Seq<Seq<char>>, f: Seq<char>)
    ensures
        zone_targets_view(files.push(f)) == zone_targets_view(files) + (if is_strippable_view(f) {
            seq![zone_marker_view(f)]
        } else {
            Seq::<Seq<char>>::empty()
        }),
    decreases files.len(),
{
    let tail = (if is_strippable_view(f) {
        seq![zone_marker_view(f)]
    } else {
        Seq::<Seq<char>>::empty()
    });
    if files.len() == 0 {
        assert(files.push(f).drop_first() =~= files);
        assert(zone_targets_view(files.push(f)) =~= zone_targets_view(files) + tail);
    } else {
        assert(files.push(f).drop_first() =~= files.drop_first().push(f));
        lemma_zone_targets_push(files.drop_first(), f);
        assert(zone_targets_view(files.push(f)) =~= zone_targets_view(files) + tail);
    }
}

/// Computes the marker streams to delete, given every file found under the
/// install tree: exactly the `.dll` and `.exe` files' markers, in order.
pub fn zone_marker_targets(files: &Vec<String>) -> (r: Vec<String>)
    ensures
        r.deep_view() == zone_targets_view(files.deep_view()),
{
    let ghost all = files.deep_view();
    let mut r: Vec<String> = Vec::new();
    let mut i: usize = 0;
    while i < files.len()
        invariant
            i <= files.len(),
            all == files.deep_view(),
            all.len() == files.len(),
            r.deep_view() == zone_targets_view(all.take(i as int)),
        decreases files.len() - i,
    {
        let f = &files[i];
        if is_strippable(f.as_str()) {
            let marker = zone_marker_path(f.as_str());
            let ghost old_r = r.deep_view();
            r.push(marker);
            proof {
                assert(r.deep_view() =~= old_r.push(zone_marker_view(all[i as int])));
            }
        }
        proof {
            lemma_zone_targets_push(all.take(i as int), all[i as int]);
            assert(all.take(i + 1) =~= all.take(i as int).push(all[i as int]));
            assert(r.deep_view() =~= zone_targets_view(all.take(i + 1)));
        }
        i += 1;
    }
    proof {
        assert(all.take(files.len() as int) =~= all);
    }
    r
}

/// Appending the marker suffix is injective: two files share a marker stream
/// only if they are the same file.
pub proof fn lemma_zone_marker_injective(a: Seq<char>, b: Seq<char>)
    requires
        zone_marker_view(a) == zone_marker_view(b),
    ensures
        a == b,
{
    assert((a + ":Zone.Identifier"@).len() == a.len() + ":Zone.Identifier"@.len());
    assert((b + ":Zone.Identifier"@).len() == b.len() + ":Zone.Identifier"@.len());
    assert(a.len() == b.len());
    assert(a =~= zone_marker_view(a).subrange(0, a.len() as int));
    assert(b =~= zone_marker_view(b).subrange(0, b.len() as int));
}

proof fn lemma_zone_targets_members(files: Seq<Seq<char>>, t: Seq<char>)
    requires
        zone_targets_view(files).contains(t),
    ensures
        exists|i: int|
            0 <= i < files.len() && is_strippable_view(files[i]) && t == zone_marker_view(
                files[i],
            ),
    decreases files.len(),
{
    let rest = zone_targets_view(files.drop_first());
    if is_strippable_view(files.first()) && t == zone_marker_view(files.first()) {
        assert(0 <= 0 < files.len() && is_strippable_view(files[0]) && t == zone_marker_view(
            files[0],
        ));
    } else {
        if is_strippable_view(files.first()) {
            let full = seq![zone_marker_view(files.first())] + rest;
            let j = choose|j: int| 0 <= j < full.len() && full[j] == t;
            assert(rest[j - 1] == t);
            assert(rest.contains(t));
        }
        lemma_zone_targets_members(files.drop_first(), t);
        let i = choose|i: int|
            0 <= i < files.drop_first().len() && is_strippable_view(files.drop_first()[i])
                && t == zone_marker_view(files.drop_first()[i]);
        assert(files.drop_first()[i] == files[i + 1]);
    }
}

/// Law: zone-marker removal touches exactly the `.dll` and `.exe` files.
/// A file whose name has any other extension — however the rest of its path
/// looks, and whether or not its marker stream exists — never has its marker
/// among the deletion targets; every strippable file in the enumeration does.
pub proof fn lemma_zone_targets_exactly_strippable(files: Seq<Seq<char>>, f: Seq<char>)
    ensures
        files.contains(f) && is_strippable_view(f) ==> zone_targets_view(files).contains(
            zone_marker_view(f),
        ),
        !is_strippable_view(f) ==> !zone_targets_view(files).contains(zone_marker_view(f)),
    decreases files.len(),
{
    if files.contains(f) && is_strippable_view(f) {
        lemma_zone_targets_contains_member(files, f);
    }
    if !is_strippable_view(f) && zone_targets_view(files).contains(zone_marker_view(f)) {
        lemma_zone_targets_members(files, zone_marker_view(f));
        let i = choose|i: int|
            0 <= i < files.len() && is_strippable_view(files[i]) && zone_marker_view(f)
                == zone_marker_view(files[i]);
        lemma_zone_marker_injective(f, files[i]);
    }
}

proof fn lemma_zone_targets_contains_member(files: Seq<Seq<char>>, f: Seq<char>)
    requires
        files.contains(f),
        is_strippable_view(f),
    ensures
        zone_targets_view(files).contains(zone_marker_view(f)),
    decreases files.len(),
{
    let rest = zone_targets_view(files.drop_first());
    if files.first() == f {
        assert(zone_targets_view(files)[0] == zone_marker_view(f));
    } else {
        let i = choose|i: int| 0 <= i < files.len() && files[i] == f;
        assert(files.drop_first()[i - 1] == f);
        assert(files.drop_first().contains(f));
        lemma_zone_targets_contains_member(files.drop_first(), f);
        let j = choose|j: int| 0 <= j < rest.len() && rest[j] == zone_marker_view(f);
        if is_strippable_view(files.first()) {
            assert(zone_targets_view(files)[j + 1] == zone_marker_view(f));
        } else {
            assert(zone_targets_view(files)[j] == zone_marker_view(f));
        }
    }
}

} // verus!
