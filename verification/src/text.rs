use vstd::prelude::*;
use vstd::string::StrSliceExecFns;
use vstd::string::StringExecFns;

verus! {

/// True when the verbatim path prefix `\\?\` (as produced by canonicalising a
/// path on the host) starts at position `i` of `s`.
pub open spec fn verbatim_prefix_at(s: Seq<char>, i: int) -> bool {
    &&& 0 <= i
    &&& i + 4 <= s.len()
    &&& s[i] == '\\'
    &&& s[i + 1] == '\\'
    &&& s[i + 2] == '?'
    &&& s[i + 3] == '\\'
}

/// `s` with every occurrence of `\\?\` removed, scanning left to right over
/// non-overlapping occurrences.
pub open spec fn without_verbatim(s: Seq<char>) -> Seq<char>
    decreases s.len(),
{
    if s.len() == 0 {
        Seq::empty()
    } else if verbatim_prefix_at(s, 0) {
        without_verbatim(s.subrange(4, s.len() as int))
    } else {
        seq![s[0]] + without_verbatim(s.subrange(1, s.len() as int))
    }
}

/// Removes every occurrence of the verbatim path prefix `\\?\` from `s`, so
/// that a canonicalised path can be embedded in a shortcut script.
pub fn strip_verbatim(s: &str) -> (r: String)
    ensures
        r@ == without_verbatim(s@),
    decreases s@.len(),
{
    let len = s.unicode_len();
    if len == 0 {
        String::new()
    } else if len >= 4 && s.get_char(0) == '\\' && s.get_char(1) == '\\' && s.get_char(2) == '?'
        && s.get_char(3) == '\\' {
        let rest = s.substring_char(4, len);
        strip_verbatim(rest)
    } else {
        let head = s.substring_char(0, 1);
        let rest = s.substring_char(1, len);
        let tail = strip_verbatim(rest);
        let r = String::from_str(head).concat(tail.as_str());
        proof {
            assert(head@ + tail@ =~= seq![s@[0]] + without_verbatim(s@.subrange(1, s@.len() as int)));
        }
        r
    }
}

/// True when `needle` occurs in `hay` starting at position `i`.
pub open spec fn has_substr_at(hay: Seq<char>, needle: Seq<char>, i: int) -> bool {
    &&& 0 <= i
    &&& i + needle.len() <= hay.len()
    &&& hay.subrange(i, i + needle.len()) == needle
}

/// True when `needle` occurs somewhere in `hay`.
pub open spec fn contains_seq(hay: Seq<char>, needle: Seq<char>) -> bool {
    exists|i: int| has_substr_at(hay, needle, i)
}

/// Whether `needle` occurs as a substring of `hay`.
pub fn contains_substr(hay: &str, needle: &str) -> (r: bool)
    ensures
        r == contains_seq(hay@, needle@),
{
    let hlen = hay.unicode_len();
    let nlen = needle.unicode_len();
    if nlen > hlen {
        proof {
            assert forall|i: int| !has_substr_at(hay@, needle@, i) by {}
        }
        return false;
    }
    let mut i: usize = 0;
    while i <= hlen - nlen
        invariant
            nlen <= hlen,
            hlen == hay@.len(),
            nlen == needle@.len(),
            i <= hlen - nlen + 1,
            forall|j: int| 0 <= j < i ==> !has_substr_at(hay@, needle@, j),
        decreases hlen - nlen - i + 1,
    {
        let mut j: usize = 0;
        let mut matched = true;
        while j < nlen
            invariant
                nlen <= hlen,
                hlen == hay@.len(),
                nlen == needle@.len(),
                i <= hlen - nlen,
                j <= nlen,
                matched <==> (forall|k: int| 0 <= k < j ==> hay@[i + k] == needle@[k]),
            decreases nlen - j,
        {
            if hay.get_char(i + j) != needle.get_char(j) {
                matched = false;
                j = nlen;
            } else {
                j = j + 1;
            }
        }
        if matched {
            proof {
                assert(hay@.subrange(i as int, i + nlen as int) =~= needle@);
                assert(has_substr_at(hay@, needle@, i as int));
            }
            return true;
        }
        proof {
            let k = choose|k: int| 0 <= k < nlen && hay@[i + k] != needle@[k];
            assert forall|j: int| 0 <= j < i + 1 implies !has_substr_at(hay@, needle@, j) by {
                if j == i && has_substr_at(hay@, needle@, j) {
                    assert(hay@.subrange(j, j + needle@.len())[k] == hay@[j + k]);
                }
            }
        }
        i = i + 1;
    }
    proof {
        assert forall|j: int| !has_substr_at(hay@, needle@, j) by {
            if 0 <= j <= hlen - nlen {
                assert(!has_substr_at(hay@, needle@, j));
            }
        }
    }
    false
}

/// The flag whose presence, as a substring of any argument, selects the
/// uninstall flow.
pub fn uninstall_flag() -> (r: &'static str)
    ensures
        r@ == "--uninstall"@,
{
    "--uninstall"
}

/// Whether the process was invoked to uninstall: some argument holds the
/// uninstall flag as a substring.
pub fn is_uninstall_invocation(args: &Vec<String>) -> (r: bool)
    ensures
        r == exists|k: int|
            0 <= k < args.deep_view().len() && contains_seq(args.deep_view()[k], "--uninstall"@),
{
    let mut i: usize = 0;
    while i < args.len()
        invariant
            i <= args.len(),
            forall|k: int| 0 <= k < i ==> !contains_seq(args.deep_view()[k], "--uninstall"@),
        decreases args.len() - i,
    {
        if contains_substr(args[i].as_str(), uninstall_flag()) {
            proof {
                assert(args.deep_view()[i as int] == args@[i as int]@);
            }
            return true;
        }
        proof {
            assert(args.deep_view()[i as int] == args@[i as int]@);
        }
        i = i + 1;
    }
    false
}

} // verus!
