//! Character-level string scanning: prefix tests, first occurrence of a
//! character, suffix extraction and line splitting, each exec function exact
//! against a spec-level definition over `Seq<char>`.

use vstd::prelude::*;
use vstd::string::StrSliceExecFns;
use vstd::string::StringExecFns;

verus! {

/// `p` stands at the front of `s`.
pub open spec fn has_prefix(s: Seq<char>, p: Seq<char>) -> bool {
    p.len() <= s.len() && s.subrange(0, p.len() as int) == p
}

/// The characters of `s` from `from` (inclusive) to its end.
pub open spec fn suffix_from(s: Seq<char>, from: int) -> Seq<char> {
    s.subrange(from, s.len() as int)
}

/// Index of the first occurrence of `c` in `s`; `s.len()` when `c` does not
/// occur.
pub open spec fn find_char_idx(s: Seq<char>, c: char) -> nat
    decreases s.len(),
{
    if s.len() == 0 {
        0
    } else if s[0] == c {
        0
    } else {
        1 + find_char_idx(s.subrange(1, s.len() as int), c)
    }
}

proof fn lemma_find_char_idx(s: Seq<char>, c: char)
    ensures
        find_char_idx(s, c) <= s.len(),
        find_char_idx(s, c) < s.len() ==> s[find_char_idx(s, c) as int] == c,
        forall|j: int| 0 <= j < find_char_idx(s, c) ==> s[j] != c,
    decreases s.len(),
{
    if s.len() == 0 {
    } else if s[0] == c {
    } else {
        let t = s.subrange(1, s.len() as int);
        lemma_find_char_idx(t, c);
        assert forall|j: int| 0 <= j < find_char_idx(s, c) implies s[j] != c by {
            if j > 0 {
                assert(t[j - 1] == s[j]);
            }
        }
    }
}

/// The first index of `c` in `s` is whatever index holds `c` with none of `c`
/// before it.
proof fn lemma_find_char_idx_unique(s: Seq<char>, c: char, i: int)
    requires
        0 <= i <= s.len(),
        i < s.len() ==> s[i] == c,
        i == s.len() ==> forall|j: int| 0 <= j < s.len() ==> s[j] != c,
        forall|j: int| 0 <= j < i ==> s[j] != c,
    ensures
        find_char_idx(s, c) == i,
{
    lemma_find_char_idx(s, c);
    let f = find_char_idx(s, c) as int;
    if f < i {
        assert(s[f] == c);
    } else if i < f {
        assert(s[i] != c);
    }
}

/// The lines of `s`, split on newline characters; a trailing newline yields
/// no empty final line.
pub open spec fn split_lines(s: Seq<char>) -> Seq<Seq<char>>
    decreases s.len(),
{
    if s.len() == 0 {
        Seq::empty()
    } else {
        let i = find_char_idx(s, '\n');
        if i >= s.len() {
            seq![s]
        } else {
            seq![s.subrange(0, i as int)] + split_lines(suffix_from(s, i as int + 1))
        }
    }
}

/// Whether `p` stands at the front of `s`.
pub fn str_has_prefix(s: &str, p: &str) -> (b: bool)
    ensures
        b == has_prefix(s@, p@),
{
    let slen = s.unicode_len();
    let plen = p.unicode_len();
    if plen > slen {
        return false;
    }
    let mut i: usize = 0;
    while i < plen
        invariant
            0 <= i <= plen,
            plen <= slen,
            plen == p@.len(),
            slen == s@.len(),
            forall|j: int| 0 <= j < i ==> s@[j] == p@[j],
        decreases plen - i,
    {
        let sc = s.get_char(i);
        let pc = p.get_char(i);
        if sc != pc {
            proof {
                assert(s@.subrange(0, p@.len() as int)[i as int] != p@[i as int]);
            }
            return false;
        }
        i += 1;
    }
    proof {
        assert(s@.subrange(0, p@.len() as int) =~= p@);
    }
    true
}

/// First index at or after `from` where `c` stands in `s`; the length of `s`
/// when `c` does not occur there.
pub fn str_find_char_from(s: &str, from: usize, c: char) -> (i: usize)
    requires
        from <= s@.len(),
    ensures
        from <= i <= s@.len(),
        i - from == find_char_idx(suffix_from(s@, from as int), c),
{
    let len = s.unicode_len();
    let mut i: usize = from;
    let ghost t = suffix_from(s@, from as int);
    while i < len
        invariant
            from <= i <= len,
            len == s@.len(),
            t == suffix_from(s@, from as int),
            forall|j: int| 0 <= j < i - from ==> t[j] != c,
        decreases len - i,
    {
        let sc = s.get_char(i);
        if sc == c {
            proof {
                assert(t[i - from] == c);
                lemma_find_char_idx_unique(t, c, i - from);
            }
            return i;
        }
        proof {
            assert(t[i - from] == s@[i as int]);
        }
        i += 1;
    }
    proof {
        lemma_find_char_idx_unique(t, c, t.len() as int);
    }
    len
}

/// Owned copy of the characters of `s` from `from` to its end.
pub fn str_suffix(s: &str, from: usize) -> (r: String)
    requires
        from <= s@.len(),
    ensures
        r@ == suffix_from(s@, from as int),
{
    let len = s.unicode_len();
    String::from_str(s.substring_char(from, len))
}

/// The lines of `s`, split on newline characters.
pub fn split_source_lines(s: &str) -> (lines: Vec<String>)
    ensures
        lines@.map_values(|l: String| l@) == split_lines(s@),
{
    let len = s.unicode_len();
    let mut lines: Vec<String> = Vec::new();
    let mut pos: usize = 0;
    proof {
        assert(lines@.map_values(|l: String| l@) =~= Seq::<Seq<char>>::empty());
        assert(Seq::<Seq<char>>::empty() + split_lines(suffix_from(s@, 0)) =~= split_lines(
            suffix_from(s@, 0),
        ));
        assert(suffix_from(s@, 0) =~= s@);
    }
    while pos < len
        invariant
            0 <= pos <= len,
            len == s@.len(),
            lines@.map_values(|l: String| l@) + split_lines(suffix_from(s@, pos as int))
                == split_lines(s@),
        decreases len - pos,
    {
        let ghost rem = suffix_from(s@, pos as int);
        let nl = str_find_char_from(s, pos, '\n');
        let line = String::from_str(s.substring_char(pos, nl));
        proof {
            assert(line@ =~= rem.subrange(0, nl - pos));
        }
        lines.push(line);
        proof {
            assert(lines@.map_values(|l: String| l@) =~= lines@.map_values(
                |l: String| l@,
            ).drop_last().push(line@));
        }
        if nl == len {
            proof {
                assert(rem.subrange(0, nl - pos) =~= rem);
                assert(split_lines(rem) == seq![rem]);
                assert(suffix_from(s@, len as int).len() == 0);
                assert(lines@.map_values(|l: String| l@) + split_lines(
                    suffix_from(s@, len as int),
                ) =~= split_lines(s@));
            }
            pos = len;
        } else {
            proof {
                assert(split_lines(rem) == seq![rem.subrange(0, nl - pos)] + split_lines(
                    suffix_from(rem, nl - pos + 1),
                ));
                assert(suffix_from(rem, nl - pos + 1) =~= suffix_from(s@, nl as int + 1));
                assert(lines@.map_values(|l: String| l@) + split_lines(
                    suffix_from(s@, nl as int + 1),
                ) =~= split_lines(s@));
            }
            pos = nl + 1;
        }
    }
    proof {
        assert(suffix_from(s@, pos as int).len() == 0);
        assert(lines@.map_values(|l: String| l@) + split_lines(suffix_from(s@, pos as int))
            =~= lines@.map_values(|l: String| l@));
    }
    lines
}

} // verus!
