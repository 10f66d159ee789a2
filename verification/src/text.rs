//! Text helpers shared by the decoder and the key rules.

use vstd::prelude::*;
use vstd::string::StringSliceAdditionalSpecFns;
use vstd::utf8::encode_utf8_decode_utf8;

verus! {

/// Whether two strings hold the same characters.
pub fn same_text(a: &str, b: &str) -> (same: bool)
    ensures
        same == (a@ == b@),
{
    let x = a.as_bytes();
    let y = b.as_bytes();
    if x.len() != y.len() {
        return false;
    }
    let mut i: usize = 0;
    while i < x.len()
        invariant
            x@ == a.spec_bytes(),
            y@ == b.spec_bytes(),
            x.len() == y.len(),
            i <= x.len(),
            forall|j: int| 0 <= j < i ==> x@[j] == y@[j],
        decreases x.len() - i,
    {
        if x[i] != y[i] {
            return false;
        }
        i += 1;
    }
    proof {
        assert(x@ =~= y@);
        encode_utf8_decode_utf8(a@);
        encode_utf8_decode_utf8(b@);
    }
    true
}

/// The parts into which `sep` divides `s`, in order. A text without `sep` is
/// its own single part; a `sep` at either end leaves an empty part there.
pub open spec fn split_on(s: Seq<char>, sep: char) -> Seq<Seq<char>>
    decreases s.len(),
{
    if s.len() == 0 {
        seq![Seq::<char>::empty()]
    } else {
        let parts = split_on(s.drop_last(), sep);
        if s.last() == sep {
            parts.push(Seq::<char>::empty())
        } else {
            parts.update(parts.len() - 1, parts.last().push(s.last()))
        }
    }
}

/// The parts put together again, with `sep` between neighbours.
pub open spec fn join_with(parts: Seq<Seq<char>>, sep: char) -> Seq<char>
    decreases parts.len(),
{
    if parts.len() == 0 {
        Seq::<char>::empty()
    } else if parts.len() == 1 {
        parts[0]
    } else {
        join_with(parts.drop_last(), sep) + seq![sep] + parts.last()
    }
}

/// Splitting never yields an empty list, and no part holds the separator.
pub proof fn split_on_parts(s: Seq<char>, sep: char)
    ensures
        split_on(s, sep).len() >= 1,
        forall|i: int| 0 <= i < split_on(s, sep).len() ==> !(#[trigger] split_on(s, sep)[i]).contains(sep),
    decreases s.len(),
{
    if s.len() == 0 {
    } else {
        split_on_parts(s.drop_last(), sep);
        let before = split_on(s.drop_last(), sep);
        let after = split_on(s, sep);
        assert forall|i: int| 0 <= i < after.len() implies !(#[trigger] after[i]).contains(sep) by {
            if i < before.len() - 1 {
                assert(after[i] == before[i]);
            } else if s.last() == sep {
                if i == before.len() - 1 {
                    assert(after[i] == before[i]);
                }
            } else {
                let grown = before.last().push(s.last());
                assert(after[i] == grown);
                if grown.contains(sep) {
                    let k: int = choose|k: int| 0 <= k < grown.len() && grown[k] == sep;
                    assert(before.last()[k] == sep);
                    assert(before.last().contains(sep));
                }
            }
        }
    }
}

/// A text that does not hold the separator is its own single part.
pub proof fn split_on_whole(s: Seq<char>, sep: char)
    requires
        !s.contains(sep),
    ensures
        split_on(s, sep) == seq![s],
    decreases s.len(),
{
    if s.len() == 0 {
        assert(s =~= Seq::<char>::empty());
    } else {
        let head = s.drop_last();
        assert(!head.contains(sep)) by {
            if head.contains(sep) {
                let k: int = choose|k: int| 0 <= k < head.len() && head[k] == sep;
                assert(s[k] == sep);
            }
        }
        split_on_whole(head, sep);
        assert(s[s.len() - 1] != sep);
        assert(head.push(s.last()) =~= s);
        assert(split_on(s, sep) =~= seq![s]);
    }
}

/// Splitting two texts joined by one separator gives the parts of the first
/// followed by the parts of the second.
pub proof fn split_on_joined(a: Seq<char>, b: Seq<char>, sep: char)
    ensures
        split_on(a + seq![sep] + b, sep) == split_on(a, sep) + split_on(b, sep),
    decreases b.len(),
{
    let whole = a + seq![sep] + b;
    if b.len() == 0 {
        assert(whole.drop_last() =~= a);
        assert(split_on(whole, sep) =~= split_on(a, sep) + split_on(b, sep));
    } else {
        split_on_joined(a, b.drop_last(), sep);
        split_on_parts(b.drop_last(), sep);
        assert(whole.drop_last() =~= a + seq![sep] + b.drop_last());
        assert(whole.last() == b.last());
        assert(split_on(whole, sep) =~= split_on(a, sep) + split_on(b, sep));
    }
}

/// Joining the parts of a text gives the text back.
pub proof fn join_of_split(s: Seq<char>, sep: char)
    ensures
        join_with(split_on(s, sep), sep) == s,
    decreases s.len(),
{
    if s.len() == 0 {
    } else {
        let head = s.drop_last();
        join_of_split(head, sep);
        split_on_parts(head, sep);
        let before = split_on(head, sep);
        let after = split_on(s, sep);
        if s.last() == sep {
            assert(after.drop_last() =~= before);
            assert(join_with(after, sep) =~= join_with(before, sep) + seq![sep] + after.last());
            assert(head + seq![sep] + Seq::<char>::empty() =~= s);
        } else if before.len() == 1 {
            assert(after[0] == before[0].push(s.last()));
            assert(head.push(s.last()) =~= s);
        } else {
            assert(after.drop_last() =~= before.drop_last());
            assert(join_with(before, sep) == join_with(before.drop_last(), sep) + seq![sep] + before.last());
            assert(join_with(after, sep) == join_with(after.drop_last(), sep) + seq![sep] + after.last());
            assert(after.last() == before.last().push(s.last()));
            assert(head.push(s.last()) =~= s);
            assert(join_with(after, sep) =~= s);
        }
    }
}

/// Whether a key matches a pattern in which `*` stands for any run of
/// characters, the empty one too, and every other character for itself.
pub open spec fn glob_matches(pattern: Seq<char>, key: Seq<char>) -> bool
    decreases pattern.len(), key.len(),
{
    if pattern.len() == 0 {
        key.len() == 0
    } else if pattern[0] == '*' {
        glob_matches(pattern.drop_first(), key) || (key.len() > 0 && glob_matches(
            pattern,
            key.drop_first(),
        ))
    } else {
        key.len() > 0 && key[0] == pattern[0] && glob_matches(
            pattern.drop_first(),
            key.drop_first(),
        )
    }
}

/// A pattern that begins with `*` matches a key whenever the rest of the
/// pattern matches what is left of the key after some of its characters.
pub proof fn glob_star_skips(rest: Seq<char>, key: Seq<char>, n: int)
    requires
        0 <= n <= key.len(),
        glob_matches(rest, key.skip(n)),
    ensures
        glob_matches(seq!['*'] + rest, key),
    decreases n,
{
    let pattern = seq!['*'] + rest;
    assert(pattern.drop_first() =~= rest);
    if n == 0 {
        assert(key.skip(0) =~= key);
    } else {
        assert(key.drop_first().skip(n - 1) =~= key.skip(n));
        glob_star_skips(rest, key.drop_first(), n - 1);
    }
}

/// A lone `*` matches every key.
pub proof fn glob_star_matches_all(key: Seq<char>)
    ensures
        glob_matches(seq!['*'], key),
{
    assert(key.skip(key.len() as int) =~= Seq::<char>::empty());
    glob_star_skips(Seq::<char>::empty(), key, key.len() as int);
    assert(seq!['*'] + Seq::<char>::empty() =~= seq!['*']);
}

/// Every text matches itself, whatever it holds.
pub proof fn glob_matches_itself(s: Seq<char>)
    ensures
        glob_matches(s, s),
    decreases s.len(),
{
    if s.len() > 0 {
        glob_matches_itself(s.drop_first());
        if s[0] == '*' {
            assert(s.skip(1) =~= s.drop_first());
            glob_star_skips(s.drop_first(), s, 1);
            assert(seq!['*'] + s.drop_first() =~= s);
        }
    }
}

/// Where two patterns match two keys, the patterns put together match the keys put together.
pub proof fn glob_matches_joined(
    pattern: Seq<char>,
    key: Seq<char>,
    more_pattern: Seq<char>,
    more_key: Seq<char>,
)
    requires
        glob_matches(pattern, key),
        glob_matches(more_pattern, more_key),
    ensures
        glob_matches(pattern + more_pattern, key + more_key),
    decreases pattern.len(), key.len(),
{
    if pattern.len() == 0 {
        assert(pattern + more_pattern =~= more_pattern);
        assert(key + more_key =~= more_key);
    } else {
        assert((pattern + more_pattern).drop_first() =~= pattern.drop_first() + more_pattern);
        assert((pattern + more_pattern)[0] == pattern[0]);
        if pattern[0] == '*' {
            if glob_matches(pattern.drop_first(), key) {
                glob_matches_joined(pattern.drop_first(), key, more_pattern, more_key);
            } else {
                assert((key + more_key).drop_first() =~= key.drop_first() + more_key);
                glob_matches_joined(pattern, key.drop_first(), more_pattern, more_key);
            }
        } else {
            assert((key + more_key).drop_first() =~= key.drop_first() + more_key);
            assert((key + more_key)[0] == key[0]);
            glob_matches_joined(pattern.drop_first(), key.drop_first(), more_pattern, more_key);
        }
    }
}

} // verus!
