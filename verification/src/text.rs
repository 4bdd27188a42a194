//! Small operations on text, stated over sequences of characters.

use vstd::prelude::*;

verus! {

/// `String::push` appends one character at the end of the string.
pub assume_specification[ String::push ](s: &mut String, c: char)
    ensures
        final(s)@ == old(s)@.push(c),
;

/// The test that a character is not `c`.
pub open spec fn differs_from(c: char) -> spec_fn(char) -> bool {
    |x: char| x != c
}

/// `s` with every occurrence of the character `c` left out.
pub open spec fn without(s: Seq<char>, c: char) -> Seq<char> {
    s.filter(differs_from(c))
}

/// Whether `needle` stands in `hay` starting at position `at`.
pub open spec fn occurs_at(hay: Seq<char>, needle: Seq<char>, at: int) -> bool {
    &&& 0 <= at
    &&& at + needle.len() <= hay.len()
    &&& hay.subrange(at, at + needle.len()) == needle
}

/// Whether `needle` stands anywhere in `hay`.
pub open spec fn occurs_in(hay: Seq<char>, needle: Seq<char>) -> bool {
    exists|at: int| occurs_at(hay, needle, at)
}

/// `s` without its leading `prefix`; `s` itself where it does not start with `prefix`.
pub open spec fn without_prefix(s: Seq<char>, prefix: Seq<char>) -> Seq<char> {
    if prefix.is_prefix_of(s) {
        s.skip(prefix.len() as int)
    } else {
        s
    }
}

/// The pieces of `s` between the occurrences of `sep`, empty ones included:
/// one piece more than there are separators.
pub open spec fn pieces(s: Seq<char>, sep: char) -> Seq<Seq<char>>
    decreases s.len(),
{
    if s.len() == 0 {
        seq![Seq::empty()]
    } else {
        let before = pieces(s.drop_last(), sep);
        if s.last() == sep {
            before.push(Seq::empty())
        } else {
            before.drop_last().push(before.last().push(s.last()))
        }
    }
}

/// The test that a text is not empty.
pub open spec fn has_chars() -> spec_fn(Seq<char>) -> bool {
    |piece: Seq<char>| piece.len() > 0
}

/// The pieces of `s` between the occurrences of `sep` that are not empty.
pub open spec fn segments_of(s: Seq<char>, sep: char) -> Seq<Seq<char>> {
    pieces(s, sep).filter(has_chars())
}

/// The texts of a run of strings, in the same order.
pub open spec fn texts_of(strings: Seq<String>) -> Seq<Seq<char>> {
    strings.map_values(|s: String| s@)
}

/// The characters of a string, in order.
pub fn chars_of(s: &str) -> (out: Vec<char>)
    ensures
        out@ == s@,
{
    let mut out: Vec<char> = Vec::new();
    for c in it: s.chars()
        invariant
            out@ == it.seq().take(it.index() as int),
            it.seq() == s@,
    {
        out.push(c);
    }
    out
}

/// The string made of `chars[from..]`.
pub fn string_from(chars: &Vec<char>, from: usize) -> (out: String)
    requires
        from <= chars.len(),
    ensures
        out@ == chars@.skip(from as int),
{
    let mut out = String::new();
    let mut i: usize = from;
    while i < chars.len()
        invariant
            from <= i <= chars.len(),
            out@ == chars@.subrange(from as int, i as int),
        decreases chars.len() - i,
    {
        out.push(chars[i]);
        i += 1;
    }
    out
}

/// Whether two pieces of text hold the same characters.
pub fn same_text(a: &str, b: &str) -> (same: bool)
    ensures
        same == (a@ == b@),
{
    a.to_owned() == b.to_owned()
}

/// Leaves every occurrence of `c` out of `s`.
pub fn remove_char(s: &str, c: char) -> (out: String)
    ensures
        out@ == without(s@, c),
{
    let chars = chars_of(s);
    let mut out = String::new();
    let mut i: usize = 0;
    let ghost keep = differs_from(c);
    while i < chars.len()
        invariant
            i <= chars.len(),
            chars@ == s@,
            keep == differs_from(c),
            out@ == chars@.take(i as int).filter(keep),
        decreases chars.len() - i,
    {
        proof {
            Seq::lemma_filter_push(chars@.take(i as int), chars@[i as int], keep);
            assert(chars@.take(i as int).push(chars@[i as int]) == chars@.take(i as int + 1));
        }
        if chars[i] != c {
            out.push(chars[i]);
        }
        i += 1;
    }
    proof {
        assert(chars@.take(chars.len() as int) == chars@);
    }
    out
}

/// Whether `chars` holds `needle` starting at `at`.
fn matches_at(chars: &Vec<char>, needle: &Vec<char>, at: usize) -> (hit: bool)
    requires
        at + needle.len() <= chars.len(),
    ensures
        hit == occurs_at(chars@, needle@, at as int),
{
    let mut j: usize = 0;
    while j < needle.len()
        invariant
            j <= needle.len(),
            at + needle.len() <= chars.len(),
            chars@.subrange(at as int, at + j) == needle@.take(j as int),
        decreases needle.len() - j,
    {
        if chars[at + j] != needle[j] {
            proof {
                let window = chars@.subrange(at as int, at + needle.len());
                assert(window[j as int] != needle@[j as int]);
            }
            return false;
        }
        proof {
            assert(chars@.subrange(at as int, at + j + 1) == chars@.subrange(
                at as int,
                at + j,
            ).push(chars@[at + j]));
            assert(needle@.take(j + 1) == needle@.take(j as int).push(needle@[j as int]));
        }
        j += 1;
    }
    proof {
        assert(needle@.take(needle.len() as int) == needle@);
    }
    true
}

/// Removes a leading `prefix` from `s`, if it is there.
pub fn strip_prefix(s: &str, prefix: &str) -> (out: String)
    ensures
        out@ == without_prefix(s@, prefix@),
{
    let chars = chars_of(s);
    let head = chars_of(prefix);
    if head.len() <= chars.len() && matches_at(&chars, &head, 0) {
        string_from(&chars, head.len())
    } else {
        proof {
            assert(chars@.skip(0) == chars@);
        }
        string_from(&chars, 0)
    }
}

/// Whether `needle` stands anywhere in `hay`. The empty text stands in every text.
pub fn contains_text(hay: &str, needle: &str) -> (found: bool)
    ensures
        found == occurs_in(hay@, needle@),
{
    let chars = chars_of(hay);
    let pat = chars_of(needle);
    if pat.len() > chars.len() {
        return false;
    }
    let last: usize = chars.len() - pat.len();
    let mut at: usize = 0;
    loop
        invariant
            at <= last,
            last == chars.len() - pat.len(),
            pat.len() <= chars.len(),
            chars@ == hay@,
            pat@ == needle@,
            forall|k: int| 0 <= k < at ==> !occurs_at(chars@, pat@, k),
        decreases last - at,
    {
        if matches_at(&chars, &pat, at) {
            return true;
        }
        if at == last {
            return false;
        }
        at += 1;
    }
}

/// Cuts `s` at every `sep` and keeps the pieces that are not empty.
pub fn split_nonempty(s: &str, sep: char) -> (out: Vec<String>)
    ensures
        texts_of(out@) == segments_of(s@, sep),
{
    let chars = chars_of(s);
    let mut out: Vec<String> = Vec::new();
    let mut current = String::new();
    let mut i: usize = 0;
    proof {
        assert(chars@.take(0) == Seq::<char>::empty());
        assert(pieces(chars@.take(0), sep) == seq![Seq::<char>::empty()]);
        assert(pieces(chars@.take(0), sep).drop_last() == Seq::<Seq<char>>::empty());
        assert(texts_of(out@) == Seq::<Seq<char>>::empty());
    }
    while i < chars.len()
        invariant
            i <= chars.len(),
            chars@ == s@,
            pieces(chars@.take(i as int), sep).len() >= 1,
            texts_of(out@) == pieces(chars@.take(i as int), sep).drop_last().filter(has_chars()),
            current@ == pieces(chars@.take(i as int), sep).last(),
        decreases chars.len() - i,
    {
        let c = chars[i];
        let ghost before = pieces(chars@.take(i as int), sep);
        let ghost after = pieces(chars@.take(i + 1), sep);
        proof {
            assert(chars@.take(i + 1).drop_last() == chars@.take(i as int));
            assert(chars@.take(i + 1).last() == c);
            assert(before == before.drop_last().push(before.last()));
            Seq::lemma_filter_push(before.drop_last(), before.last(), has_chars());
        }
        if c == sep {
            proof {
                assert(after == before.push(Seq::empty()));
                assert(after.drop_last() == before);
            }
            if !current.as_str().is_empty() {
                let ghost listed = out@;
                out.push(current);
                proof {
                    assert(texts_of(out@) == texts_of(listed).push(before.last()));
                }
            }
            current = String::new();
        } else {
            proof {
                assert(after == before.drop_last().push(before.last().push(c)));
                assert(after.drop_last() == before.drop_last());
            }
            current.push(c);
        }
        i += 1;
    }
    proof {
        assert(chars@.take(i as int) == chars@);
        let all = pieces(chars@, sep);
        assert(all == all.drop_last().push(all.last()));
        Seq::lemma_filter_push(all.drop_last(), all.last(), has_chars());
    }
    if !current.as_str().is_empty() {
        let ghost listed = out@;
        out.push(current);
        proof {
            assert(texts_of(out@) == texts_of(listed).push(pieces(chars@, sep).last()));
        }
    }
    out
}

} // verus!
