//! Reading and building text, character by character.

use vstd::prelude::*;
use vstd::string::*;

verus! {

/// The characters with the Unicode property `White_Space`.
pub open spec fn white_space(c: char) -> bool {
    ||| '\u{9}' <= c <= '\u{d}'
    ||| c == '\u{20}'
    ||| c == '\u{85}'
    ||| c == '\u{a0}'
    ||| c == '\u{1680}'
    ||| '\u{2000}' <= c <= '\u{200a}'
    ||| c == '\u{2028}'
    ||| c == '\u{2029}'
    ||| c == '\u{202f}'
    ||| c == '\u{205f}'
    ||| c == '\u{3000}'
}

/// `s` without the white space at its front.
pub open spec fn trimmed_front(s: Seq<char>) -> Seq<char>
    decreases s.len(),
{
    if s.len() > 0 && white_space(s.first()) {
        trimmed_front(s.drop_first())
    } else {
        s
    }
}

/// `s` without the white space at its end.
pub open spec fn trimmed_back(s: Seq<char>) -> Seq<char>
    decreases s.len(),
{
    if s.len() > 0 && white_space(s.last()) {
        trimmed_back(s.drop_last())
    } else {
        s
    }
}

/// `s` without the white space at both ends.
pub open spec fn trimmed(s: Seq<char>) -> Seq<char> {
    trimmed_back(trimmed_front(s))
}

/// The parts, in order, with `separator` between each two neighbours.
pub open spec fn joined(parts: Seq<Seq<char>>, separator: Seq<char>) -> Seq<char>
    decreases parts.len(),
{
    if parts.len() == 0 {
        Seq::empty()
    } else if parts.len() == 1 {
        parts[0]
    } else {
        joined(parts.drop_last(), separator) + separator + parts.last()
    }
}

/// The character sequences of a list of strings.
pub open spec fn texts(strings: Seq<String>) -> Seq<Seq<char>> {
    strings.map_values(|s: String| s@)
}

/// Whether `c` has the Unicode property `White_Space`.
pub fn is_white_space(c: char) -> (r: bool)
    ensures
        r == white_space(c),
{
    ('\u{9}' <= c && c <= '\u{d}') || c == '\u{20}' || c == '\u{85}' || c == '\u{a0}' || c
        == '\u{1680}' || ('\u{2000}' <= c && c <= '\u{200a}') || c == '\u{2028}' || c == '\u{2029}'
        || c == '\u{202f}' || c == '\u{205f}' || c == '\u{3000}'
}

/// The characters of `text`, in order.
pub fn chars_of(text: &str) -> (chars: Vec<char>)
    ensures
        chars@ == text@,
{
    let mut chars: Vec<char> = Vec::new();
    for c in it: text.chars()
        invariant
            chars@ == text@.take(it.index() as int),
            it.seq() == text@,
    {
        chars.push(c);
    }
    chars
}

/// `text` without the white space at both ends.
pub fn trim(text: &str) -> (r: &str)
    ensures
        r@ == trimmed(text@),
{
    let chars = chars_of(text);
    let mut from: usize = 0;
    assert(chars@.skip(0) == chars@);
    while from < chars.len() && is_white_space(chars[from])
        invariant
            from <= chars@.len(),
            trimmed_front(chars@) == trimmed_front(chars@.skip(from as int)),
        decreases chars.len() - from,
    {
        assert(chars@.skip(from as int).drop_first() == chars@.skip(from + 1));
        from = from + 1;
    }
    let mut to: usize = chars.len();
    assert(chars@.skip(from as int) == chars@.subrange(from as int, to as int));
    assert(trimmed_front(chars@) == chars@.skip(from as int));
    while from < to && is_white_space(chars[to - 1])
        invariant
            from <= to <= chars@.len(),
            trimmed_back(chars@.skip(from as int)) == trimmed_back(
                chars@.subrange(from as int, to as int),
            ),
        decreases to,
    {
        assert(chars@.subrange(from as int, to as int).drop_last() == chars@.subrange(
            from as int,
            to - 1,
        ));
        to = to - 1;
    }
    text.substring_char(from, to)
}

/// What follows `prefix` in `text`, if `text` starts with it.
pub fn strip_prefix<'a>(text: &'a str, prefix: &str) -> (rest: Option<&'a str>)
    ensures
        match rest {
            Some(rest) => text@ == prefix@ + rest@,
            None => !prefix@.is_prefix_of(text@),
        },
{
    let head = chars_of(prefix);
    let chars = chars_of(text);
    if chars.len() < head.len() {
        return None;
    }
    let mut i: usize = 0;
    while i < head.len()
        invariant
            i <= head.len() <= chars.len(),
            head@ == prefix@,
            chars@ == text@,
            head@.take(i as int) == chars@.take(i as int),
        decreases head.len() - i,
    {
        if head[i] != chars[i] {
            assert(prefix@[i as int] != text@[i as int]);
            return None;
        }
        assert(head@.take(i + 1) == head@.take(i as int).push(head[i as int]));
        assert(chars@.take(i + 1) == chars@.take(i as int).push(chars[i as int]));
        i = i + 1;
    }
    assert(head@.take(i as int) == prefix@);
    assert(text@ == text@.take(i as int) + text@.skip(i as int));
    Some(text.substring_char(head.len(), chars.len()))
}

/// Whether `text` starts with `prefix`.
pub fn starts_with(text: &str, prefix: &str) -> (r: bool)
    ensures
        r == prefix@.is_prefix_of(text@),
{
    match strip_prefix(text, prefix) {
        Some(rest) => {
            assert(prefix@ == text@.take(prefix@.len() as int));
            true
        },
        None => false,
    }
}

/// Whether the two texts are the same.
pub fn same_text(a: &str, b: &str) -> (r: bool)
    ensures
        r == (a@ == b@),
{
    a.to_owned() == b.to_owned()
}

/// `head` followed by `tail`.
pub fn concat(head: &str, tail: &str) -> (r: String)
    ensures
        r@ == head@ + tail@,
{
    let mut r = head.to_owned();
    r.append(tail);
    r
}

/// The lines, in order, with `separator` between each two neighbours.
pub fn join(lines: &Vec<String>, separator: &str) -> (r: String)
    ensures
        r@ == joined(texts(lines@), separator@),
{
    let mut r = String::new();
    let ghost parts = texts(lines@);
    for i in 0..lines.len()
        invariant
            parts == texts(lines@),
            r@ == joined(parts.take(i as int), separator@),
    {
        assert(parts.take(i + 1).drop_last() == parts.take(i as int));
        if i > 0 {
            r.append(separator);
        }
        r.append(lines[i].as_str());
    }
    assert(parts.take(lines.len() as int) == parts);
    r
}

/// A copy of a list of strings.
pub fn copied(strings: &Vec<String>) -> (r: Vec<String>)
    ensures
        texts(r@) == texts(strings@),
        r@.len() == strings@.len(),
        forall|i: int| 0 <= i < strings@.len() ==> (#[trigger] r@[i])@ == strings@[i]@,
{
    let r = strings.clone();
    proof {
        the_same_texts_are_the_same_list(r@, strings@);
    }
    r
}

proof fn trimmed_front_splits(s: Seq<char>)
    ensures
        trimmed_front(s).len() <= s.len(),
        trimmed_front(s) == s.skip(s.len() - trimmed_front(s).len()),
        trimmed_front(s).len() > 0 ==> !white_space(trimmed_front(s).first()),
        forall|i: int| 0 <= i < s.len() - trimmed_front(s).len() ==> white_space(#[trigger] s[i]),
    decreases s.len(),
{
    if s.len() > 0 && white_space(s.first()) {
        let rest = s.drop_first();
        trimmed_front_splits(rest);
        let cut = s.len() - trimmed_front(s).len();
        assert(s.skip(cut) == rest.skip(cut - 1));
        assert forall|i: int| 0 <= i < cut implies white_space(#[trigger] s[i]) by {
            if i > 0 {
                assert(s[i] == rest[i - 1]);
            }
        }
    } else {
        assert(s.skip(0) == s);
    }
}

proof fn trimmed_back_splits(s: Seq<char>)
    ensures
        trimmed_back(s).len() <= s.len(),
        trimmed_back(s) == s.take(trimmed_back(s).len() as int),
        trimmed_back(s).len() > 0 ==> !white_space(trimmed_back(s).last()),
        forall|i: int| trimmed_back(s).len() <= i < s.len() ==> white_space(#[trigger] s[i]),
    decreases s.len(),
{
    if s.len() > 0 && white_space(s.last()) {
        let rest = s.drop_last();
        trimmed_back_splits(rest);
        let kept = trimmed_back(s).len();
        assert(s.take(kept as int) == rest.take(kept as int));
        assert forall|i: int| kept <= i < s.len() implies white_space(#[trigger] s[i]) by {
            if i < s.len() - 1 {
                assert(s[i] == rest[i]);
            }
        }
    } else {
        assert(s.take(s.len() as int) == s);
    }
}

/// Trimming takes white space from the two ends, all of it, and nothing else.
pub proof fn trimming_takes_exactly_the_white_space_at_the_ends(s: Seq<char>)
    ensures
        exists|front: Seq<char>, back: Seq<char>|
            {
                &&& s == #[trigger] (front + trimmed(s) + back)
                &&& forall|i: int| 0 <= i < front.len() ==> white_space(front[i])
                &&& forall|i: int| 0 <= i < back.len() ==> white_space(back[i])
            },
        trimmed(s).len() > 0 ==> !white_space(trimmed(s).first()) && !white_space(
            trimmed(s).last(),
        ),
        trimmed(trimmed(s)) == trimmed(s),
{
    let middle = trimmed_front(s);
    trimmed_front_splits(s);
    trimmed_back_splits(middle);
    let front = s.take(s.len() - middle.len());
    let back = middle.skip(trimmed(s).len() as int);
    assert(s == front + trimmed(s) + back);
    assert forall|i: int| 0 <= i < back.len() implies white_space(back[i]) by {
        assert(back[i] == middle[i + trimmed(s).len()]);
    }
    if trimmed(s).len() > 0 {
        assert(trimmed(s).first() == middle.first());
    }
}

proof fn trimmed_front_of_padded(front: Seq<char>, core: Seq<char>)
    requires
        forall|i: int| 0 <= i < front.len() ==> white_space(#[trigger] front[i]),
        core.len() > 0,
        !white_space(core.first()),
    ensures
        trimmed_front(front + core) == core,
    decreases front.len(),
{
    if front.len() == 0 {
        assert(front + core == core);
    } else {
        assert((front + core).first() == front[0]);
        assert((front + core).drop_first() == front.drop_first() + core);
        trimmed_front_of_padded(front.drop_first(), core);
    }
}

proof fn trimmed_back_of_padded(core: Seq<char>, back: Seq<char>)
    requires
        forall|i: int| 0 <= i < back.len() ==> white_space(#[trigger] back[i]),
        core.len() > 0,
        !white_space(core.last()),
    ensures
        trimmed_back(core + back) == core,
    decreases back.len(),
{
    if back.len() == 0 {
        assert(core + back == core);
    } else {
        assert((core + back).last() == back.last());
        assert((core + back).drop_last() == core + back.drop_last());
        trimmed_back_of_padded(core, back.drop_last());
    }
}

/// Trimming gives back what was padded with white space.
pub proof fn trimming_undoes_padding(front: Seq<char>, core: Seq<char>, back: Seq<char>)
    requires
        forall|i: int| 0 <= i < front.len() ==> white_space(#[trigger] front[i]),
        forall|i: int| 0 <= i < back.len() ==> white_space(#[trigger] back[i]),
        core.len() > 0,
        !white_space(core.first()),
        !white_space(core.last()),
    ensures
        trimmed(front + core + back) == core,
{
    assert(front + core + back == front + (core + back));
    assert((core + back).first() == core.first());
    trimmed_front_of_padded(front, core + back);
    trimmed_back_of_padded(core, back);
}

/// The character sequences of a list of strings are those of its strings, in their places.
pub proof fn texts_are_the_strings_characters(strings: Seq<String>)
    ensures
        texts(strings).len() == strings.len(),
        forall|i: int| 0 <= i < strings.len() ==> #[trigger] texts(strings)[i] == strings[i]@,
{
}

/// Lists with the same character sequences hold the same strings.
pub proof fn the_same_texts_are_the_same_list(a: Seq<String>, b: Seq<String>)
    requires
        texts(a) == texts(b),
    ensures
        a.len() == b.len(),
        forall|i: int| 0 <= i < a.len() ==> (#[trigger] a[i])@ == b[i]@,
{
    texts_are_the_strings_characters(a);
    texts_are_the_strings_characters(b);
    assert forall|i: int| 0 <= i < a.len() implies (#[trigger] a[i])@ == b[i]@ by {
        assert(texts(a)[i] == texts(b)[i]);
    }
}

/// Joining gives nothing for no part, a single part as it is, and each further part behind a
/// separator.
pub proof fn joining_adds_part_by_part(
    parts: Seq<Seq<char>>,
    part: Seq<char>,
    separator: Seq<char>,
)
    ensures
        joined(Seq::empty(), separator).len() == 0,
        parts.len() == 0 ==> joined(parts.push(part), separator) == part,
        parts.len() > 0 ==> joined(parts.push(part), separator) == joined(parts, separator)
            + separator + part,
{
    assert(parts.push(part).drop_last() == parts);
}

} // verus!
