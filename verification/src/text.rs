//! Text as sequences of characters: trimming, splitting, joining.

use vstd::prelude::*;

verus! {

/// `String::push` appends one character and changes nothing else.
pub assume_specification[ String::push ](s: &mut String, c: char)
    ensures
        final(s)@ == old(s)@.push(c),
;

/// The code points with Unicode's `White_Space` property.
pub open spec fn is_white_space(c: char) -> bool {
    let n = c as u32;
    ||| 0x9 <= n <= 0xd
    ||| n == 0x20
    ||| n == 0x85
    ||| n == 0xa0
    ||| n == 0x1680
    ||| 0x2000 <= n <= 0x200a
    ||| n == 0x2028
    ||| n == 0x2029
    ||| n == 0x202f
    ||| n == 0x205f
    ||| n == 0x3000
}

/// `char::is_whitespace` tests for Unicode's `White_Space` property.
pub assume_specification[ char::is_whitespace ](c: char) -> (res: bool)
    ensures
        res == is_white_space(c),
;

/// The characters of `s`.
pub fn chars_of(s: &str) -> (chars: Vec<char>)
    ensures
        chars@ == s@,
{
    let mut chars: Vec<char> = Vec::new();
    for c in it: s.chars()
        invariant
            it.seq() == s@,
            chars@ == s@.take(it.index()),
    {
        chars.push(c);
        assert(s@.take(it.index() + 1) == s@.take(it.index()).push(c));
    }
    assert(s@.take(s@.len() as int) == s@);
    chars
}

/// The text made of `chars[from..to]`.
pub fn text_between(chars: &Vec<char>, from: usize, to: usize) -> (text: String)
    requires
        from <= to <= chars.len(),
    ensures
        text@ == chars@.subrange(from as int, to as int),
{
    let mut text = String::new();
    let mut i: usize = from;
    while i < to
        invariant
            from <= i <= to <= chars.len(),
            text@ == chars@.subrange(from as int, i as int),
        decreases to - i,
    {
        text.push(chars[i]);
        assert(chars@.subrange(from as int, i as int + 1) == chars@.subrange(
            from as int,
            i as int,
        ).push(chars@[i as int]));
        i = i + 1;
    }
    text
}

/// Whether two texts hold the same characters.
pub fn same_text(a: &str, b: &str) -> (same: bool)
    ensures
        same == (a@ == b@),
{
    a.to_owned() == b.to_owned()
}

/// `a` followed by `b`.
pub fn join2(a: &str, b: &str) -> (text: String)
    ensures
        text@ == a@ + b@,
{
    let mut text = a.to_owned();
    text.append(b);
    text
}

/// `a`, `b` and `c`, one behind the other.
pub fn join3(a: &str, b: &str, c: &str) -> (text: String)
    ensures
        text@ == a@ + b@ + c@,
{
    let mut text = join2(a, b);
    text.append(c);
    text
}

/// Puts `text` behind the other texts of `list`.
pub fn push_text(list: &mut Vec<String>, text: &str)
    ensures
        final(list).deep_view() == old(list).deep_view().push(text@),
{
    let ghost before = list.deep_view();
    list.push(text.to_owned());
    assert(list.deep_view() == before.push(text@));
}

/// Puts `front` followed by `text` behind the other texts of `list`.
pub fn push_joined(list: &mut Vec<String>, front: &str, text: &str)
    ensures
        final(list).deep_view() == old(list).deep_view().push(front@ + text@),
{
    let joined = join2(front, text);
    push_text(list, joined.as_str());
}

/// No texts.
pub fn no_texts() -> (list: Vec<String>)
    ensures
        list.deep_view() == Seq::<Seq<char>>::empty(),
{
    let list: Vec<String> = Vec::new();
    assert(list.deep_view() == Seq::<Seq<char>>::empty());
    list
}

/// `s` without the white space in front.
pub open spec fn trimmed_start(s: Seq<char>) -> Seq<char>
    decreases s.len(),
{
    if s.len() > 0 && is_white_space(s[0]) {
        trimmed_start(s.skip(1))
    } else {
        s
    }
}

/// `s` without the white space behind.
pub open spec fn trimmed_end(s: Seq<char>) -> Seq<char>
    decreases s.len(),
{
    if s.len() > 0 && is_white_space(s.last()) {
        trimmed_end(s.drop_last())
    } else {
        s
    }
}

/// `s` without the white space on either side.
pub open spec fn trimmed(s: Seq<char>) -> Seq<char> {
    trimmed_end(trimmed_start(s))
}

/// `s` without the white space on either side.
pub fn trim(s: &str) -> (text: String)
    ensures
        text@ == trimmed(s@),
{
    let chars = chars_of(s);
    let mut from: usize = 0;
    assert(s@.skip(0) == s@);
    while from < chars.len() && chars[from].is_whitespace()
        invariant
            from <= chars.len(),
            chars@ == s@,
            trimmed_start(s@) == trimmed_start(s@.skip(from as int)),
        decreases chars.len() - from,
    {
        assert(s@.skip(from as int).skip(1) == s@.skip(from as int + 1));
        from = from + 1;
    }
    let ghost rest = s@.skip(from as int);
    assert(trimmed_start(s@) == rest);
    let mut to: usize = chars.len();
    assert(chars@.subrange(from as int, to as int) == rest);
    while to > from && chars[to - 1].is_whitespace()
        invariant
            from <= to <= chars.len(),
            trimmed_end(rest) == trimmed_end(chars@.subrange(from as int, to as int)),
        decreases to,
    {
        assert(chars@.subrange(from as int, to as int).drop_last() == chars@.subrange(
            from as int,
            to as int - 1,
        ));
        to = to - 1;
    }
    text_between(&chars, from, to)
}

/// What ends one piece of a text and starts the next.
#[derive(Clone, Copy)]
pub enum Separator {
    /// One given character.
    Char(char),
    /// Any white space.
    WhiteSpace,
}

impl Separator {
    /// Whether `c` separates.
    pub open spec fn at(self, c: char) -> bool {
        match self {
            Separator::Char(sep) => c == sep,
            Separator::WhiteSpace => is_white_space(c),
        }
    }

    fn separates(self, c: char) -> (res: bool)
        ensures
            res == self.at(c),
    {
        match self {
            Separator::Char(sep) => c == sep,
            Separator::WhiteSpace => c.is_whitespace(),
        }
    }
}

/// The pieces of `s` between separators: one more than there are separators.
pub open spec fn pieces(s: Seq<char>, sep: Separator) -> Seq<Seq<char>>
    decreases s.len(),
{
    if s.len() == 0 {
        seq![Seq::empty()]
    } else {
        let before = pieces(s.drop_last(), sep);
        if sep.at(s.last()) {
            before.push(Seq::empty())
        } else {
            before.drop_last().push(before.last().push(s.last()))
        }
    }
}

/// The pieces of `s` between separators.
pub fn split(s: &str, sep: Separator) -> (parts: Vec<String>)
    ensures
        parts.deep_view() == pieces(s@, sep),
{
    let chars = chars_of(s);
    let mut parts: Vec<String> = Vec::new();
    let mut current = String::new();
    let mut i: usize = 0;
    assert(s@.take(0) == Seq::<char>::empty());
    assert(parts.deep_view().push(current@) == pieces(s@.take(0), sep));
    while i < chars.len()
        invariant
            i <= chars.len(),
            chars@ == s@,
            parts.deep_view().push(current@) == pieces(s@.take(i as int), sep),
        decreases chars.len() - i,
    {
        let ghost done = parts.deep_view();
        let ghost piece = current@;
        assert(s@.take(i as int + 1).drop_last() == s@.take(i as int));
        assert(done.push(piece).drop_last() == done);
        if sep.separates(chars[i]) {
            parts.push(current);
            current = String::new();
            assert(parts.deep_view() == done.push(piece));
        } else {
            current.push(chars[i]);
        }
        i = i + 1;
    }
    assert(s@.take(s@.len() as int) == s@);
    let ghost done = parts.deep_view();
    let ghost piece = current@;
    parts.push(current);
    assert(parts.deep_view() == done.push(piece));
    parts
}

/// The texts of `parts` that are not empty, in order.
pub open spec fn non_empty(parts: Seq<Seq<char>>) -> Seq<Seq<char>>
    decreases parts.len(),
{
    if parts.len() == 0 {
        parts
    } else {
        let before = non_empty(parts.drop_last());
        if parts.last().len() == 0 {
            before
        } else {
            before.push(parts.last())
        }
    }
}

/// The words of `s`: its longest runs without white space.
pub open spec fn words(s: Seq<char>) -> Seq<Seq<char>> {
    non_empty(pieces(s, Separator::WhiteSpace))
}

/// The words of `s`: its longest runs without white space.
pub fn split_words(s: &str) -> (found: Vec<String>)
    ensures
        found.deep_view() == words(s@),
{
    let parts = split(s, Separator::WhiteSpace);
    keep_non_empty(&parts)
}

/// The texts of `parts` that are not empty, in order.
pub fn keep_non_empty(parts: &Vec<String>) -> (found: Vec<String>)
    ensures
        found.deep_view() == non_empty(parts.deep_view()),
{
    let mut found: Vec<String> = Vec::new();
    let mut i: usize = 0;
    let ghost all = parts.deep_view();
    assert(all.take(0) == Seq::<Seq<char>>::empty());
    assert(found.deep_view() == Seq::<Seq<char>>::empty());
    while i < parts.len()
        invariant
            i <= parts.len(),
            all == parts.deep_view(),
            found.deep_view() == non_empty(all.take(i as int)),
        decreases parts.len() - i,
    {
        let ghost before = found.deep_view();
        assert(all.take(i as int + 1).drop_last() == all.take(i as int));
        assert(all[i as int] == parts[i as int]@);
        if !parts[i].as_str().is_empty() {
            found.push(parts[i].clone());
            assert(found.deep_view() == before.push(parts[i as int]@));
        }
        i = i + 1;
    }
    assert(all.take(all.len() as int) == all);
    found
}

/// `line` without a carriage return at its end.
pub open spec fn without_cr(line: Seq<char>) -> Seq<char> {
    if line.len() > 0 && line.last() == '\r' {
        line.drop_last()
    } else {
        line
    }
}

/// The lines of `s`. A line ends with a line feed, or a carriage return and a line
/// feed, neither of which belongs to it; behind the last line the end may be missing.
pub open spec fn lines(s: Seq<char>) -> Seq<Seq<char>> {
    let all = pieces(s, Separator::Char('\n'));
    let ended = Seq::new((all.len() - 1) as nat, |i: int| without_cr(all[i]));
    if all.last().len() == 0 {
        ended
    } else {
        ended.push(all.last())
    }
}

proof fn lemma_pieces_not_empty(s: Seq<char>, sep: Separator)
    ensures
        pieces(s, sep).len() > 0,
    decreases s.len(),
{
    if s.len() > 0 {
        lemma_pieces_not_empty(s.drop_last(), sep);
    }
}

/// Text without a separator only makes the last piece longer.
pub proof fn lemma_pieces_grow(s: Seq<char>, more: Seq<char>, sep: Separator)
    requires
        forall|i: int| 0 <= i < more.len() ==> !sep.at(#[trigger] more[i]),
    ensures
        pieces(s + more, sep) == pieces(s, sep).drop_last().push(pieces(s, sep).last() + more),
    decreases more.len(),
{
    lemma_pieces_not_empty(s, sep);
    if more.len() == 0 {
        assert(s + more == s);
        assert(pieces(s, sep).last() + more == pieces(s, sep).last());
    } else {
        let front = more.drop_last();
        lemma_pieces_grow(s, front, sep);
        assert((s + more).drop_last() == s + front);
        assert(pieces(s, sep).last() + more == (pieces(s, sep).last() + front).push(more.last()));
        assert(!sep.at(more[more.len() - 1]));
    }
}

/// A separator starts another piece.
pub proof fn lemma_pieces_start_anew(s: Seq<char>, c: char, sep: Separator)
    requires
        sep.at(c),
    ensures
        pieces(s.push(c), sep) == pieces(s, sep).push(Seq::empty()),
{
    assert(s.push(c).drop_last() == s);
}

/// The lines of `s`.
pub fn split_lines(s: &str) -> (found: Vec<String>)
    ensures
        found.deep_view() == lines(s@),
{
    let parts = split(s, Separator::Char('\n'));
    let ghost all = parts.deep_view();
    proof {
        lemma_pieces_not_empty(s@, Separator::Char('\n'));
    }
    let mut found: Vec<String> = Vec::new();
    let mut i: usize = 0;
    while i < parts.len() - 1
        invariant
            i <= parts.len() - 1,
            all == parts.deep_view(),
            found.deep_view() == Seq::new(i as nat, |j: int| without_cr(all[j])),
        decreases parts.len() - i,
    {
        let ghost before = found.deep_view();
        assert(all[i as int] == parts[i as int]@);
        let chars = chars_of(parts[i].as_str());
        let line = if chars.len() > 0 && chars[chars.len() - 1] == '\r' {
            text_between(&chars, 0, chars.len() - 1)
        } else {
            parts[i].clone()
        };
        assert(line@ == without_cr(all[i as int]));
        let ghost text = line@;
        found.push(line);
        assert(found.deep_view() == before.push(text));
        i = i + 1;
    }
    let ghost before = found.deep_view();
    assert(all.last() == parts[i as int]@);
    if !parts[i].as_str().is_empty() {
        found.push(parts[i].clone());
        assert(found.deep_view() == before.push(all.last()));
    }
    assert(found.deep_view() == lines(s@));
    found
}

/// Whether `s` begins with `prefix`.
pub open spec fn has_prefix(s: Seq<char>, prefix: Seq<char>) -> bool {
    s.len() >= prefix.len() && s.take(prefix.len() as int) == prefix
}

/// What follows `prefix` in `s`, where `s` begins with it.
pub open spec fn after_prefix(s: Seq<char>, prefix: Seq<char>) -> Option<Seq<char>> {
    if has_prefix(s, prefix) {
        Some(s.skip(prefix.len() as int))
    } else {
        None
    }
}

/// What follows `prefix` in `s`, where `s` begins with it.
pub fn strip_prefix(s: &str, prefix: &str) -> (rest: Option<String>)
    ensures
        rest.deep_view() == after_prefix(s@, prefix@),
{
    let all = chars_of(s);
    let front = chars_of(prefix);
    if all.len() < front.len() {
        return None;
    }
    let head = text_between(&all, 0, front.len());
    if same_text(head.as_str(), prefix) {
        Some(text_between(&all, front.len(), all.len()))
    } else {
        None
    }
}

/// `s` without any number of repetitions of `prefix` in front.
pub open spec fn without_prefixes(s: Seq<char>, prefix: Seq<char>) -> Seq<char>
    decreases s.len(),
{
    if prefix.len() > 0 && has_prefix(s, prefix) {
        without_prefixes(s.skip(prefix.len() as int), prefix)
    } else {
        s
    }
}

/// `s` without any number of repetitions of `prefix` in front.
pub fn strip_prefixes(s: &str, prefix: &str) -> (rest: String)
    requires
        prefix@.len() > 0,
    ensures
        rest@ == without_prefixes(s@, prefix@),
{
    let mut rest = s.to_owned();
    loop
        invariant
            prefix@.len() > 0,
            without_prefixes(rest@, prefix@) == without_prefixes(s@, prefix@),
        decreases rest@.len(),
    {
        match strip_prefix(rest.as_str(), prefix) {
            Some(shorter) => {
                rest = shorter;
            },
            None => {
                return rest;
            },
        }
    }
}

/// Where `c` first stands in `s`; the length of `s` where it does not.
pub open spec fn position(s: Seq<char>, c: char) -> int
    decreases s.len(),
{
    if s.len() == 0 || s[0] == c {
        0
    } else {
        1 + position(s.skip(1), c)
    }
}

/// What stands in `s` before the first `c`, or all of `s` where there is none.
pub open spec fn before_first(s: Seq<char>, c: char) -> Seq<char> {
    s.take(position(s, c))
}

/// What stands in `s` behind the first `c`, or all of `s` where there is none.
pub open spec fn behind_first(s: Seq<char>, c: char) -> Seq<char> {
    if position(s, c) < s.len() {
        s.skip(position(s, c) + 1)
    } else {
        s
    }
}

fn find(chars: &Vec<char>, c: char) -> (at: usize)
    ensures
        at <= chars.len(),
        at == position(chars@, c),
{
    let mut at: usize = 0;
    assert(chars@.skip(0) == chars@);
    while at < chars.len() && chars[at] != c
        invariant
            at <= chars.len(),
            position(chars@, c) == at + position(chars@.skip(at as int), c),
        decreases chars.len() - at,
    {
        assert(chars@.skip(at as int).skip(1) == chars@.skip(at as int + 1));
        at = at + 1;
    }
    at
}

/// What stands in `s` before the first `c`, or all of `s` where there is none.
pub fn text_before(s: &str, c: char) -> (text: String)
    ensures
        text@ == before_first(s@, c),
{
    let chars = chars_of(s);
    let at = find(&chars, c);
    text_between(&chars, 0, at)
}

/// What stands in `s` behind the first `c`, or all of `s` where there is none.
pub fn text_behind(s: &str, c: char) -> (text: String)
    ensures
        text@ == behind_first(s@, c),
{
    let chars = chars_of(s);
    let at = find(&chars, c);
    if at < chars.len() {
        text_between(&chars, at + 1, chars.len())
    } else {
        s.to_owned()
    }
}

} // verus!
