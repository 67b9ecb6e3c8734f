//! What taking texts apart amounts to.

use crate::text::after_prefix;
use crate::text::before_first;
use crate::text::behind_first;
use crate::text::is_white_space;
use crate::text::join2;
use crate::text::join3;
use crate::text::lemma_pieces_grow;
use crate::text::lemma_pieces_start_anew;
use crate::text::lines;
use crate::text::non_empty;
use crate::text::pieces;
use crate::text::position;
use crate::text::same_text;
use crate::text::split;
use crate::text::split_lines;
use crate::text::split_words;
use crate::text::strip_prefix;
use crate::text::text_before;
use crate::text::text_behind;
use crate::text::trim;
use crate::text::trimmed;
use crate::text::trimmed_end;
use crate::text::trimmed_start;
use crate::text::without_prefixes;
use crate::text::words;
use crate::text::Separator;
use vstd::prelude::*;

verus! {

/// Whether `s` holds white space only.
pub open spec fn is_blank(s: Seq<char>) -> bool {
    forall|i: int| 0 <= i < s.len() ==> is_white_space(#[trigger] s[i])
}

/// No visible ASCII character is white space; spaces, tabs and the ends of lines are.
pub proof fn law_white_space(c: char)
    ensures
        '!' <= c <= '~' ==> !is_white_space(c),
        c == ' ' || c == '\t' || c == '\n' || c == '\r' ==> is_white_space(c),
{
}

proof fn lemma_trimmed_start(s: Seq<char>) -> (front: Seq<char>)
    ensures
        s == front + trimmed_start(s),
        is_blank(front),
        trimmed_start(s).len() > 0 ==> !is_white_space(trimmed_start(s)[0]),
    decreases s.len(),
{
    if s.len() > 0 && is_white_space(s[0]) {
        let rest = lemma_trimmed_start(s.skip(1));
        let front = seq![s[0]] + rest;
        assert(s == seq![s[0]] + s.skip(1));
        assert(s == front + trimmed_start(s));
        front
    } else {
        assert(s == Seq::<char>::empty() + s);
        Seq::empty()
    }
}

proof fn lemma_trimmed_end(s: Seq<char>) -> (back: Seq<char>)
    ensures
        s == trimmed_end(s) + back,
        is_blank(back),
        trimmed_end(s).len() > 0 ==> !is_white_space(trimmed_end(s).last()),
    decreases s.len(),
{
    if s.len() > 0 && is_white_space(s.last()) {
        let rest = lemma_trimmed_end(s.drop_last());
        let back = rest.push(s.last());
        assert(s == s.drop_last().push(s.last()));
        assert(s == trimmed_end(s) + back);
        back
    } else {
        assert(s == s + Seq::<char>::empty());
        Seq::empty()
    }
}

/// Trimming takes off white space on both sides, all of it, and nothing else.
pub proof fn law_trimming_takes_off_white_space(s: Seq<char>)
    ensures
        exists|front: Seq<char>, back: Seq<char>|
            #[trigger] is_blank(front) && #[trigger] is_blank(back) && s == front + trimmed(s)
                + back,
        trimmed(s).len() > 0 ==> !is_white_space(trimmed(s)[0]) && !is_white_space(
            trimmed(s).last(),
        ),
{
    let front = lemma_trimmed_start(s);
    let back = lemma_trimmed_end(trimmed_start(s));
    let middle = trimmed(s);
    assert(s == (front + middle) + back);
    if middle.len() > 0 {
        assert(middle[0] == trimmed_start(s)[0]);
    }
}

/// White space around a text does not change what trimming leaves of it.
pub proof fn law_trimming_ignores_white_space_around(front: Seq<char>, s: Seq<char>, back: Seq<char>)
    requires
        is_blank(front),
        is_blank(back),
    ensures
        trimmed(front + s + back) == trimmed(s),
{
    lemma_blank_front(front, s + back);
    assert(front + s + back == front + (s + back));
    lemma_blank_back(s, back);
}

proof fn lemma_blank_front(front: Seq<char>, s: Seq<char>)
    requires
        is_blank(front),
    ensures
        trimmed_start(front + s) == trimmed_start(s),
    decreases front.len(),
{
    if front.len() == 0 {
        assert(front + s == s);
    } else {
        assert((front + s).skip(1) == front.skip(1) + s);
        assert(is_white_space(front[0]));
        assert forall|i: int| 0 <= i < front.skip(1).len() implies is_white_space(
            #[trigger] front.skip(1)[i],
        ) by {
            assert(is_white_space(front[i + 1]));
        }
        lemma_blank_front(front.skip(1), s);
    }
}

proof fn lemma_blank_back(s: Seq<char>, back: Seq<char>)
    requires
        is_blank(back),
    ensures
        trimmed(s + back) == trimmed(s),
    decreases back.len(),
{
    if back.len() == 0 {
        assert(s + back == s);
    } else {
        let shorter = back.drop_last();
        assert(s + back == (s + shorter).push(back.last()));
        lemma_blank_push(s + shorter, back.last());
        assert forall|i: int| 0 <= i < shorter.len() implies is_white_space(#[trigger] shorter[i]) by {
            assert(is_white_space(back[i]));
        }
        lemma_blank_back(s, shorter);
    }
}

proof fn lemma_blank_push(s: Seq<char>, c: char)
    requires
        is_white_space(c),
    ensures
        trimmed(s.push(c)) == trimmed(s),
    decreases s.len(),
{
    if s.len() == 0 {
        assert(s.push(c).skip(1) == s);
        reveal_with_fuel(trimmed_start, 2);
    } else if is_white_space(s[0]) {
        assert(s.push(c).skip(1) == s.skip(1).push(c));
        lemma_blank_push(s.skip(1), c);
    } else {
        assert(s.push(c).drop_last() == s);
    }
}

// ---- splitting ----

proof fn lemma_pieces_append(s: Seq<char>, c: char, t: Seq<char>, sep: Separator)
    requires
        sep.at(c),
    ensures
        pieces(s.push(c) + t, sep) == pieces(s, sep) + pieces(t, sep),
        pieces(t, sep).len() > 0,
    decreases t.len(),
{
    if t.len() == 0 {
        assert(s.push(c) + t == s.push(c));
        lemma_pieces_start_anew(s, c, sep);
        assert(pieces(s, sep).push(Seq::empty()) == pieces(s, sep) + seq![Seq::<char>::empty()]);
    } else {
        lemma_pieces_append(s, c, t.drop_last(), sep);
        assert((s.push(c) + t).drop_last() == s.push(c) + t.drop_last());
        assert((s.push(c) + t).last() == t.last());
        let a = pieces(s, sep);
        let b = pieces(t.drop_last(), sep);
        if sep.at(t.last()) {
            assert((a + b).push(Seq::empty()) == a + b.push(Seq::empty()));
        } else {
            assert((a + b).drop_last().push((a + b).last().push(t.last())) == a
                + b.drop_last().push(b.last().push(t.last())));
        }
    }
}

/// A text without the separator is one piece, and a separator parts the pieces before it
/// from those behind it.
pub proof fn law_splitting_parts_at_each_separator(s: Seq<char>, sep: char, t: Seq<char>)
    ensures
        pieces(s.push(sep) + t, Separator::Char(sep)) == pieces(s, Separator::Char(sep)) + pieces(
            t,
            Separator::Char(sep),
        ),
        !s.contains(sep) ==> pieces(s, Separator::Char(sep)) == seq![s],
{
    lemma_pieces_append(s, sep, t, Separator::Char(sep));
    if !s.contains(sep) {
        assert forall|i: int| 0 <= i < s.len() implies !Separator::Char(sep).at(#[trigger] s[i]) by {
            assert(s.contains(s[i]));
        }
        let empty = Seq::<char>::empty();
        lemma_pieces_grow(empty, s, Separator::Char(sep));
        assert(empty + s == s);
        assert(pieces(s, Separator::Char(sep)) == seq![s]);
    }
}

/// The texts that are not empty, of two lists one after the other.
pub proof fn lemma_non_empty_append(a: Seq<Seq<char>>, b: Seq<Seq<char>>)
    ensures
        non_empty(a + b) == non_empty(a) + non_empty(b),
    decreases b.len(),
{
    if b.len() == 0 {
        assert(a + b == a);
        assert(non_empty(a) + non_empty(b) == non_empty(a));
    } else {
        lemma_non_empty_append(a, b.drop_last());
        assert((a + b).drop_last() == a + b.drop_last());
        assert(non_empty(a + b) == non_empty(a) + non_empty(b));
    }
}

/// The texts that are not empty are kept, each where it stood, and no other.
pub proof fn law_only_empty_texts_are_left_out(a: Seq<Seq<char>>, one: Seq<char>, b: Seq<Seq<char>>)
    ensures
        one.len() > 0 ==> non_empty(a.push(one) + b) == non_empty(a).push(one) + non_empty(b),
        one.len() == 0 ==> non_empty(a.push(one) + b) == non_empty(a) + non_empty(b),
        non_empty(Seq::empty()) == Seq::<Seq<char>>::empty(),
{
    lemma_non_empty_append(a.push(one), b);
    assert(a.push(one).drop_last() == a);
}

/// A text without white space is one word, an empty one is none, and white space parts the
/// words before it from those behind it.
pub proof fn law_words_are_parted_by_white_space(s: Seq<char>, c: char, t: Seq<char>)
    ensures
        is_white_space(c) ==> words(s.push(c) + t) == words(s) + words(t),
        s.len() > 0 && (forall|i: int| 0 <= i < s.len() ==> !is_white_space(#[trigger] s[i]))
            ==> words(s) == seq![s],
        words(Seq::empty()) == Seq::<Seq<char>>::empty(),
{
    let sep = Separator::WhiteSpace;
    let empty = Seq::<char>::empty();
    reveal_with_fuel(non_empty, 2);
    if is_white_space(c) {
        lemma_pieces_append(s, c, t, sep);
        lemma_non_empty_append(pieces(s, sep), pieces(t, sep));
    }
    if s.len() > 0 && (forall|i: int| 0 <= i < s.len() ==> !is_white_space(#[trigger] s[i])) {
        assert forall|i: int| 0 <= i < s.len() implies !sep.at(#[trigger] s[i]) by {
            assert(!is_white_space(s[i]));
        }
        lemma_pieces_grow(empty, s, sep);
        assert(empty + s == s);
        assert(pieces(s, sep) == seq![s]);
        assert(seq![s].drop_last() == Seq::<Seq<char>>::empty());
        assert(words(s) == seq![s]);
    }
    assert(pieces(empty, sep) == seq![empty]);
    assert(seq![empty].drop_last() == Seq::<Seq<char>>::empty());
    assert(words(empty) == Seq::<Seq<char>>::empty());
}

/// A line feed ends a line, with a carriage return before it where there is one; what stands
/// behind the last line feed is a line of its own, unless it is empty.
pub proof fn law_lines_end_with_line_feeds(s: Seq<char>, t: Seq<char>)
    requires
        !s.contains('\n'),
    ensures
        lines(s) == if s.len() == 0 {
            Seq::<Seq<char>>::empty()
        } else {
            seq![s]
        },
        lines(s.push('\n') + t) == seq![
            if s.len() > 0 && s.last() == '\r' {
                s.drop_last()
            } else {
                s
            },
        ] + lines(t),
{
    let sep = Separator::Char('\n');
    law_splitting_parts_at_each_separator(s, '\n', t);
    lemma_pieces_append(s, '\n', t, sep);
    let all = pieces(t, sep);
    let whole = pieces(s.push('\n') + t, sep);
    assert(whole == seq![s] + all);
    assert(whole.last() == all.last());
    assert(forall|i: int| 0 <= i < all.len() ==> whole[i + 1] == #[trigger] all[i]);
    let one = if s.len() > 0 && s.last() == '\r' {
        s.drop_last()
    } else {
        s
    };
    assert(lines(s.push('\n') + t) == seq![one] + lines(t));
    assert(lines(s) == if s.len() == 0 {
        Seq::<Seq<char>>::empty()
    } else {
        seq![s]
    });
}

// ---- beginnings ----

/// What follows a beginning is what makes the whole text together with it.
pub proof fn law_prefix_and_rest_make_the_text(s: Seq<char>, prefix: Seq<char>, rest: Seq<char>)
    ensures
        after_prefix(s, prefix) == Some(rest) <==> s == prefix + rest,
{
    if s == prefix + rest {
        assert(s.take(prefix.len() as int) == prefix);
        assert(s.skip(prefix.len() as int) == rest);
    }
    if after_prefix(s, prefix) == Some(rest) {
        assert(s == s.take(prefix.len() as int) + s.skip(prefix.len() as int));
    }
}

/// One repetition more in front makes no difference, and a text that does not begin so stays
/// as it is.
pub proof fn law_repeated_prefixes_come_off(s: Seq<char>, prefix: Seq<char>)
    requires
        prefix.len() > 0,
    ensures
        without_prefixes(prefix + s, prefix) == without_prefixes(s, prefix),
        (forall|rest: Seq<char>| s != #[trigger] (prefix + rest)) ==> without_prefixes(s, prefix)
            == s,
{
    let whole = prefix + s;
    assert(whole.take(prefix.len() as int) == prefix);
    assert(whole.skip(prefix.len() as int) == s);
    if s.len() >= prefix.len() && s.take(prefix.len() as int) == prefix {
        assert(s == prefix + s.skip(prefix.len() as int));
    }
}

/// A text that holds a character is what stands before its first occurrence, that character,
/// and what stands behind it; a text that does not hold it stays whole.
pub proof fn law_first_occurrence_parts_the_text(s: Seq<char>, c: char)
    ensures
        s.contains(c) ==> s == before_first(s, c).push(c) + behind_first(s, c),
        !before_first(s, c).contains(c),
        !s.contains(c) ==> before_first(s, c) == s && behind_first(s, c) == s,
{
    lemma_position(s, c);
    let at = position(s, c);
    if s.contains(c) {
        let i = choose|i: int| 0 <= i < s.len() && s[i] == c;
        assert(at <= i);
        assert(s == s.take(at).push(c) + s.skip(at + 1));
    } else {
        if at < s.len() {
            assert(s.contains(s[at]));
        }
        assert(s.take(at) == s);
    }
}

proof fn lemma_position(s: Seq<char>, c: char)
    ensures
        0 <= position(s, c) <= s.len(),
        position(s, c) < s.len() ==> s[position(s, c)] == c,
        forall|i: int| 0 <= i < position(s, c) ==> #[trigger] s[i] != c,
    decreases s.len(),
{
    if s.len() > 0 && s[0] != c {
        lemma_position(s.skip(1), c);
        assert forall|i: int| 0 <= i < position(s, c) implies #[trigger] s[i] != c by {
            if i > 0 {
                assert(s.skip(1)[i - 1] == s[i]);
            }
        }
    }
}

/// What is computed is what is said here of texts.
pub proof fn law_texts_are_computed(
    s: &str,
    t: &str,
    u: &str,
    c: char,
    same: bool,
    two: String,
    three: String,
    middle: String,
    parts: Vec<String>,
    found: Vec<String>,
    ended: Vec<String>,
    rest: Option<String>,
    before: String,
    behind: String,
)
    requires
        call_ensures(same_text, (s, t), same),
        call_ensures(join2, (s, t), two),
        call_ensures(join3, (s, t, u), three),
        call_ensures(trim, (s,), middle),
        call_ensures(split, (s, Separator::Char(c)), parts),
        call_ensures(split_words, (s,), found),
        call_ensures(split_lines, (s,), ended),
        call_ensures(strip_prefix, (s, t), rest),
        call_ensures(text_before, (s, c), before),
        call_ensures(text_behind, (s, c), behind),
    ensures
        same <==> s@ == t@,
        two@ == s@ + t@,
        three@ == s@ + t@ + u@,
        middle@ == trimmed(s@),
        parts.deep_view() == pieces(s@, Separator::Char(c)),
        found.deep_view() == words(s@),
        ended.deep_view() == lines(s@),
        rest.deep_view() == after_prefix(s@, t@),
        before@ == before_first(s@, c),
        behind@ == behind_first(s@, c),
{
}

} // verus!
