//! How cutting, joining and trimming text fit together.
use vstd::prelude::*;

use crate::parser_laws::{no_separator, split_of_concat};
use crate::text::{
    first_of, first_of_is_first, is_white, joined, lower_char, lowered, split_by, stripped,
    stripped_end, stripped_start, trimmed, trimmed_end, trimmed_start, upper_char, uppered,
};

verus! {

/// Nothing but white space.
pub open spec fn blank(s: Seq<char>) -> bool {
    forall|i: int| 0 <= i < s.len() ==> is_white(#[trigger] s[i])
}

/// A text that neither begins nor ends with white space.
pub open spec fn trim_free(s: Seq<char>) -> bool {
    s.len() > 0 ==> !is_white(s[0]) && !is_white(s.last())
}

/// White space before a text is trimmed off.
pub proof fn leading_white_goes(white: Seq<char>, s: Seq<char>)
    requires
        blank(white),
        s.len() > 0 ==> !is_white(s[0]),
    ensures
        trimmed_start(white + s) == s,
    decreases white.len(),
{
    if white.len() == 0 {
        assert(white + s =~= s);
    } else {
        assert((white + s)[0] == white[0]);
        assert((white + s).skip(1) =~= white.skip(1) + s);
        assert forall|i: int| 0 <= i < white.skip(1).len() implies is_white(
            #[trigger] white.skip(1)[i],
        ) by {
            assert(white.skip(1)[i] == white[i + 1]);
        }
        leading_white_goes(white.skip(1), s);
    }
}

/// White space behind a text is trimmed off.
pub proof fn trailing_white_goes(s: Seq<char>, white: Seq<char>)
    requires
        blank(white),
        s.len() > 0 ==> !is_white(s.last()),
    ensures
        trimmed_end(s + white) == s,
    decreases white.len(),
{
    if white.len() == 0 {
        assert(s + white =~= s);
    } else {
        assert((s + white).last() == white.last());
        assert((s + white).drop_last() =~= s + white.drop_last());
        assert forall|i: int| 0 <= i < white.drop_last().len() implies is_white(
            #[trigger] white.drop_last()[i],
        ) by {
            assert(white.drop_last()[i] == white[i]);
        }
        trailing_white_goes(s, white.drop_last());
    }
}

/// Trimming takes off the white space around a text, and nothing of the text.
pub proof fn trimming_leaves_the_text(before: Seq<char>, s: Seq<char>, behind: Seq<char>)
    requires
        blank(before),
        blank(behind),
        trim_free(s),
    ensures
        trimmed(before + s + behind) == s,
        trimmed(s) == s,
        trimmed(before + s) == s,
{
    let none = Seq::<char>::empty();
    if s.len() > 0 {
        assert(before + s + behind =~= before + (s + behind));
        assert((s + behind)[0] == s[0]);
        leading_white_goes(before, s + behind);
        trailing_white_goes(s, behind);
        leading_white_goes(before, s);
        leading_white_goes(none, s);
        assert(none + s =~= s);
        trailing_white_goes(s, none);
        assert(s + none =~= s);
    } else {
        let all = before + s + behind;
        assert(blank(all)) by {
            assert forall|i: int| 0 <= i < all.len() implies is_white(#[trigger] all[i]) by {
                if i < before.len() {
                    assert(all[i] == before[i]);
                } else {
                    assert(all[i] == behind[i - before.len()]);
                }
            }
        }
        leading_white_goes(all, none);
        assert(all + none =~= all);
        leading_white_goes(before, none);
        assert(before + none =~= before);
        assert(before + s =~= before);
        assert(s =~= none);
        assert(trimmed(none) =~= none);
    }
}

/// A text that was trimmed has no white space around it.
pub proof fn trimmed_text_is_free(s: Seq<char>)
    ensures
        trim_free(trimmed(s)),
        trimmed_start(s).len() > 0 ==> !is_white(trimmed_start(s)[0]),
    decreases s.len(),
{
    if s.len() > 0 && is_white(s[0]) {
        trimmed_text_is_free(s.skip(1));
    } else {
        end_is_free(s);
    }
}

proof fn end_is_free(s: Seq<char>)
    requires
        s.len() > 0 ==> !is_white(s[0]),
    ensures
        trim_free(trimmed_end(s)),
    decreases s.len(),
{
    if s.len() > 0 && is_white(s.last()) {
        assert(s.len() > 1);
        end_is_free(s.drop_last());
    }
}

/// Stripping takes off the copies of a character around a text, and nothing of
/// the text.
pub proof fn stripping_leaves_the_text(m: nat, s: Seq<char>, n: nat, c: char)
    requires
        s.len() > 0,
        s[0] != c,
        s.last() != c,
    ensures
        stripped(Seq::new(m, |i: int| c) + s + Seq::new(n, |i: int| c), c) == s,
        stripped_end(s + Seq::new(n, |i: int| c), c) == s,
    decreases m + n,
{
    let before = Seq::new(m, |i: int| c);
    let behind = Seq::new(n, |i: int| c);
    let all = before + s + behind;
    if m > 0 {
        let less = Seq::new((m - 1) as nat, |i: int| c);
        assert(all[0] == c);
        assert(all.skip(1) =~= less + s + behind);
        stripping_leaves_the_text((m - 1) as nat, s, n, c);
        assert(stripped_start(all, c) == stripped_start(all.skip(1), c));
    } else {
        assert(all =~= s + behind);
        assert(all[0] == s[0]);
        if n > 0 {
            let less = Seq::new((n - 1) as nat, |i: int| c);
            assert((s + behind).last() == c);
            assert((s + behind).drop_last() =~= s + less);
            stripping_leaves_the_text(0, s, (n - 1) as nat, c);
            let none = Seq::new(0, |i: int| c);
            assert(none + s + less =~= s + less);
        } else {
            assert(s + behind =~= s);
        }
    }
}

/// A text without a character.
pub open spec fn lacks(s: Seq<char>, c: char) -> bool {
    forall|i: int| 0 <= i < s.len() ==> #[trigger] s[i] != c
}

/// Parts that are joined by a separator which none of them holds come apart at
/// it again.
pub proof fn joined_parts_come_apart(parts: Seq<Seq<char>>, c: char)
    requires
        parts.len() > 0,
        forall|i: int| 0 <= i < parts.len() ==> lacks(#[trigger] parts[i], c),
    ensures
        split_by(joined(parts, seq![c]), c) == parts,
    decreases parts.len(),
{
    let last = parts.last();
    assert(lacks(parts[parts.len() - 1], c));
    no_separator(last, c);
    assert(split_by(last, c) =~= seq![last]);
    if parts.len() == 1 {
        assert(parts =~= seq![parts[0]]);
    } else {
        let front = parts.drop_last();
        assert forall|i: int| 0 <= i < front.len() implies lacks(#[trigger] front[i], c) by {
            assert(front[i] == parts[i]);
        }
        joined_parts_come_apart(front, c);
        split_of_concat(joined(front, seq![c]), last, c);
        assert(front + seq![last] =~= parts);
    }
}

/// A text that was cut at a separator is put together again with it, and no
/// piece holds it.
pub proof fn cut_text_goes_together(s: Seq<char>, c: char)
    ensures
        joined(split_by(s, c), seq![c]) == s,
        split_by(s, c).len() > 0,
        forall|i: int| 0 <= i < split_by(s, c).len() ==> lacks(#[trigger] split_by(s, c)[i], c),
    decreases s.len(),
{
    first_of_is_first(s, c);
    let i = first_of(s, c);
    if i >= s.len() {
        assert(split_by(s, c)[0] == s);
    } else {
        let rest = s.skip(i + 1);
        let pieces = split_by(rest, c);
        let all = split_by(s, c);
        cut_text_goes_together(rest, c);
        assert(all == seq![s.take(i)] + pieces);
        joined_from_the_front(s.take(i), pieces, seq![c]);
        assert(s.take(i) + seq![c] + rest =~= s);
        assert forall|k: int| 0 <= k < all.len() implies lacks(#[trigger] all[k], c) by {
            if k > 0 {
                assert(all[k] == pieces[k - 1]);
            } else {
                assert(all[0] == s.take(i));
            }
        }
    }
}

proof fn joined_from_the_front(first: Seq<char>, rest: Seq<Seq<char>>, sep: Seq<char>)
    requires
        rest.len() > 0,
    ensures
        joined(seq![first] + rest, sep) == first + sep + joined(rest, sep),
    decreases rest.len(),
{
    let all = seq![first] + rest;
    assert(all.last() == rest.last());
    assert(all.drop_last() =~= seq![first] + rest.drop_last());
    if rest.len() == 1 {
        assert(all.drop_last() =~= seq![first]);
        assert(joined(all.drop_last(), sep) == first);
    } else {
        joined_from_the_front(first, rest.drop_last(), sep);
        assert(first + sep + joined(rest.drop_last(), sep) + sep + rest.last() =~= first + sep + (
        joined(rest.drop_last(), sep) + sep + rest.last()));
    }
}

/// The letters of ASCII, and no other characters, have two cases; the other case
/// is the letter thirty-two places off.
pub proof fn letters_have_two_cases(c: char)
    ensures
        'A' <= c && c <= 'Z' ==> lower_char(c) as u32 == c as u32 + 32 && upper_char(lower_char(c))
            == c,
        'a' <= c && c <= 'z' ==> upper_char(c) as u32 == c as u32 - 32 && lower_char(upper_char(c))
            == c,
        !('A' <= c && c <= 'Z') ==> lower_char(c) == c,
        !('a' <= c && c <= 'z') ==> upper_char(c) == c,
{
    vstd::utf8::char_u32_cast(c, c as u32);
}

/// The case of a text changes character by character.
pub proof fn cases_change_by_character(s: Seq<char>, i: int)
    requires
        0 <= i < s.len(),
    ensures
        lowered(s).len() == s.len(),
        uppered(s).len() == s.len(),
        lowered(s)[i] == lower_char(s[i]),
        uppered(s)[i] == upper_char(s[i]),
{
}

} // verus!
