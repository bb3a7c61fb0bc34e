//! What it means that a document tells something under a name.
use vstd::prelude::*;

use crate::text::{ends, text_at};

verus! {

/// The value stands in the document right behind the name of its field.
#[verifier::opaque]
pub open spec fn tells(doc: Seq<char>, field: Seq<char>, value: Seq<char>) -> bool {
    exists|i: int| #[trigger] text_at(doc, field + value, i)
}

/// What a document tells it still tells with more behind it.
pub broadcast proof fn told_on(s: Seq<char>, t: Seq<char>, field: Seq<char>, value: Seq<char>)
    requires
        tells(s, field, value),
    ensures
        #[trigger] tells(s + t, field, value),
{
    reveal(tells);
    let w = field + value;
    let i = choose|i: int| #[trigger] text_at(s, w, i);
    assert((s + t).subrange(i, i + w.len()) =~= s.subrange(i, i + w.len()));
    assert(text_at(s + t, w, i));
}

/// A value behind the name of its field is told.
pub broadcast proof fn told_here(
    s: Seq<char>,
    name: Seq<char>,
    field: Seq<char>,
    value: Seq<char>,
)
    requires
        ends(name, field),
    ensures
        #[trigger] tells(s + name + value, field, value),
{
    reveal(tells);
    let all = s + name + value;
    let w = field + value;
    let i = s.len() + name.len() - field.len();
    assert forall|k: int| 0 <= k < field.len() implies all[i + k] == field[k] by {
        assert(name.skip(name.len() - field.len())[k] == field[k]);
    }
    assert(all.subrange(i, i + w.len()) =~= w);
    assert(text_at(all, w, i));
}

/// A value behind the name of the first field is told.
pub broadcast proof fn told_first(name: Seq<char>, field: Seq<char>, value: Seq<char>)
    requires
        ends(name, field),
    ensures
        #[trigger] tells(name + value, field, value),
{
    told_here(Seq::empty(), name, field, value);
    assert(Seq::<char>::empty() + name + value =~= name + value);
}

/// A value right behind some words is told under them.
pub broadcast proof fn told_words(s: Seq<char>, words: Seq<char>, value: Seq<char>)
    ensures
        #[trigger] tells(s + words + value, words, value),
{
    assert(words.skip(0) =~= words);
    told_here(s, words, words, value);
}

/// A value right behind the first words is told under them.
pub broadcast proof fn told_first_words(words: Seq<char>, value: Seq<char>)
    ensures
        #[trigger] tells(words + value, words, value),
{
    assert(words.skip(0) =~= words);
    told_first(words, words, value);
}

} // verus!
