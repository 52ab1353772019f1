//! Text helpers shared by the command handlers.

use vstd::prelude::*;
use vstd::string::StringExecFns;

verus! {

/// The lower-case form of a text, as the standard library computes it.
pub uninterp spec fn lowercase_of(text: Seq<char>) -> Seq<char>;

/// The words of a text: its maximal runs of characters that are not white space, in order.
pub uninterp spec fn words_of(text: Seq<char>) -> Seq<Seq<char>>;

/// Calls `str::to_lowercase`. Nothing is claimed of the result but that it is
/// the lower-case form of the argument, which depends on the characters alone.
#[verifier::external_body]
pub(crate) fn to_lowercase(text: &str) -> (lower: String)
    ensures
        lower@ == lowercase_of(text@),
{
    text.to_lowercase()
}

/// Calls `str::split_whitespace` and hands each word out as an owned string.
/// Nothing is claimed of the result but that it is the words of the argument,
/// which depend on the characters alone.
#[verifier::external_body]
pub(crate) fn split_whitespace(text: &str) -> (words: Vec<String>)
    ensures
        words.deep_view() == words_of(text@),
{
    text.split_whitespace().map(str::to_owned).collect()
}

/// The character that stands for the digit `d`.
pub open spec fn digit(d: nat) -> char {
    seq!['0', '1', '2', '3', '4', '5', '6', '7', '8', '9'][d as int]
}

/// The decimal digits of `n`, the most significant first.
pub open spec fn decimal(n: nat) -> Seq<char>
    decreases n,
{
    if n < 10 {
        seq![digit(n)]
    } else {
        decimal(n / 10).push(digit(n % 10))
    }
}

/// Whether two texts hold the same characters.
pub fn same_text(a: &str, b: &str) -> (same: bool)
    ensures
        same == (a@ == b@),
{
    a.to_owned() == b.to_owned()
}

/// The words put back together with one space between neighbours.
pub open spec fn joined(words: Seq<Seq<char>>) -> Seq<char>
    decreases words.len(),
{
    if words.len() == 0 {
        Seq::empty()
    } else if words.len() == 1 {
        words[0]
    } else {
        joined(words.drop_last()) + seq![' '] + words.last()
    }
}

/// Joins the words from position `from` on with single spaces.
pub fn join_words(words: &Vec<String>, from: usize) -> (text: String)
    requires
        from <= words.len(),
    ensures
        text@ == joined(words.deep_view().skip(from as int)),
{
    let ghost all = words.deep_view();
    let mut text = String::new();
    let mut i: usize = from;
    while i < words.len()
        invariant
            from <= i <= words.len(),
            all == words.deep_view(),
            text@ == joined(all.subrange(from as int, i as int)),
        decreases words.len() - i,
    {
        proof {
            let before = all.subrange(from as int, i as int);
            let after = all.subrange(from as int, i + 1);
            assert(after.drop_last() == before);
            assert(after.last() == words[i as int]@);
            reveal_strlit(" ");
            assert(" "@ == seq![' ']);
        }
        if i > from {
            text.append(" ");
        }
        text.append(words[i].as_str());
        i += 1;
    }
    proof {
        assert(all.subrange(from as int, words.len() as int) == all.skip(from as int));
    }
    text
}

/// `prefix` followed by `rest`.
pub fn concat(prefix: &str, rest: &str) -> (text: String)
    ensures
        text@ == prefix@ + rest@,
{
    let mut text = String::from_str(prefix);
    text.append(rest);
    text
}

} // verus!
