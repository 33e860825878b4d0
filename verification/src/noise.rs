//! Stray characters in the mutex file, and their removal.
//!
//! Tools that write the file may leave a newline, blanks or control
//! characters around the state word, or between its letters. Only ASCII
//! letters and digits count; everything else is noise.

use regex::Regex;
use vstd::prelude::*;

verus! {

/// Whether `c` is one of the 62 ASCII letters and digits.
pub open spec fn is_alnum(c: char) -> bool {
    ('a' <= c && c <= 'z') || ('A' <= c && c <= 'Z') || ('0' <= c && c <= '9')
}

/// `text` without its noise: the ASCII letters and digits of `text`, in
/// their order.
pub open spec fn stripped(text: Seq<char>) -> Seq<char> {
    text.filter(|c: char| is_alnum(c))
}

/// The regular expression that matches one run of noise.
pub open spec fn noise_pattern() -> Seq<char> {
    "[^a-zA-Z0-9]+"@
}

/// Compiles `pattern` with `regex::Regex::new` and deletes every match of
/// it from `haystack` with `Regex::replace_all`, the replacement being the
/// empty string.
///
/// The contract covers the one pattern this library uses: one or more
/// characters, none of them an ASCII letter or digit. The pattern is well
/// formed, so compiling it succeeds. A match of it is a maximal run of such
/// characters; the matches that `replace_all` finds do not overlap and
/// leave no such character out, and the empty replacement has nothing to
/// expand. What is returned is therefore the letters and digits of
/// `haystack`, in their order.
#[verifier::external_body]
fn delete_matches(pattern: &str, haystack: &str) -> (cleaned: String)
    requires
        pattern@ == noise_pattern(),
    ensures
        cleaned@ == stripped(haystack@),
{
    Regex::new(pattern).unwrap().replace_all(haystack, "").into_owned()
}

/// Removes the noise from `text`.
pub fn strip_noise(text: &str) -> (cleaned: String)
    ensures
        cleaned@ == stripped(text@),
{
    delete_matches("[^a-zA-Z0-9]+", text)
}

/// Text made of letters and digits only has no noise to lose.
pub proof fn lemma_clean_text_is_kept(text: Seq<char>)
    requires
        forall|i: int| 0 <= i < text.len() ==> is_alnum(#[trigger] text[i]),
    ensures
        stripped(text) == text,
    decreases text.len(),
{
    reveal(Seq::filter);
    if text.len() > 0 {
        lemma_clean_text_is_kept(text.drop_last());
        assert(text.drop_last().push(text.last()) =~= text);
    }
}

/// Text without any letter or digit is lost entirely.
pub proof fn lemma_pure_noise_vanishes(text: Seq<char>)
    requires
        forall|i: int| 0 <= i < text.len() ==> !is_alnum(#[trigger] text[i]),
    ensures
        stripped(text) == Seq::<char>::empty(),
    decreases text.len(),
{
    reveal(Seq::filter);
    if text.len() > 0 {
        lemma_pure_noise_vanishes(text.drop_last());
    }
}

/// Stripping works piece by piece.
pub proof fn lemma_stripped_concat(left: Seq<char>, right: Seq<char>)
    ensures
        stripped(left + right) == stripped(left) + stripped(right),
{
    Seq::filter_distributes_over_add(left, right, |c: char| is_alnum(c));
}

/// Noise may stand anywhere in a text without changing what is left of it.
pub proof fn lemma_noise_is_ignored(left: Seq<char>, noise: Seq<char>, right: Seq<char>)
    requires
        forall|i: int| 0 <= i < noise.len() ==> !is_alnum(#[trigger] noise[i]),
    ensures
        stripped(left + noise + right) == stripped(left + right),
{
    lemma_pure_noise_vanishes(noise);
    lemma_stripped_concat(left, noise);
    lemma_stripped_concat(left + noise, right);
    lemma_stripped_concat(left, right);
    assert(stripped(left) + Seq::<char>::empty() =~= stripped(left));
}

/// What is left after stripping holds letters and digits only, so
/// stripping twice is stripping once.
pub proof fn lemma_stripped_is_clean(text: Seq<char>)
    ensures
        forall|i: int| 0 <= i < stripped(text).len() ==> is_alnum(#[trigger] stripped(text)[i]),
        stripped(stripped(text)) == stripped(text),
{
    let keep = |c: char| is_alnum(c);
    assert forall|i: int| 0 <= i < stripped(text).len() implies is_alnum(
        #[trigger] stripped(text)[i],
    ) by {
        text.lemma_filter_pred(keep, i);
    }
    lemma_clean_text_is_kept(stripped(text));
}

} // verus!
