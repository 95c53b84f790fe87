use vstd::prelude::*;

verus! {

/// Express sentiment as a value between `-INF` & `+INF`.
/// Negative values tell of a negative mood, positive values of a positive one.
pub type Value = i64;

/// The score that the `sentiment` crate's `analyze` gives to `text`, cut to a whole number.
pub uninterp spec fn sentiment_score(text: Seq<char>) -> i64;

/// Calls `sentiment::analyze` on a copy of `content` and returns the `score` of the analysis
/// as a whole number.
///
/// The contract claims that the score depends on the text alone: `analyze` looks each word of
/// the text up in a word list that is built into the crate and adds up what it finds.
#[verifier::external_body]
fn analyze_score(content: &str) -> (score: i64)
    ensures
        score == sentiment_score(content@),
{
    ::sentiment::analyze(content.to_owned()).score as i64
}

/// The sentiment value of a message.
pub fn message_value(content: &str) -> (value: Value)
    ensures
        value == sentiment_score(content@),
{
    // Note: a word list is a very primitive measure of mood, and a slow one.
    analyze_score(content)
}

} // verus!
