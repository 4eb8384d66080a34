//! The decisions of the posting schedule: which verse is published, and how
//! long to wait after an attempt.
//!
//! The schedule draws a verse at random, draws again while the verse is too
//! long, publishes it, and then waits: for the posting interval after a
//! success, for the retry delay after a failure that may be retried. Any
//! other failure ends it. The caller runs the loop and does the waiting.

use crate::quran_csv::Verse;
use crate::tw_api::content::QuranTweet;
use crate::tw_api::response::PublishError;
use rand::seq::SliceRandom;
use vstd::prelude::*;
use vstd::string::StrSliceExecFns;

verus! {

/// The most characters that either text of a published verse may have.
pub const MAX_LEN: usize = 170;

/// The seconds to wait before an attempt is made again.
pub const RETRY_DELAY_SECS: u64 = 100;

/// The seconds to wait after a verse was published.
pub const POST_INTERVAL_SECS: u64 = 7200;

/// Whether neither text of the verse has more than `max_len` characters.
pub open spec fn fits(v: &Verse, max_len: usize) -> bool {
    v.ayah_en@.len() <= max_len && v.ayah_ar@.len() <= max_len
}

/// The content of the verse, if it fits. A verse with a text of more than
/// `max_len` characters is never made into content.
pub fn consider<'a>(v: &'a Verse, max_len: usize) -> (content: Option<QuranTweet<'a>>)
    ensures
        content is Some <==> fits(v, max_len),
        content matches Some(q) ==> q.is_content_of(v),
{
    if v.ayah_en.as_str().unicode_len() > max_len || v.ayah_ar.as_str().unicode_len() > max_len {
        None
    } else {
        Some(QuranTweet::from(v))
    }
}

/// `rand::seq::SliceRandom::choose` on the verses, with the generator
/// `rand::thread_rng()`: one of the verses, or nothing where there is none.
/// Which one it is depends on chance.
#[verifier::external_body]
fn choose_verse<'a>(verses: &'a Vec<Verse>) -> (chosen: Option<&'a Verse>)
    ensures
        chosen is None <==> verses@.len() == 0,
        chosen matches Some(v) ==> verses@.contains(*v),
{
    verses.choose(&mut rand::thread_rng())
}

/// What one draw from the verses gave.
#[derive(Debug)]
pub enum Draw<'a> {
    /// There is no verse to draw.
    Empty,
    /// The verse that was drawn is too long: draw again.
    TooLong,
    /// The content of the verse that was drawn.
    Content(QuranTweet<'a>),
}

/// Draws one verse at random and makes it into content if it fits.
pub fn draw<'a>(verses: &'a Vec<Verse>, max_len: usize) -> (drawn: Draw<'a>)
    ensures
        drawn is Empty <==> verses@.len() == 0,
        drawn is TooLong ==> exists|i: int|
            0 <= i < verses@.len() && !fits(&#[trigger] verses@[i], max_len),
        drawn matches Draw::Content(q) ==> exists|i: int|
            0 <= i < verses@.len() && fits(&#[trigger] verses@[i], max_len) && q.is_content_of(
                &verses@[i],
            ),
{
    match choose_verse(verses) {
        None => Draw::Empty,
        Some(v) => match consider(v, max_len) {
            None => Draw::TooLong,
            Some(content) => Draw::Content(content),
        },
    }
}

/// What the schedule does after a publish attempt.
#[derive(Debug, Clone, Copy, PartialEq, Eq)]
pub enum Next {
    /// The verse was published: wait this many seconds, then publish another.
    Rest(u64),
    /// The attempt failed and may be made again: wait this many seconds.
    Retry(u64),
    /// The attempt failed for good: stop.
    Abort,
}

pub open spec fn spec_after_publish(outcome: &Result<(), PublishError>) -> Next {
    match outcome {
        Ok(_) => Next::Rest(POST_INTERVAL_SECS),
        Err(PublishError::Tweet(_)) => Next::Retry(RETRY_DELAY_SECS),
        Err(PublishError::Other(_)) => Next::Abort,
    }
}

/// What to do after a publish attempt with this outcome.
pub fn after_publish(outcome: &Result<(), PublishError>) -> (next: Next)
    ensures
        next == spec_after_publish(outcome),
{
    match outcome {
        Ok(_) => Next::Rest(POST_INTERVAL_SECS),
        Err(PublishError::Tweet(_)) => Next::Retry(RETRY_DELAY_SECS),
        Err(PublishError::Other(_)) => Next::Abort,
    }
}

} // verus!
