//! The publishing client: what is posted, how a request is signed, and what a
//! response means.

pub mod client;
pub mod content;
pub mod response;
pub mod signing;

pub use self::client::{Body, Event, Request, Stage, Step, TwClient};
pub use self::content::{QuranTweet, Reply, ReplyId, Tweet, Tweetable};
pub use self::response::{
    classify, expected_shape, Decoded, ErrorResponseElement, GeneralErrorResponse, HttpStatus,
    OtherErrorResponse, PublishError, Shape, TweetError, TweetResponse, TweetResponseData,
    Verdict,
};
pub use self::signing::{sign, Credentials, Timestamp};
