//! The client and the two steps of a publish attempt.
//!
//! A publish attempt is a post followed by a reply to it. The client decides
//! what is sent and what each response means; it sends nothing itself. The
//! caller sends the request it is handed, reports what came back as an
//! `Event`, and is told the next `Step`.

use crate::api_endpoints::POST_TW;
use crate::tw_api::content::{Reply, Tweet, Tweetable};
use crate::tw_api::response::{
    agrees, classify, shows, verdict, Decoded, HttpStatus, PublishError, TweetError, Verdict,
};
use crate::tw_api::signing::{sign, signed_header, Credentials, Timestamp};
use vstd::prelude::*;
use vstd::string::StringExecFns;

verus! {

/// Which of the two requests of a publish attempt is under way.
#[derive(Debug, Clone, Copy, PartialEq, Eq)]
pub enum Stage {
    Post,
    Reply,
}

/// The body of a request, to be sent as JSON.
#[derive(Debug)]
pub enum Body {
    Tweet(Tweet),
    Reply(Reply),
}

/// A request for the caller to send.
#[derive(Debug)]
pub struct Request {
    pub method: String,
    pub url: String,
    /// The value of the `Authorization` header.
    pub authorization: String,
    /// The value of the `Content-Type` header.
    pub content_type: String,
    pub body: Body,
}

impl Request {
    /// Whether this is a `POST` of JSON to the posting endpoint, signed with
    /// these credentials at this time and with this nonce.
    pub open spec fn is_signed_post(
        &self,
        creds: &Credentials,
        time: Timestamp,
        nonce: Seq<char>,
    ) -> bool {
        &&& self.method@ == "POST"@
        &&& self.url@ == POST_TW@
        &&& self.content_type@ == "application/json"@
        &&& self.authorization@ == signed_header("POST"@, POST_TW@, creds, time, nonce)
    }
}

/// What came of sending a request.
#[derive(Debug)]
pub enum Event {
    /// A response arrived, with this status; its body was read in the form
    /// that `expected_shape` names for the status.
    Response(HttpStatus, Decoded),
    /// No response arrived; the text says why.
    TransportFailed(String),
}

/// What the caller does next.
#[derive(Debug)]
pub enum Step {
    /// Send this request; it belongs to this stage.
    Send(Stage, Request),
    /// The attempt is over.
    Done(Result<(), PublishError>),
}

/// The client of the posting API, with the credentials it signs with.
pub struct TwClient {
    creds: Credentials,
}

/// The posting endpoint names no query part.
proof fn lemma_endpoint_has_no_query()
    ensures
        !POST_TW@.contains('?'),
{
    reveal_strlit("https://api.twitter.com/2/tweets");
}

impl TwClient {
    /// The credentials that the client signs with.
    pub closed spec fn creds(&self) -> Credentials {
        self.creds
    }

    pub fn new(creds: Credentials) -> (client: Self)
        ensures
            client.creds() == creds,
    {
        Self { creds }
    }

    /// The signed request that carries `body`.
    pub fn signed_request(&self, body: Body, time: Timestamp, nonce: &str) -> (request: Request)
        ensures
            request.is_signed_post(&self.creds(), time, nonce@),
            request.body == body,
    {
        proof {
            lemma_endpoint_has_no_query();
        }
        let authorization = sign("POST", POST_TW, &self.creds, time, nonce).unwrap();
        Request {
            method: String::from_str("POST"),
            url: String::from_str(POST_TW),
            authorization,
            content_type: String::from_str("application/json"),
            body,
        }
    }

    /// Starts a publish attempt: the request that creates the post.
    pub fn start<T: Tweetable>(&self, content: &T, time: Timestamp, nonce: &str) -> (request:
        Request)
        ensures
            request.is_signed_post(&self.creds(), time, nonce@),
            request.body matches Body::Tweet(tweet) && content.is_post(tweet),
    {
        self.signed_request(Body::Tweet(content.fmt_tweet()), time, nonce)
    }

    /// Continues a publish attempt after the request of `stage` was sent and
    /// `event` came of it. A request that this returns is signed at `time`
    /// with `nonce`.
    ///
    /// - No response: the attempt fails, and is not to be retried.
    /// - The post was created: the reply to it is sent next, with the
    ///   identifier from the response.
    /// - The reply was created: the attempt has succeeded.
    /// - The API refused either request: the attempt fails and may be
    ///   retried. A post that was created stays.
    /// - Status 201 with a body that could not be read: for the post, the
    ///   attempt fails and is not to be retried; for the reply, it fails and
    ///   may be retried.
    pub fn proceed<T: Tweetable>(
        &self,
        stage: Stage,
        content: &T,
        event: Event,
        time: Timestamp,
        nonce: &str,
    ) -> (step: Step)
        ensures
            match event {
                Event::TransportFailed(why) => step matches Step::Done(
                    Err(PublishError::Other(text)),
                ) && text@ == why@,
                Event::Response(status, body) => match verdict(status@, body) {
                    Verdict::Created(created) => match stage {
                        Stage::Post => {
                            &&& step matches Step::Send(Stage::Reply, request)
                            &&& request.is_signed_post(&self.creds(), time, nonce@)
                            &&& request.body matches Body::Reply(reply)
                            &&& content.is_reply(created.data.id@, reply)
                        },
                        Stage::Reply => step == Step::Done(Ok(())),
                    },
                    Verdict::Refused { message, painted } => step matches Step::Done(
                        Err(PublishError::Tweet(e)),
                    ) && shows(message, painted, e.0@),
                    Verdict::Unreadable(why) => match stage {
                        Stage::Post => step matches Step::Done(Err(PublishError::Other(text)))
                            && text@ == why,
                        Stage::Reply => step matches Step::Done(Err(PublishError::Tweet(e)))
                            && e.0@ == why,
                    },
                },
            },
            // A post that was created is followed by the reply to it, which
            // names the post by the identifier from the response.
            event matches Event::Response(status, Decoded::Tweet(created)) ==> stage is Post
                && status@ == 201 ==> (step matches Step::Send(Stage::Reply, request)
                && request.body matches Body::Reply(reply) && content.is_reply(
                created.data.id@,
                reply,
            )),
            // The attempt succeeds only when the reply was created.
            step matches Step::Done(Ok(_)) ==> stage is Reply && (event matches Event::Response(
                status,
                Decoded::Tweet(_),
            ) && status@ == 201),
            // A response other than 201 ends the attempt with a retryable
            // error that has a text.
            event matches Event::Response(status, _) ==> status@ != 201 ==> (step matches Step::Done(
                Err(e),
            ) && e is Tweet && e.spec_detail().len() > 0),
    {
        match event {
            Event::TransportFailed(why) => Step::Done(Err(PublishError::Other(why))),
            Event::Response(status, body) => match classify(status, body) {
                Ok(created) => match stage {
                    Stage::Post => {
                        let reply = content.fmt_tweet_tr(created.data.id);
                        Step::Send(Stage::Reply, self.signed_request(Body::Reply(reply), time, nonce))
                    },
                    Stage::Reply => Step::Done(Ok(())),
                },
                Err(PublishError::Tweet(e)) => Step::Done(Err(PublishError::Tweet(e))),
                Err(PublishError::Other(why)) => match stage {
                    Stage::Post => Step::Done(Err(PublishError::Other(why))),
                    Stage::Reply => Step::Done(Err(PublishError::Tweet(TweetError(why)))),
                },
            },
        }
    }
}

} // verus!
