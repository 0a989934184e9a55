//! The retry decisions of a JSON POST to a model API.
//!
//! The host sends the request; after each attempt it hands back what came of
//! it, and [`post_step`] says whether to accept the reply, try again, or give
//! up with an error. Before attempt `n > 0` the host waits
//! `RetryConfig::delay_before(n)`.

use vstd::prelude::*;

use crate::error::EngineError;

verus! {

/// What one attempt of a POST came to.
#[derive(Debug)]
pub enum PostReply {
    /// The request could not be sent or no reply came; the transport's message.
    SendFailed(String),
    /// A reply with this status code and body text.
    Status { status: u16, body: String },
}

/// What to do after an attempt.
#[derive(Debug)]
pub enum PostStep {
    /// Status 200: decode the body as the answer.
    Accept,
    /// Wait and try again; this error stands if no later attempt succeeds.
    Retry(EngineError),
    /// Stop with this error.
    Fail(EngineError),
}

/// The error that a failed attempt leaves: the transport's message, or the
/// status with the message that the reply carried.
pub open spec fn attempt_error(reply: PostReply, retryable: bool, envelope: Option<String>) -> EngineError {
    match reply {
        PostReply::SendFailed(m) => EngineError::Http(m),
        PostReply::Status { status, body } => {
            if retryable {
                EngineError::LlmApi { status, message: body }
            } else {
                EngineError::LlmApi {
                    status,
                    message: match envelope {
                        Some(m) => m,
                        None => body,
                    },
                }
            }
        },
    }
}

/// The step after attempt `attempt` (counted from zero) of at most
/// `max_retries + 1`: a reply of status 200 is accepted; a transport failure
/// or a status that `retryable` marks is tried again while attempts are left,
/// and otherwise ends the call with its error; any other status ends the call
/// with the message of the reply's error envelope where `envelope` holds one,
/// else with the body.
pub open spec fn post_step_spec(
    attempt: u32,
    max_retries: u32,
    reply: PostReply,
    retryable: bool,
    envelope: Option<String>,
) -> PostStep {
    match reply {
        PostReply::Status { status, .. } if status == 200 => PostStep::Accept,
        PostReply::Status { .. } if !retryable => PostStep::Fail(attempt_error(reply, false, envelope)),
        _ => if attempt < max_retries {
            PostStep::Retry(attempt_error(reply, true, envelope))
        } else {
            PostStep::Fail(attempt_error(reply, true, envelope))
        },
    }
}

/// The step after an attempt, for a status classifier whose verdict on the
/// reply's status is `retryable`, and `envelope` the message of the reply's
/// error envelope where its body holds one.
pub fn post_step(
    attempt: u32,
    max_retries: u32,
    reply: PostReply,
    retryable: bool,
    envelope: Option<String>,
) -> (r: PostStep)
    ensures
        r == post_step_spec(attempt, max_retries, reply, retryable, envelope),
        r is Retry ==> attempt < max_retries,
        reply matches PostReply::SendFailed(m) ==> (if attempt < max_retries {
            r == PostStep::Retry(EngineError::Http(m))
        } else {
            r == PostStep::Fail(EngineError::Http(m))
        }),
{
    match reply {
        PostReply::Status { status, body } => {
            if status == 200 {
                PostStep::Accept
            } else if !retryable {
                let message = match envelope {
                    Some(m) => m,
                    None => body,
                };
                PostStep::Fail(EngineError::LlmApi { status, message })
            } else if attempt < max_retries {
                PostStep::Retry(EngineError::LlmApi { status, message: body })
            } else {
                PostStep::Fail(EngineError::LlmApi { status, message: body })
            }
        },
        PostReply::SendFailed(m) => {
            if attempt < max_retries {
                PostStep::Retry(EngineError::Http(m))
            } else {
                PostStep::Fail(EngineError::Http(m))
            }
        },
    }
}

/// What each attempt leads to, for every attempt and reply: a reply of
/// status 200 is accepted; a transport failure, or a status marked
/// retryable, is tried again with its error while `attempt < max_retries`
/// and ends the call with that error once no retry is left; any other
/// status ends the call at once, with the envelope's message where there is
/// one. So a call is tried at most `max_retries + 1` times, and a transport
/// failure never ends it while retries are left.
pub proof fn lemma_post_step_outcomes(
    attempt: u32,
    max_retries: u32,
    reply: PostReply,
    retryable: bool,
    envelope: Option<String>,
)
    ensures
        ({
            let r = post_step_spec(attempt, max_retries, reply, retryable, envelope);
            &&& reply matches PostReply::SendFailed(m) ==> (if attempt < max_retries {
                r == PostStep::Retry(EngineError::Http(m))
            } else {
                r == PostStep::Fail(EngineError::Http(m))
            })
            &&& reply matches PostReply::Status { status, body } ==> {
                &&& status == 200 ==> r is Accept
                &&& status != 200 && retryable ==> (if attempt < max_retries {
                    r == PostStep::Retry(EngineError::LlmApi { status, message: body })
                } else {
                    r == PostStep::Fail(EngineError::LlmApi { status, message: body })
                })
                &&& status != 200 && !retryable ==> r == PostStep::Fail(
                    EngineError::LlmApi {
                        status,
                        message: match envelope {
                            Some(m) => m,
                            None => body,
                        },
                    },
                )
            }
            &&& r is Retry ==> attempt < max_retries
        }),
{
}

} // verus!
