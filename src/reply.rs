use crate::intake::IntakeError;
use crate::processor::{OutputFormat, ProcessError};
use vstd::prelude::*;

verus! {

/// Seconds a conversion may run before the request is answered with a timeout.
pub const PROCESSING_DEADLINE_SECS: u64 = 30;

/// How the off-thread conversion ended, as seen by the waiting request.
pub enum Outcome {
    /// The pipeline returned within the deadline.
    Finished(Result<Vec<u8>, ProcessError>),
    /// The worker failed without the pipeline reporting an error.
    WorkerFault,
    /// The deadline passed first; the worker may still be running.
    DeadlineElapsed,
}

/// What is sent back for one request.
pub enum Reply {
    /// 200 with the encoded image, its MIME type and a correlation id.
    Image { format: OutputFormat, bytes: Vec<u8>, request_id: String },
    /// An error status with a short text body.
    Failure { status: u16, message: &'static str },
}

pub open spec fn mime_of(format: OutputFormat) -> Seq<char> {
    match format {
        OutputFormat::WebP => "image/webp"@,
        OutputFormat::Avif => "image/avif"@,
    }
}

pub open spec fn reply_status(r: Reply) -> u16 {
    match r {
        Reply::Image { .. } => 200,
        Reply::Failure { status, .. } => status,
    }
}

/// The status owed for each way a conversion can end.
pub open spec fn outcome_status(o: Outcome) -> u16 {
    match o {
        Outcome::Finished(Ok(_)) => 200,
        Outcome::Finished(Err(_)) => 422,
        Outcome::WorkerFault => 500,
        Outcome::DeadlineElapsed => 408,
    }
}

/// The text body sent when a conversion did not produce an image; pipeline
/// errors share one opaque message whatever their cause.
pub open spec fn outcome_message(o: Outcome) -> Seq<char> {
    match o {
        Outcome::Finished(Ok(_)) => Seq::empty(),
        Outcome::Finished(Err(_)) => "Image processing failed"@,
        Outcome::WorkerFault => "Internal error"@,
        Outcome::DeadlineElapsed => "Processing timed out"@,
    }
}

impl OutputFormat {
    pub fn mime_type(&self) -> (r: &'static str)
        ensures
            r@ == mime_of(*self),
    {
        match self {
            OutputFormat::WebP => "image/webp",
            OutputFormat::Avif => "image/avif",
        }
    }
}

impl Reply {
    pub fn status(&self) -> (r: u16)
        ensures
            r == reply_status(*self),
    {
        match self {
            Reply::Image { .. } => 200,
            Reply::Failure { status, .. } => *status,
        }
    }

    /// The `Content-Type` of a successful reply.
    pub fn content_type(&self) -> (r: Option<&'static str>)
        ensures
            match *self {
                Reply::Image { format, .. } => r matches Some(t) && t@ == mime_of(format),
                Reply::Failure { .. } => r is None,
            },
    {
        match self {
            Reply::Image { format, .. } => Some(format.mime_type()),
            Reply::Failure { .. } => None,
        }
    }

    /// The answer to a request whose credential was absent or wrong; it is the
    /// same for every such request.
    pub fn unauthorized() -> (r: Reply)
        ensures
            r matches Reply::Failure { status, message } && status == 401 && message@
                == "Unauthorized"@,
    {
        Reply::Failure { status: 401, message: "Unauthorized" }
    }

    /// The answer to a request whose fields were refused.
    pub fn rejected(e: IntakeError) -> (r: Reply)
        ensures
            reply_status(r) == 400,
            r matches Reply::Failure { message, .. } && message@ == crate::intake::intake_message(e),
    {
        Reply::Failure { status: e.status(), message: e.message() }
    }

    /// The answer to a conversion that ended with `outcome`; a successful one
    /// carries the bytes unchanged with `format`'s MIME type and `request_id`.
    pub fn from_outcome(outcome: Outcome, format: OutputFormat, request_id: String) -> (r: Reply)
        ensures
            reply_status(r) == outcome_status(outcome),
            match outcome {
                Outcome::Finished(Ok(bytes)) => r == (Reply::Image { format, bytes, request_id }),
                _ => r matches Reply::Failure { status, message } && status == outcome_status(
                    outcome,
                ) && message@ == outcome_message(outcome),
            },
    {
        match outcome {
            Outcome::Finished(Ok(bytes)) => Reply::Image { format, bytes, request_id },
            Outcome::Finished(Err(_)) => Reply::Failure { status: 422, message: "Image processing failed" },
            Outcome::WorkerFault => Reply::Failure { status: 500, message: "Internal error" },
            Outcome::DeadlineElapsed => Reply::Failure { status: 408, message: "Processing timed out" },
        }
    }
}

} // verus!
