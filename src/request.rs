//! The inbound request: a JSON object with a string member `content`.
use vstd::prelude::*;
use crate::json::{content_member_of, read_content_member};

verus! {

/// One message to classify, as the caller sent it.
pub struct MessageRequest {
    pub content: String,
}

/// Why an inbound body was refused.
#[derive(PartialEq, Eq, Structural, Debug, Clone, Copy)]
pub enum RequestError {
    /// The body is no JSON object with a string under `content`.
    Malformed,
}

impl MessageRequest {
    /// Reads a message request from an inbound body. The content is taken as
    /// it is: it may be empty, and it is not checked further.
    pub fn parse(body: &[u8]) -> (r: Result<MessageRequest, RequestError>)
        ensures
            r is Ok <==> content_member_of(body@) is Some,
            r matches Ok(m) ==> content_member_of(body@) == Some(m.content@),
            r matches Err(e) ==> e == RequestError::Malformed,
    {
        match read_content_member(body) {
            Some(content) => Ok(MessageRequest { content }),
            None => Err(RequestError::Malformed),
        }
    }
}

} // verus!
