//! Events that tell the frontend how a cloud transcription goes.

use vstd::prelude::*;

use crate::text;

verus! {

/// A piece of a transcript.
#[derive(Debug)]
pub struct CloudTranscriptEvent {
    pub text: String,
    pub is_final: bool,
}

/// The state of the provider.
#[derive(Debug)]
pub struct CloudSttStatusEvent {
    pub status: String,
    pub message: Option<String>,
}

impl Clone for CloudTranscriptEvent {
    fn clone(&self) -> (r: Self)
        ensures
            r.text@ == self.text@,
            r.is_final == self.is_final,
    {
        CloudTranscriptEvent { text: self.text.clone(), is_final: self.is_final }
    }
}

impl Clone for CloudSttStatusEvent {
    fn clone(&self) -> (r: Self)
        ensures
            r.status@ == self.status@,
            text::text_of(r.message) == text::text_of(self.message),
    {
        CloudSttStatusEvent {
            status: self.status.clone(),
            message: text::copy_optional_text(&self.message),
        }
    }
}

} // verus!
