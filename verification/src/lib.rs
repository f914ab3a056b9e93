//! Cloud speech-to-text through the Codex transcription endpoint.

pub mod auth_file;
pub mod codex_api;
pub mod credentials;
pub mod events;
pub mod json;
pub mod jwt;
pub mod login_laws;
pub mod manager;
pub mod multipart;
pub mod pipeline;
pub mod refresh;
pub mod refresh_laws;
pub mod session_laws;
pub mod step_laws;
pub mod text;
pub mod transcribe;
pub mod transcribe_laws;
pub mod upload_laws;
pub mod wav;
