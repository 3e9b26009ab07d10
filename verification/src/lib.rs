//! Decision logic, text handling and audio framing of a push-to-talk
//! speech-to-text desktop tool: what each hotkey message does to a recording
//! session, how audio is cut into Opus frames and framed into an Ogg stream,
//! how transcripts and context-bias terms are cleaned, and when and where the
//! recording overlay is shown.
pub mod text;
pub mod transcript;
pub mod context_bias;
pub mod framing;
pub mod ogg_opus;
pub mod speech_check;
pub mod state;
pub mod speech_viz;
pub mod session;
pub mod hotkey;
pub mod overlay;
pub mod shell_overlay;
pub mod icon;
pub mod surface;
