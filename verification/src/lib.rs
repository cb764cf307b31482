pub mod audio;
pub mod conversation_list;
pub mod editor_voice;
pub mod error;
pub mod fallback;
pub mod ranking;
pub mod realtime;
pub mod realtime_fallback;
pub mod sapi;
pub mod session_cache;
pub mod session_scanner;
pub mod text;
pub mod transcriber;
pub mod voice_input;
pub mod windows;
