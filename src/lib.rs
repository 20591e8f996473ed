//! Input event routing and playback session control for a physical-interface
//! audio player: tags and buttons become playback commands.
pub mod text;
pub mod media;
pub mod config;
pub mod resolver;
pub mod debounce;
pub mod router;
pub mod session;
pub mod keys;
pub mod mixer;

