//! On-device engine of a voice-assistant appliance: playback buffering,
//! speech segmentation, transport decisions and the conversation state
//! machine, stated over mathematical models and proved against them.

pub mod activation;
pub mod afe;
pub mod app;
pub mod audio;
pub mod hal;
pub mod pcm;
pub mod peripheral;
pub mod protocol;
pub mod report;
pub mod text;
pub mod ws;
