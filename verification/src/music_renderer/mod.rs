//! Renderer-side logic: time handling, timers, change detection and stream
//! heuristics.
pub mod arylic_tcp;
pub mod capabilities;
pub mod linkplay_renderer;
pub mod musicrenderer;
pub mod openhome_renderer;
pub mod renderer_state;
pub mod sleep_timer;
pub mod stream_detection;
pub mod time_utils;
pub mod watcher;

pub use capabilities::{PlaybackPosition, PlaybackPositionInfo, PlaybackStatus, TransportControl, VolumeControl};
pub use sleep_timer::SleepTimer;
pub use stream_detection::is_continuous_stream;
