//! Verified core of the PMOMusic control point: time handling, queues,
//! OpenHome/UPnP request building and response interpretation.
pub mod text;
pub mod error;
pub mod music_renderer;
pub mod model;
pub mod xml;
pub mod didl;
pub mod playback_queue;
pub mod queue_interne;
pub mod soap;
pub mod codec;
pub mod upnp_clients;
pub mod openhome;
pub mod openhome_playlist;
pub mod openapi;
pub mod command_replies;
pub mod queue;
pub mod online;
pub mod provider;
pub mod covers;
pub mod registry;
