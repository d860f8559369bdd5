//! Renderer queues: the item model, the backend abstraction and the local
//! queue, with the helpers that keep stream durations from shrinking and the
//! diff used to update remote playlists.
pub mod backend;
pub mod durations;
pub mod interne;
pub mod laws;
pub mod lcs;
pub mod openhome;
pub mod openhome_sync;
pub mod openhome_queue;
pub mod music_queue;
pub mod snapshot;

pub use backend::{EnqueueMode, QueueBackend};
pub use interne::InternalQueue;
pub use snapshot::{PlaybackItem, QueueSnapshot};
