//! Single-track audio playback engine.
//!
//! The engine is a controller for one shared audio sink: it decides how
//! play, pause, seek and volume requests change the playback state, and
//! how a background progress reporter turns sink readings into progress
//! events.  All device, file and event I/O stays outside; the engine
//! works on plain observations (is the sink empty, is it paused, what
//! position does it report) handed in by the surrounding application.

pub mod duration_text;
pub mod engine;
pub mod events;
pub mod laws;
pub mod playlist;

pub use duration_text::format_duration;
pub use engine::Engine;
pub use engine::PlayAction;
pub use engine::ReporterStep;
pub use engine::volume_gain_permyriad;
pub use events::PlaybackError;
pub use events::PlaybackQuery;
pub use events::ProgressEvent;
pub use playlist::AlbumArt;
pub use playlist::PictureInfo;
pub use playlist::PictureKind;
pub use playlist::PlaylistState;
pub use playlist::Track;
pub use playlist::TrackMetadata;
pub use playlist::get_album_art;
pub use playlist::make_track;
