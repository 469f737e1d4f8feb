//! The editing core of a non-linear video editor.
//!
//! The crate holds what the editor decides: the timeline and its edits, undo
//! and redo, the effect chain of every clip, the export plan, the project file
//! and the transport keys. Decoding, rendering, drawing and files are left to
//! the application around it.

pub mod app_state;
pub mod audio;
pub mod browser;
pub mod clip_effects;
pub mod curves;
pub mod cuts;
pub mod edit_command;
pub mod edit_history;
pub mod effects;
pub mod export;
pub mod export_clip;
pub mod filter_step;
pub mod float;
pub mod frame_edits;
pub mod framing;
pub mod imported;
pub mod inspector;
pub mod jobs;
pub mod key_marks;
pub mod keyframes;
pub mod lut;
pub mod matte;
pub mod media;
pub mod metadata;
pub mod monitor;
pub mod ordering;
pub mod overlay;
pub mod playback;
pub mod presets;
pub mod preview;
pub mod project;
pub mod queue;
pub mod range;
pub mod snap;
pub mod snapshot;
pub mod state;
pub mod text;
pub mod time;
pub mod timeline;
pub mod timeline_bridge;
pub mod timeline_clip;
pub mod title_edits;
pub mod titles;
pub mod transport;
