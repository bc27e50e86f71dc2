//! The core of a focus timer: the work/break session clock, the audio
//! player's bookkeeping, the single-flight track import, the presence
//! sampler, and the wizard that leads through the set-up of a run. Each is a
//! state machine over plain values with a proved contract; whoever owns the
//! terminal, the audio device and the converter carries the decisions out.

pub mod audio;
pub mod clock;
pub mod config;
pub mod import;
pub mod library;
pub mod presence;
pub mod session;
pub mod text;
pub mod wizard;
