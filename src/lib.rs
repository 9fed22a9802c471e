//! Replays a pre-authored sequence of text edits as if typed live, one edit
//! per performer keystroke.
//!
//! The library holds the playback core: the action model of a script, the
//! playhead and the engine that advance over it, the injector capability that
//! turns actions into keystrokes, the classification of raw key input into
//! triggers, and the dispatch state machine that ties triggers to the engine.

pub mod cli;
pub mod config;
pub mod data;
pub mod dispatch;
pub mod engine;
pub mod injector;
pub mod keyboard;
pub mod os_inject;
pub mod playhead;
pub mod script;

pub use cli::CliAction;
pub use config::AppConfig;
pub use data::{Key, KeyEvent};
pub use dispatch::{Phase, Reply, Session};
pub use engine::Engine;
pub use injector::{Attempt, InjectError, OutputInjector, RecordingInjector};
pub use keyboard::{
    classify_local, Disposition, HookEvent, HookFilter, Hotkeys, InputKey, TriggerEvent, TriggerKey,
};
pub use os_inject::{keystroke, Keystroke, OsInjector};
pub use playhead::Playhead;
pub use script::{Action, ScriptEvent, Sequence};
