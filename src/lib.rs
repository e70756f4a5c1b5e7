//! An overlay title bar for web-view windows: configuration, the script
//! that is injected after each page load, and the key sequence that opens
//! the Windows 11 snap-layout overlay.

pub mod config;
pub mod controls;
pub mod error;
pub mod script;
pub mod snap;
pub mod text;

pub use config::{init, ConfigView, Frame, FrameConfig, FramePluginBuilder};
pub use controls::{controls_for, ordered_controls, render_controls, Control, WindowCapabilities};
pub use error::{Error, ErrorKind};
pub use script::{build_scripts, page_load_script, window_script, ScriptTemplates, PAGE_LOAD_EVENT};
pub use snap::{
    current_os, has_snap_overlay, snap_overlay_actions, snap_overlay_plan, InputAction, Key, OsInfo,
    OsVersion,
};
