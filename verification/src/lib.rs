//! Verified core of a small firework demo.
//!
//! A menu lets the user pick the metals of a firework and press a launch
//! button; the launch then puts a camera and an animated scene into the world.
//! This crate holds the decisions and the data of that demo as plain values:
//! what the menu shows, how it reacts to the user, when the launch happens and
//! what is launched. Drawing, input and the scene graph are left to the caller.

pub mod launch;
pub mod menu;
pub mod options;
pub mod session;
pub mod state;

pub use launch::{
    firework_launch, AnimationClip, Camera, Keyframe, LaunchPlan, SceneSpawn, Vector, SECOND, UNIT,
};
pub use menu::{main_menu, menu_panels, Dock, MenuEvent, Panel, Widget};
pub use options::{FireWorkOptions, Metal};
pub use session::Session;
pub use state::AppState;
