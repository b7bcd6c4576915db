//! Turbo Tanks: the menu navigation and widget focus engine of a 2D
//! skill-based tank combat arena game.
//!
//! The engine maps key presses to abstract actions, keeps track of
//! which widget of a menu is focused, dispatches adjustments and activations
//! to the focused widget and produces the ordered list of things to draw.
//! Windows, rendering and files are left to the program around it, which
//! hands plain values in and performs the commands that come back.

pub mod draw;
pub mod game;
pub mod list;
pub mod menu;
pub mod settings;
pub mod widget;

pub use draw::DrawItem;
pub use game::{Event, GameAction, Key};
pub use list::{ListModel, MenuButtonList};
pub use menu::{MenuCommand, MenuModel, MenuState};
pub use settings::{Settings, VideoMode};
pub use widget::{Button, Clickable};
