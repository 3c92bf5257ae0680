pub mod action;
pub mod error;
pub mod input;
pub mod keycode;
pub mod keymap;
pub mod mode;
pub mod pointer;

pub use action::{ActionQueue, InputAction};
pub use error::XError;
pub use input::{Input, Tick, TickOutput};
pub use keycode::Keycode;
pub use mode::{Mode, ModeStore};
pub use pointer::{PointerAccumulator, PointerInfo, WindowInfo};
