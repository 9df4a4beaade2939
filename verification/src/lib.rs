//! Touch-to-input mapping core: the virtual button model, hit testing,
//! layouts, the event state machine that turns pointer input into key and
//! mouse actions, and the configuration bookkeeping of the overlay.

pub mod geometry;

pub mod keys;
pub mod button;
pub mod state;
pub mod hit;
pub mod ids;
pub mod osk;
pub mod press;
pub mod snap;
pub mod events;
pub mod motion;
pub mod touch;
pub mod osk_layout;
pub mod combos;
pub mod text;
pub mod sidebar;
pub mod groups;
pub mod number;
pub mod props;
pub mod scroll;
pub mod window;
pub mod names;
pub mod order;
pub mod gamepad;
pub mod init;
