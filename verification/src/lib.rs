//! A task timer with a small checklist memo: the state and the rules behind
//! the widget, without any drawing.

pub mod clock;
pub mod keys;
pub mod launch;
pub mod memo;
pub mod session;
pub mod text;
pub mod widget;
