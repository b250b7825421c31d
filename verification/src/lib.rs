//! A scrolling viewport for a retained-mode widget tree.
//!
//! [`Scroll`] holds one child widget and shows it through a window ([`Viewport`]) that
//! the wheel, the scrollbars ([`ScrollComponent`]) and requests to bring a region into
//! view can move. All coordinates are whole units; see [`geometry`].

pub mod arith;
pub mod clip_box;
pub mod constraints;
pub mod context;
pub mod debug_state;
pub mod env;
pub mod event;
pub mod geometry;
pub mod scroll;
pub mod scroll_component;
pub mod snap;
pub mod viewport;
pub mod widget;

pub use crate::clip_box::ClipBox;
pub use crate::constraints::BoxConstraints;
pub use crate::env::Env;
pub use crate::event::{Event, LifeCycle};
pub use crate::scroll::Scroll;
pub use crate::scroll_component::{ScrollComponent, ScrollbarsEnabled};
pub use crate::viewport::Viewport;
pub use crate::widget::Widget;
