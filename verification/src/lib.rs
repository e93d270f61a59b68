//! A transient-notification ("toast") manager.
//!
//! The crate tracks a queue of active notifications, retires them after a
//! timeout that hover can extend, and computes the stacking geometry of the
//! rendered toasts.  Drawing, hit-testing against a rendering backend and
//! event plumbing belong to the presentation host, which feeds plain values
//! (timestamps, measured sizes, pointer positions) into this core.

pub mod alignment;
pub mod stack;
pub mod store;
pub mod style;
pub mod toast;

pub use stack::{Placement, Point, Size, StackConfiguration};
pub use store::ToastStore;
pub use style::Style;
pub use toast::{Id, Level, Toast};
