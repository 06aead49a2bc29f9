//! Declarative subscriptions to the events of a windowing runtime.
//!
//! An application does not register callbacks. On every update cycle it
//! declares the subscriptions it wants, each one a cheap description made of
//! an [`Identity`] and a projection from [`RuntimeEvent`] to an optional
//! message. The runtime keeps one stream per identity alive across cycles and
//! feeds every dispatched event through the projection.
pub mod event;
pub mod identity;
pub mod subscription;

pub use event::{
    ApplicationEvent, Event, KeyboardEvent, MouseEvent, RuntimeEvent, Status, Timestamp,
    WindowEvent, WindowId,
};
pub use identity::{Identity, Kind};
pub use subscription::{listen, listen_application, listen_raw, listen_with, Subscription};
