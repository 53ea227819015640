//! A component reactor: one cooperative task per UI component that drains the
//! component's event queues, tracks whether its state changed, and reconciles
//! the rendered widget tree exactly when it must.
pub mod component;
pub mod context;
pub mod mailbox;
pub mod scope;

pub use component::{any_changed, Component, ComponentTask, TaskStatus, UiState};
pub use context::{current_widget, LocalContext};
pub use mailbox::{ComponentMessage, Mailbox, Polled};
pub use scope::{AnyScope, Scope, ScopeRef};
