//! A stateless chat relay: the conversation travels with every request, and
//! the library decodes it, extends or truncates it, wraps it for the
//! completion service and folds the service's reply back into it.
pub mod cut_index;
pub mod error;
pub mod expand;
pub mod gateway;
pub mod history;
pub mod message;
pub mod relay;
pub mod text;
