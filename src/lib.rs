//! A chat widget's core: typing into an input box, publishing what was
//! typed, and tailing a channel through a long-poll subscription.
//!
//! Network operations run elsewhere; this library decides what to enqueue,
//! keeps track of what is in flight, and handles each result once.

pub mod builder;
pub mod error;
pub mod frame;
pub mod keyboard;
pub mod messages;
pub mod resources;
pub mod subscription;
pub mod tasks;
pub mod text;

pub use builder::{ChatPluginConfig, ChatPluginConfigBuilder, Keyset};
pub use error::BevyPNError;
pub use frame::{format_messages, tasks_handler, Operation, TaskOutcome, TaskReport};
pub use keyboard::{
    characters_filter, digits_filter, keyboard_handler, letter_filter, special_characters_filter,
    KeyCode, KeyboardInput,
};
pub use messages::{ChatMessage, Message, SubscriptionInfo, SubscriptionResult};
pub use resources::{ChannelResource, MessageFormat};
pub use subscription::{
    subscribe_body, PubNubSubscribeResource, SubscribeRequest, SubscribeStep, SubscriptionLoop,
};
pub use tasks::{PendingTask, PublishTask, SubscribeTask, TaskKind, TaskRegistry};
pub use text::InputBox;
