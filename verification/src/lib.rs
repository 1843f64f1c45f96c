//! Topic-based publish/subscribe over bounded broadcast channels.
//!
//! A node maps each topic of a topic enum to one bounded broadcast channel,
//! opened the first time the topic is asked for. Publishers and subscribers
//! obtained from a node for one topic share that topic's channel; distinct
//! topics never share a channel. A subscriber reads the messages published
//! after it subscribed, in order; when it falls behind by more than a channel
//! holds, the oldest unread messages are lost and reading goes on from the
//! oldest message still held.
pub mod error;
pub mod channel;
pub mod listener;
pub mod erased;
pub mod handle;
pub mod node;
pub mod bounded;
pub mod laws;
pub mod schema;

pub use error::Error;
pub use erased::downcast;
pub use erased::AnyBox;
pub use channel::Delivery;
pub use handle::Publisher;
pub use handle::ReadStep;
pub use handle::read_step;
pub use handle::read_within;
pub use handle::Subscriber;
pub use node::CrosstalkData;
pub use node::CrosstalkPubSub;
pub use node::CrosstalkTopic;
pub use node::ImplementedBoundedNode;
pub use node::NodeRegistry;
pub use bounded::BoundedNode;
