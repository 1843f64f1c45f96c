use crosstalk::downcast;
use crosstalk::schema::topic_enum;
use crosstalk::AnyBox;
use crosstalk::BoundedNode;
use crosstalk::CrosstalkData;
use crosstalk::CrosstalkPubSub;
use crosstalk::CrosstalkTopic;
use crosstalk::Delivery;
use crosstalk::Error;
use crosstalk::ImplementedBoundedNode;
use crosstalk::Publisher;
use crosstalk::ReadStep;
use crosstalk::read_step;
use crosstalk::read_within;
use crosstalk::Subscriber;
use std::sync::Arc;

#[derive(Clone, Copy, PartialEq, Eq, Hash, Debug)]
enum Room {
    Bedroom,
    Kitchen,
    Bathroom,
}

impl CrosstalkTopic for Room {
    fn lemma_keys_distinct(_a: Self, _b: Self) {}

    fn topic_key(&self) -> u64 {
        *self as u64
    }

    fn key(&self) -> u64 {
        *self as u64
    }
}

impl CrosstalkPubSub<Room> for ImplementedBoundedNode<Room> {
    fn publisher<D: CrosstalkData>(&mut self, topic: Room) -> Result<Publisher<D, Room>, Error> {
        match topic {
            Room::Bedroom => self.publisher_arm::<D, String>(topic, "requested", "String"),
            Room::Kitchen => self.publisher_arm::<D, u8>(topic, "requested", "u8"),
            _ => self.publisher_arm::<D, String>(topic, "requested", "String"),
        }
    }

    fn subscriber<D: CrosstalkData>(&mut self, topic: Room) -> Result<Subscriber<D, Room>, Error> {
        match topic {
            Room::Bedroom => self.subscriber_arm::<D, String>(topic, "requested", "String"),
            Room::Kitchen => self.subscriber_arm::<D, u8>(topic, "requested", "u8"),
            _ => self.subscriber_arm::<D, String>(topic, "requested", "String"),
        }
    }

    fn pubsub<D: CrosstalkData>(&mut self, topic: Room) -> Result<(Publisher<D, Room>, Subscriber<D, Room>), Error> {
        match topic {
            Room::Bedroom => self.pubsub_arm::<D, String>(topic, "requested", "String"),
            Room::Kitchen => self.pubsub_arm::<D, u8>(topic, "requested", "u8"),
            _ => self.pubsub_arm::<D, String>(topic, "requested", "String"),
        }
    }
}

#[test]
fn error_messages_name_both_types() {
    let e = Error::PublisherMismatch("i32", "alloc::string::String");
    assert_eq!(e.message(), "Publisher type mismatch: i32 (cast) != alloc::string::String (expected)");
    let e = Error::SubscriberMismatch("u8", "bool");
    assert_eq!(e.message(), "Subscriber type mismatch: u8 (cast) != bool (expected)");
}

#[test]
fn downcast_gives_the_value_or_the_error() {
    let on_error = Error::PublisherMismatch("foo", "bar");
    assert_eq!(downcast::<i32>(AnyBox::new(5i32), on_error).unwrap(), 5);
    let wrong = downcast::<u8>(AnyBox::new(5i32), on_error);
    assert!(matches!(wrong, Err(Error::PublisherMismatch("foo", "bar"))));
}

#[test]
fn mismatch_errors_carry_the_names_given() {
    let mut node = ImplementedBoundedNode::<Room>::new(4);
    let res = node.publisher_arm::<i32, String>(Room::Bedroom, "i32", "String");
    assert!(matches!(res, Err(Error::PublisherMismatch("i32", "String"))));
    let res = node.subscriber_arm::<i32, String>(Room::Bedroom, "i32", "String");
    assert!(matches!(res, Err(Error::SubscriberMismatch("i32", "String"))));
    let res = node.pubsub_arm::<i32, String>(Room::Bedroom, "i32", "String");
    assert!(matches!(res, Err(Error::PublisherMismatch("i32", "String"))));
}

#[test]
fn node_keeps_its_capacity() {
    let node = ImplementedBoundedNode::<Room>::new(7);
    assert_eq!(node.size(), 7);
    let node = BoundedNode::<Room>::new(3);
    assert_eq!(node.size, 3);
    let clone = node.clone();
    assert_eq!(clone.size, 3);
}

#[test]
fn default_topic_carries_strings() {
    let mut node = BoundedNode::<Room>::new(4);
    let (publisher, mut subscriber) = node.pubsub_blocking::<String>(Room::Bathroom).unwrap();
    publisher.write("towel".to_string());
    assert_eq!(subscriber.try_read(), Some("towel".to_string()));
    assert!(matches!(node.publisher_blocking::<u8>(Room::Bathroom), Err(Error::PublisherMismatch(_, _))));
}

#[test]
fn later_requests_share_the_topic_channel() {
    let mut node = BoundedNode::<Room>::new(4);
    let publisher = node.publisher_blocking::<u8>(Room::Kitchen).unwrap();
    let mut sub1 = node.subscriber_blocking::<u8>(Room::Kitchen).unwrap();
    let other = node.publisher_blocking::<String>(Room::Bedroom).unwrap();
    let mut sub2 = node.subscriber_blocking::<u8>(Room::Kitchen).unwrap();
    publisher.write(3);
    other.write("not for the kitchen".to_string());
    assert_eq!(sub1.try_read(), Some(3));
    assert_eq!(sub2.try_read(), Some(3));
    assert_eq!(sub1.try_read(), None);
}

#[test]
fn node_clones_share_channels() {
    let mut node = BoundedNode::<Room>::new(4);
    let mut clone = node.clone();
    let publisher = clone.publisher_blocking::<u8>(Room::Kitchen).unwrap();
    let mut subscriber = node.subscriber_blocking::<u8>(Room::Kitchen).unwrap();
    publisher.write(9);
    assert_eq!(subscriber.try_read(), Some(9));
}

#[test]
fn publisher_clones_write_the_same_channel() {
    let mut node = BoundedNode::<Room>::new(4);
    let (publisher, mut subscriber) = node.pubsub_blocking::<u8>(Room::Kitchen).unwrap();
    let second = publisher.clone();
    assert_eq!(second.topic, Room::Kitchen);
    publisher.write(1);
    second.write(2);
    assert_eq!(subscriber.try_read(), Some(1));
    assert_eq!(subscriber.try_read(), Some(2));
}

#[test]
fn subscribers_see_only_later_messages() {
    let mut node = BoundedNode::<Room>::new(4);
    let (publisher, mut early) = node.pubsub_blocking::<u8>(Room::Kitchen).unwrap();
    publisher.write(1);
    let mut late = node.subscriber_blocking::<u8>(Room::Kitchen).unwrap();
    let mut cloned = early.clone();
    publisher.write(2);
    assert_eq!(early.try_read(), Some(1));
    assert_eq!(early.try_read(), Some(2));
    assert_eq!(late.try_read(), Some(2));
    assert_eq!(late.try_read(), None);
    assert_eq!(cloned.try_read(), Some(2));
    assert_eq!(cloned.topic, Room::Kitchen);
}

#[test]
fn raw_read_stops_at_a_lag() {
    let mut node = BoundedNode::<Room>::new(2);
    let (publisher, mut subscriber) = node.pubsub_blocking::<u8>(Room::Kitchen).unwrap();
    for i in 0..5u8 {
        publisher.write(i);
    }
    assert_eq!(subscriber.try_read_raw(), None);
    assert_eq!(subscriber.try_read_raw(), Some(3));
    assert_eq!(subscriber.try_read_raw(), Some(4));
    assert_eq!(subscriber.try_read_raw(), None);
}

#[test]
fn blocking_read_passes_over_lags() {
    let mut node = BoundedNode::<Room>::new(2);
    let (publisher, mut subscriber) = node.pubsub_blocking::<u8>(Room::Kitchen).unwrap();
    for i in 0..6u8 {
        publisher.write(i);
    }
    assert_eq!(subscriber.read_blocking(), Some(4));
    assert_eq!(subscriber.read_blocking(), Some(5));
}

#[test]
fn bare_subscribers_read_their_channel() {
    let (sender, receiver) = tokio::sync::broadcast::channel::<u8>(4);
    let sender = Arc::new(sender);
    let publisher = Publisher::new(Room::Kitchen, (*sender).clone());
    let mut given = Subscriber::new(Room::Kitchen, Some(receiver), sender.clone());
    let mut fresh = Subscriber::new(Room::Kitchen, None, sender.clone());
    publisher.write(7);
    assert_eq!(given.try_read(), Some(7));
    assert_eq!(fresh.try_read(), Some(7));
    assert_eq!(fresh.try_read(), None);
}

#[test]
fn deliveries_decide_reads() {
    assert!(matches!(read_step(Delivery::<u8>::Lagged(3)), ReadStep::Again));
    assert!(matches!(read_step(Delivery::Message(8u8)), ReadStep::Done(Some(8))));
    assert!(matches!(read_step(Delivery::<u8>::Empty), ReadStep::Done(None)));
    assert!(matches!(read_step(Delivery::<u8>::Closed), ReadStep::Done(None)));
    assert_eq!(read_within(Some(Delivery::Message(6u8))), Some(6));
    assert_eq!(read_within(Some(Delivery::<u8>::Lagged(1))), None);
    assert_eq!(read_within::<u8>(None), None);
}

#[test]
fn topic_tables_name_one_enum() {
    let one = vec!["House".to_string(), "House".to_string()];
    assert_eq!(topic_enum(&one).unwrap(), "House");
    let mixed = vec!["House".to_string(), "Zoo".to_string(), "House".to_string()];
    let names = topic_enum(&mixed).unwrap_err();
    assert_eq!(names.len(), 2);
    assert!(names.contains(&"House".to_string()));
    assert!(names.contains(&"Zoo".to_string()));
    let empty: Vec<String> = Vec::new();
    assert_eq!(topic_enum(&empty).unwrap_err().len(), 0);
}

#[test]
fn blocking_calls_refuse_a_running_runtime() {
    let mut node = BoundedNode::<Room>::new(4);
    let (publisher, mut subscriber) = node.pubsub_blocking::<u8>(Room::Kitchen).unwrap();
    let rt = tokio::runtime::Runtime::new().unwrap();
    let refused = rt.block_on(async {
        let res = node.publisher_blocking::<u8>(Room::Kitchen);
        matches!(res, Err(Error::BlockingInRuntime))
    });
    assert!(refused);
    publisher.write(5);
    let inside = rt.block_on(async { subscriber.read_blocking() });
    assert_eq!(inside, None);
    assert_eq!(subscriber.read_blocking(), Some(5));
    assert_eq!(Error::BlockingInRuntime.message(), "Blocking call inside an asynchronous runtime");
}

#[test]
fn given_receiver_is_kept() {
    let (sender, receiver) = tokio::sync::broadcast::channel::<u8>(4);
    let sender = Arc::new(sender);
    let _ = sender.send(1);
    let mut given = Subscriber::new(Room::Kitchen, Some(receiver), sender.clone());
    let mut fresh = Subscriber::new(Room::Kitchen, None, sender.clone());
    assert_eq!(given.try_read(), Some(1));
    assert_eq!(fresh.try_read(), None);
}
