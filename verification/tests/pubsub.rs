use crosstalk::BoundedNode;
use crosstalk::CrosstalkData;
use crosstalk::CrosstalkPubSub;
use crosstalk::CrosstalkTopic;
use crosstalk::Error;
use crosstalk::ImplementedBoundedNode;
use crosstalk::Publisher;
use crosstalk::Subscriber;

#[derive(Clone, Copy, PartialEq, Eq, Hash, Debug)]
enum TestTopic {
    A,
    B,
    C,
}

impl CrosstalkTopic for TestTopic {
    fn lemma_keys_distinct(_a: Self, _b: Self) {}

    fn topic_key(&self) -> u64 {
        *self as u64
    }

    fn key(&self) -> u64 {
        *self as u64
    }
}

impl CrosstalkPubSub<TestTopic> for ImplementedBoundedNode<TestTopic> {
    fn publisher<D: CrosstalkData>(&mut self, topic: TestTopic) -> Result<Publisher<D, TestTopic>, Error> {
        match topic {
            TestTopic::A => self.publisher_arm::<D, String>(topic, "requested", "alloc::string::String"),
            TestTopic::B => self.publisher_arm::<D, bool>(topic, "requested", "bool"),
            TestTopic::C => self.publisher_arm::<D, i32>(topic, "requested", "i32"),
        }
    }

    fn subscriber<D: CrosstalkData>(&mut self, topic: TestTopic) -> Result<Subscriber<D, TestTopic>, Error> {
        match topic {
            TestTopic::A => self.subscriber_arm::<D, String>(topic, "requested", "alloc::string::String"),
            TestTopic::B => self.subscriber_arm::<D, bool>(topic, "requested", "bool"),
            TestTopic::C => self.subscriber_arm::<D, i32>(topic, "requested", "i32"),
        }
    }

    fn pubsub<D: CrosstalkData>(&mut self, topic: TestTopic) -> Result<(Publisher<D, TestTopic>, Subscriber<D, TestTopic>), Error> {
        match topic {
            TestTopic::A => self.pubsub_arm::<D, String>(topic, "requested", "alloc::string::String"),
            TestTopic::B => self.pubsub_arm::<D, bool>(topic, "requested", "bool"),
            TestTopic::C => self.pubsub_arm::<D, i32>(topic, "requested", "i32"),
        }
    }
}

#[derive(Clone, Copy, PartialEq, Eq, Hash, Debug)]
enum AnotherTestTopic {
    Foo,
    Bar,
}

impl CrosstalkTopic for AnotherTestTopic {
    fn lemma_keys_distinct(_a: Self, _b: Self) {}

    fn topic_key(&self) -> u64 {
        *self as u64
    }

    fn key(&self) -> u64 {
        *self as u64
    }
}

impl CrosstalkPubSub<AnotherTestTopic> for ImplementedBoundedNode<AnotherTestTopic> {
    fn publisher<D: CrosstalkData>(&mut self, topic: AnotherTestTopic) -> Result<Publisher<D, AnotherTestTopic>, Error> {
        match topic {
            AnotherTestTopic::Foo => self.publisher_arm::<D, Vec<String>>(topic, "requested", "alloc::vec::Vec<alloc::string::String>"),
            AnotherTestTopic::Bar => self.publisher_arm::<D, Vec<bool>>(topic, "requested", "alloc::vec::Vec<bool>"),
        }
    }

    fn subscriber<D: CrosstalkData>(&mut self, topic: AnotherTestTopic) -> Result<Subscriber<D, AnotherTestTopic>, Error> {
        match topic {
            AnotherTestTopic::Foo => self.subscriber_arm::<D, Vec<String>>(topic, "requested", "alloc::vec::Vec<alloc::string::String>"),
            AnotherTestTopic::Bar => self.subscriber_arm::<D, Vec<bool>>(topic, "requested", "alloc::vec::Vec<bool>"),
        }
    }

    fn pubsub<D: CrosstalkData>(&mut self, topic: AnotherTestTopic) -> Result<(Publisher<D, AnotherTestTopic>, Subscriber<D, AnotherTestTopic>), Error> {
        match topic {
            AnotherTestTopic::Foo => self.pubsub_arm::<D, Vec<String>>(topic, "requested", "alloc::vec::Vec<alloc::string::String>"),
            AnotherTestTopic::Bar => self.pubsub_arm::<D, Vec<bool>>(topic, "requested", "alloc::vec::Vec<bool>"),
        }
    }
}

#[test]
fn test_single_pubsub_blocking() {
    let mut node = BoundedNode::<TestTopic>::new(10);
    let (publisher, mut subscriber) = node.pubsub_blocking(TestTopic::A).unwrap();
    publisher.write("test".to_string());
    assert_eq!(subscriber.try_read().unwrap(), "test");
}

#[test]
fn test_multiple_subscribers_blocking() {
    let mut node = BoundedNode::<TestTopic>::new(10);
    let (publisher, mut sub1) = node.pubsub_blocking(TestTopic::A).unwrap();
    let mut sub2 = node.subscriber_blocking::<String>(TestTopic::A).unwrap();

    publisher.write("hello".to_string());
    assert_eq!(sub1.try_read().unwrap(), "hello");
    assert_eq!(sub2.try_read().unwrap(), "hello");
}

#[test]
fn test_cross_topic_isolation() {
    let mut node = BoundedNode::<TestTopic>::new(10);
    let (pub_a, mut sub_a) = node.pubsub_blocking(TestTopic::A).unwrap();
    let (pub_b, mut sub_b) = node.pubsub_blocking(TestTopic::B).unwrap();

    pub_a.write("string".to_string());
    pub_b.write(true);

    assert_eq!(sub_a.try_read().unwrap(), "string");
    assert!(sub_b.try_read().unwrap());
    assert!(sub_a.try_read().is_none());
    assert!(sub_b.try_read().is_none());
}

#[test]
fn test_high_volume_blocking() {
    let mut node = BoundedNode::<TestTopic>::new(100);
    let (publisher, mut subscriber) = node.pubsub_blocking(TestTopic::C).unwrap();

    for i in 0..100 {
        publisher.write(i);
    }

    for i in 0..100 {
        assert_eq!(subscriber.try_read().unwrap(), i);
    }
    assert!(subscriber.try_read().is_none());
}

#[test]
fn test_cloned_subscribers() {
    let mut node = BoundedNode::<TestTopic>::new(10);
    let (publisher, mut sub1) = node.pubsub_blocking(TestTopic::A).unwrap();
    let mut sub2 = sub1.clone();

    publisher.write("clone".to_string());
    assert_eq!(sub1.try_read().unwrap(), "clone");
    assert_eq!(sub2.try_read().unwrap(), "clone");
}

#[test]
fn test_buffer_overflow_handling() {
    let mut node = BoundedNode::<TestTopic>::new(2);
    let (publisher, mut subscriber) = node.pubsub_blocking(TestTopic::A).unwrap();

    publisher.write("msg1".to_string());
    publisher.write("msg2".to_string());
    publisher.write("msg3".to_string());

    assert_eq!(subscriber.try_read().unwrap(), "msg2");
    assert_eq!(subscriber.try_read().unwrap(), "msg3");
    assert!(subscriber.try_read().is_none());
}

#[test]
fn test_type_mismatch_errors() {
    let mut node = BoundedNode::<TestTopic>::new(10);

    let publisher_res = node.publisher_blocking::<i32>(TestTopic::A);
    assert!(matches!(publisher_res, Err(Error::PublisherMismatch(_, _))));

    let subscriber_res = node.subscriber_blocking::<i32>(TestTopic::A);
    assert!(matches!(subscriber_res, Err(Error::SubscriberMismatch(_, _))));
}

#[test]
fn test_mixed_async_blocking() {
    let mut node = BoundedNode::<TestTopic>::new(10);
    let (publisher, mut subscriber) = node.pubsub_blocking(TestTopic::A).unwrap();

    let rt = tokio::runtime::Runtime::new().unwrap();
    rt.block_on(async {
        publisher.write("mixed".to_string());
    });

    assert_eq!(subscriber.try_read().unwrap(), "mixed");
}

#[test]
fn test_complex_data_types() {
    let mut node = BoundedNode::<AnotherTestTopic>::new(10);
    let (pub_foo, mut sub_foo) = node.pubsub_blocking(AnotherTestTopic::Foo).unwrap();
    let (pub_bar, mut sub_bar) = node.pubsub_blocking(AnotherTestTopic::Bar).unwrap();

    pub_foo.write(vec!["a".to_string(), "b".to_string()]);
    pub_bar.write(vec![true, false]);

    assert_eq!(sub_foo.try_read().unwrap(), vec!["a", "b"]);
    assert_eq!(sub_bar.try_read().unwrap(), vec![true, false]);
}

#[test]
fn test_dropped_publisher_behavior() {
    let mut node = BoundedNode::<TestTopic>::new(10);
    let (publisher, mut subscriber) = node.pubsub_blocking::<String>(TestTopic::A).unwrap();
    drop(publisher);
    assert!(subscriber.try_read().is_none());
}

#[test]
fn test_error_handling_lagged_messages() {
    let mut node = BoundedNode::<TestTopic>::new(2);
    let (publisher, mut subscriber) = node.pubsub_blocking(TestTopic::A).unwrap();

    for i in 0..5 {
        publisher.write(format!("msg{}", i));
    }

    let mut received = Vec::new();
    while let Some(msg) = subscriber.try_read() {
        received.push(msg);
    }
    assert_eq!(received, vec!["msg3", "msg4"]);
}

#[test]
fn test_multiple_threads_blocking() {
    let mut node = BoundedNode::<TestTopic>::new(10);
    let (publisher, mut subscriber) = node.pubsub_blocking(TestTopic::A).unwrap();

    let rt = tokio::runtime::Runtime::new().unwrap();
    let handle = rt.spawn_blocking(move || {
        publisher.write("threaded".to_string());
    });

    rt.block_on(handle).unwrap();
    assert_eq!(subscriber.try_read().unwrap(), "threaded");
}

#[test]
fn test_concurrent_publishers() {
    let mut node = BoundedNode::<TestTopic>::new(100);
    let (pub1, mut sub) = node.pubsub_blocking(TestTopic::C).unwrap();
    let pub2 = node.publisher_blocking::<i32>(TestTopic::C).unwrap();

    let rt = tokio::runtime::Runtime::new().unwrap();
    let handle1 = rt.spawn_blocking(move || {
        for i in 0..50 {
            pub1.write(i);
        }
    });

    let handle2 = rt.spawn_blocking(move || {
        for i in 50..100 {
            pub2.write(i);
        }
    });

    rt.block_on(handle1).unwrap();
    rt.block_on(handle2).unwrap();

    let mut received = Vec::new();
    while let Some(msg) = sub.try_read() {
        received.push(msg);
    }
    assert_eq!(received.len(), 100);
}

#[test]
fn test_blocking_read_with_delay() {
    let mut node = BoundedNode::<TestTopic>::new(10);
    let (publisher, mut subscriber) = node.pubsub_blocking(TestTopic::A).unwrap();

    let rt = tokio::runtime::Runtime::new().unwrap();
    rt.spawn(async move {
        tokio::time::sleep(std::time::Duration::from_millis(500)).await;
        publisher.write("delayed".to_string());
    });

    assert_eq!(subscriber.read_blocking().unwrap(), "delayed");
}

#[test]
fn test_multiple_topics_concurrently() {
    let mut node = BoundedNode::<AnotherTestTopic>::new(10);
    let (pub_foo, mut sub_foo) = node.pubsub_blocking(AnotherTestTopic::Foo).unwrap();
    let (pub_bar, mut sub_bar) = node.pubsub_blocking(AnotherTestTopic::Bar).unwrap();

    let rt = tokio::runtime::Runtime::new().unwrap();
    let handle1 = rt.spawn_blocking(move || {
        pub_foo.write(vec!["thread".to_string()]);
    });

    let handle2 = rt.spawn_blocking(move || {
        pub_bar.write(vec![true]);
    });

    rt.block_on(handle1).unwrap();
    rt.block_on(handle2).unwrap();

    assert_eq!(sub_foo.try_read().unwrap(), vec!["thread"]);
    assert_eq!(sub_bar.try_read().unwrap(), vec![true]);
}
