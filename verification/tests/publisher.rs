use amqprs::BasicProperties;
use kanau::message::{DeserializeError, MessageDe, MessageSer, SerializeError};
use shizuku_amqp::error::Error;
use shizuku_amqp::rabbitmq::event::{
    published, AmqpMessageConsumer, AmqpMessageProcessor, AmqpMessageSend, AmqpRouting, Dispatch,
};

#[derive(Debug, PartialEq, Eq)]
struct OrderCreated {
    id: u64,
}

impl MessageSer for OrderCreated {
    type SerError = SerializeError;

    fn to_bytes(self) -> Result<Box<[u8]>, SerializeError> {
        Ok(self.id.to_be_bytes().to_vec().into_boxed_slice())
    }
}

impl MessageDe for OrderCreated {
    type DeError = DeserializeError;

    fn from_bytes(bytes: &[u8]) -> Result<Self, DeserializeError> {
        let raw: [u8; 8] = bytes
            .try_into()
            .map_err(|_| DeserializeError(anyhow::Error::msg("an order id takes eight bytes")))?;
        Ok(OrderCreated { id: u64::from_be_bytes(raw) })
    }
}

impl AmqpRouting for OrderCreated {
    const EXCHANGE: &'static str = "orders";
    const ROUTING_KEY: &'static str = "created";
}

impl AmqpMessageSend for OrderCreated {
    type Meta = ();
}

/// The same payload, published with the broker's own properties as metadata.
struct OrderShipped {
    id: u64,
}

impl AmqpRouting for OrderShipped {
    const EXCHANGE: &'static str = "orders";
    const ROUTING_KEY: &'static str = "shipped";
}

impl AmqpMessageSend for OrderShipped {
    type Meta = BasicProperties;
}

struct Unbreakable;

impl MessageSer for Unbreakable {
    type SerError = SerializeError;

    fn to_bytes(self) -> Result<Box<[u8]>, SerializeError> {
        Err(SerializeError(anyhow::Error::msg("no encoding for this")))
    }
}

impl AmqpRouting for Unbreakable {
    const EXCHANGE: &'static str = "void";
    const ROUTING_KEY: &'static str = "nowhere";
}

impl AmqpMessageSend for Unbreakable {
    type Meta = ();
}

struct Shelf;

impl AmqpMessageProcessor<OrderCreated> for Shelf {}

fn encode<M: MessageSer>(message: M) -> Result<Box<[u8]>, String> {
    message.to_bytes().map_err(|e| e.into().to_string())
}

fn decode<M: MessageDe>(bytes: &[u8]) -> Result<M, String> {
    M::from_bytes(bytes).map_err(|e| e.into().to_string())
}

#[test]
fn publish_targets_the_declared_route() {
    let publish = OrderCreated::send(encode(OrderCreated { id: 42 }), ()).unwrap();
    assert_eq!(publish.args.exchange, "orders");
    assert_eq!(publish.args.routing_key, "created");
    assert!(!publish.args.mandatory);
    assert!(!publish.args.immediate);
}

#[test]
fn publish_carries_the_encoded_bytes_unchanged() {
    let publish = OrderCreated::send(encode(OrderCreated { id: 42 }), ()).unwrap();
    assert_eq!(publish.content, vec![0u8, 0, 0, 0, 0, 0, 0, 42]);
}

#[test]
fn route_does_not_depend_on_the_metadata() {
    let properties = BasicProperties::default()
        .with_content_type("application/octet-stream")
        .with_priority(7)
        .finish();
    let bytes = OrderShipped { id: 9 }.id.to_be_bytes().to_vec().into_boxed_slice();
    let publish = OrderShipped::send(Ok(bytes), properties).unwrap();
    assert_eq!(publish.args.exchange, "orders");
    assert_eq!(publish.args.routing_key, "shipped");
    assert_eq!(
        publish.properties.content_type().map(String::as_str),
        Some("application/octet-stream")
    );
    assert_eq!(publish.properties.priority(), Some(7));
    assert_eq!(publish.content, vec![0u8, 0, 0, 0, 0, 0, 0, 9]);
}

#[test]
fn unit_metadata_publishes_with_no_property_set() {
    let publish = OrderCreated::send(encode(OrderCreated { id: 1 }), ()).unwrap();
    let properties = publish.properties;
    assert_eq!(properties.content_type(), None);
    assert_eq!(properties.content_encoding(), None);
    assert!(properties.headers().is_none());
    assert_eq!(properties.delivery_mode(), None);
    assert_eq!(properties.priority(), None);
    assert_eq!(properties.correlation_id(), None);
    assert_eq!(properties.reply_to(), None);
    assert_eq!(properties.expiration(), None);
    assert_eq!(properties.message_id(), None);
    assert_eq!(properties.timestamp(), None);
    assert_eq!(properties.message_type(), None);
    assert_eq!(properties.user_id(), None);
    assert_eq!(properties.app_id(), None);
    assert_eq!(properties.cluster_id(), None);
}

#[test]
fn encoder_failure_publishes_nothing() {
    let sent = Unbreakable::send(encode(Unbreakable), ());
    match sent {
        Err(Error::SerializeError(cause)) => {
            assert_eq!(cause, "Failed to serialize message: no encoding for this")
        }
        other => panic!("expected a SerializeError, got {:?}", other),
    }
}

#[test]
fn transport_failure_surfaces_as_amqp_error() {
    assert_eq!(published(Ok(())), Ok(()));
    assert_eq!(
        published(Err("AMQP network error: connection reset".to_string())),
        Err(Error::AmqpError("AMQP network error: connection reset".to_string()))
    );
}

#[test]
fn order_is_published_and_delivered_back() {
    let publish = OrderCreated::send(encode(OrderCreated { id: 42 }), ()).unwrap();
    assert_eq!(publish.args.exchange, "orders");
    assert_eq!(publish.args.routing_key, "created");
    assert_eq!(publish.content, 42u64.to_be_bytes().to_vec());

    let consumer: AmqpMessageConsumer<OrderCreated, Shelf> = AmqpMessageConsumer::new(Shelf);
    let envelope = consumer.on_message(BasicProperties::default(), decode(&publish.content));
    assert_eq!(envelope, Ok((OrderCreated { id: 42 }, ())));

    match consumer.consume(1, BasicProperties::default(), decode(&publish.content)) {
        Dispatch::Process(message, meta) => {
            assert_eq!(message, OrderCreated { id: 42 });
            assert_eq!(meta, ());
        }
        Dispatch::Settled(settlement) => panic!("expected an envelope, got {:?}", settlement),
    }
}
