use amqprs::BasicProperties;
use shizuku_amqp::error::{Error, MetaDecodeError};
use shizuku_amqp::rabbitmq::event::{
    envelope, AmqpMessageConsumer, AmqpMessageMeta, AmqpMessageProcessor, AmqpMessageSend,
    AmqpRouting, Dispatch, Settlement, ACK_MAX_RETRIES,
};

#[derive(Debug, PartialEq, Eq, Clone)]
struct Invoice {
    number: u32,
}

impl AmqpRouting for Invoice {
    const EXCHANGE: &'static str = "billing";
    const ROUTING_KEY: &'static str = "invoice.issued";
}

impl AmqpMessageSend for Invoice {
    type Meta = Tenant;
}

/// The tenant an invoice belongs to, carried in the `app_id` property.
#[derive(Debug, PartialEq, Eq, Clone)]
struct Tenant(String);

impl AmqpMessageMeta for Tenant {
    fn into_meta(self) -> BasicProperties {
        BasicProperties::default().with_app_id(&self.0).finish()
    }

    fn try_from_meta(meta: &BasicProperties) -> Result<Self, MetaDecodeError> {
        match meta.app_id() {
            Some(tenant) => Ok(Tenant(tenant.clone())),
            None => Err(MetaDecodeError { reason: "no tenant".to_string() }),
        }
    }
}

struct Ledger;

impl AmqpMessageProcessor<Invoice> for Ledger {}

fn consumer() -> AmqpMessageConsumer<Invoice, Ledger> {
    AmqpMessageConsumer::new(Ledger)
}

fn of_tenant(tenant: &str) -> BasicProperties {
    BasicProperties::default().with_app_id(tenant).finish()
}

fn assert_drained(settlement: Settlement, delivery_tag: u64, expected: Error) {
    match settlement {
        Settlement::Acknowledge { arg, max_retries, failure } => {
            assert_eq!(arg.delivery_tag, delivery_tag);
            assert!(!arg.multiple);
            assert_eq!(max_retries, 5);
            assert_eq!(failure, Some(expected));
        }
        other => panic!("expected an acknowledgement, got {:?}", other),
    }
}

#[test]
fn consumer_hands_back_its_processor() {
    struct Counting(u32);
    impl AmqpMessageProcessor<Invoice> for Counting {}
    let consumer: AmqpMessageConsumer<Invoice, Counting> = AmqpMessageConsumer::new(Counting(3));
    assert_eq!(consumer.processor().0, 3);
}

#[test]
fn ack_bound_of_the_consumer_is_five() {
    assert_eq!(ACK_MAX_RETRIES, 5);
}

#[test]
fn decoded_delivery_goes_to_the_processor() {
    let dispatch = consumer().consume(8, of_tenant("acme"), Ok(Invoice { number: 1001 }));
    match dispatch {
        Dispatch::Process(message, meta) => {
            assert_eq!(message, Invoice { number: 1001 });
            assert_eq!(meta, Tenant("acme".to_string()));
        }
        other => panic!("expected an envelope, got {:?}", other),
    }
}

#[test]
fn on_message_decodes_payload_and_metadata() {
    let envelope = consumer().on_message(of_tenant("acme"), Ok(Invoice { number: 7 }));
    assert_eq!(envelope, Ok((Invoice { number: 7 }, Tenant("acme".to_string()))));
}

#[test]
fn on_message_reports_payload_failure_first() {
    let both_broken =
        consumer().on_message(BasicProperties::default(), Err("truncated".to_string()));
    assert_eq!(both_broken, Err(Error::DeserializeError("truncated".to_string())));
    let payload_broken = consumer().on_message(of_tenant("acme"), Err("truncated".to_string()));
    assert_eq!(payload_broken, Err(Error::DeserializeError("truncated".to_string())));
}

#[test]
fn on_message_reports_metadata_failure() {
    let envelope = consumer().on_message(BasicProperties::default(), Ok(Invoice { number: 7 }));
    assert_eq!(
        envelope,
        Err(Error::MetaDecodeError(MetaDecodeError { reason: "no tenant".to_string() }))
    );
}

#[test]
fn envelope_table() {
    let ok: Result<(u8, u16), Error> = envelope(Ok(1u8), Ok(2u16));
    assert_eq!(ok, Ok((1, 2)));
    let payload: Result<(u8, u16), Error> = envelope(Err("p".to_string()), Ok(2u16));
    assert_eq!(payload, Err(Error::DeserializeError("p".to_string())));
    let meta: Result<(u8, u16), Error> =
        envelope(Ok(1u8), Err(MetaDecodeError { reason: "m".to_string() }));
    assert_eq!(meta, Err(Error::MetaDecodeError(MetaDecodeError { reason: "m".to_string() })));
    let both: Result<(u8, u16), Error> =
        envelope(Err("p".to_string()), Err(MetaDecodeError { reason: "m".to_string() }));
    assert_eq!(both, Err(Error::DeserializeError("p".to_string())));
}

#[test]
fn undecodable_payload_is_drained_without_processing() {
    let dispatch = consumer().consume(21, of_tenant("acme"), Err("not an invoice".to_string()));
    match dispatch {
        Dispatch::Settled(settlement) => assert_drained(
            settlement,
            21,
            Error::DeserializeError("not an invoice".to_string()),
        ),
        other => panic!("expected a settlement, got {:?}", other),
    }
}

#[test]
fn undecodable_metadata_is_drained_without_processing() {
    let dispatch = consumer().consume(22, BasicProperties::default(), Ok(Invoice { number: 1 }));
    match dispatch {
        Dispatch::Settled(settlement) => assert_drained(
            settlement,
            22,
            Error::MetaDecodeError(MetaDecodeError { reason: "no tenant".to_string() }),
        ),
        other => panic!("expected a settlement, got {:?}", other),
    }
}

#[test]
fn processed_delivery_is_acknowledged() {
    match consumer().settle(30, Ok(())) {
        Settlement::Acknowledge { arg, max_retries, failure } => {
            assert_eq!(arg.delivery_tag, 30);
            assert!(!arg.multiple);
            assert_eq!(max_retries, 5);
            assert_eq!(failure, None);
        }
        other => panic!("expected an acknowledgement, got {:?}", other),
    }
}

#[test]
fn retryable_failure_leaves_the_delivery_in_the_queue() {
    match consumer().settle(31, Err(Error::BusinessError("ledger locked".to_string()))) {
        Settlement::Retain { cause } => {
            assert_eq!(cause, Error::BusinessError("ledger locked".to_string()))
        }
        other => panic!("expected the delivery to be retained, got {:?}", other),
    }
}

#[test]
fn redelivery_after_a_retryable_failure_decodes_again() {
    let consumer = consumer();
    let first = consumer.consume(40, of_tenant("acme"), Ok(Invoice { number: 5 }));
    let first_envelope = match first {
        Dispatch::Process(message, meta) => (message, meta),
        other => panic!("expected an envelope, got {:?}", other),
    };
    let settlement = consumer.settle(40, Err(Error::BusinessError("ledger locked".to_string())));
    assert!(matches!(settlement, Settlement::Retain { .. }));

    let second = consumer.consume(41, of_tenant("acme"), Ok(Invoice { number: 5 }));
    match second {
        Dispatch::Process(message, meta) => assert_eq!((message, meta), first_envelope),
        other => panic!("expected an envelope, got {:?}", other),
    }
}

#[test]
fn fatal_business_failure_is_drained() {
    let settlement =
        consumer().settle(50, Err(Error::BusinessPanicError("unknown account".to_string())));
    assert_drained(settlement, 50, Error::BusinessPanicError("unknown account".to_string()));
}

#[test]
fn crashed_processor_is_drained() {
    let settlement =
        consumer().settle(51, Err(Error::TokioPanicError("task 3 panicked".to_string())));
    assert_drained(settlement, 51, Error::TokioPanicError("task 3 panicked".to_string()));
}

#[test]
fn transport_and_codec_failures_are_drained() {
    let consumer = consumer();
    assert_drained(
        consumer.settle(60, Err(Error::SerializeError("s".to_string()))),
        60,
        Error::SerializeError("s".to_string()),
    );
    assert_drained(
        consumer.settle(61, Err(Error::AmqpError("a".to_string()))),
        61,
        Error::AmqpError("a".to_string()),
    );
    assert_drained(
        consumer.settle(62, Err(Error::DeserializeError("d".to_string()))),
        62,
        Error::DeserializeError("d".to_string()),
    );
    assert_drained(
        consumer.settle(
            u64::MAX,
            Err(Error::MetaDecodeError(MetaDecodeError { reason: "m".to_string() })),
        ),
        u64::MAX,
        Error::MetaDecodeError(MetaDecodeError { reason: "m".to_string() }),
    );
}
