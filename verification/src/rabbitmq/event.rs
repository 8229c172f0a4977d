use crate::error::{classify, disposition_of, Disposition, Error, MetaDecodeError};
use crate::rabbitmq::ack_arguments;
use amqprs::channel::{BasicAckArguments, BasicPublishArguments};
use amqprs::BasicProperties;
use std::marker::PhantomData;
use vstd::prelude::*;

verus! {

/// `amqprs::BasicProperties`, the broker's own bag of message properties.
/// Its fields are private to amqprs: the library carries such a value from
/// the metadata to the broker and back, and never looks inside.
#[verifier::external_type_specification]
#[verifier::external_body]
pub struct ExBasicProperties(BasicProperties);

/// `amqprs::channel::BasicPublishArguments`: where a message is published.
/// All four fields are public in amqprs, and Verus reads them.
#[verifier::external_type_specification]
pub struct ExBasicPublishArguments(BasicPublishArguments);

/// `BasicPublishArguments::new`, which copies the two names into `exchange`
/// and `routing_key` and leaves both flags off. amqprs looks at the exchange's
/// name only when it is built with its `compliance_assert` feature, which
/// this crate leaves off: as it is built here the call takes every name.
#[verifier::external_body]
fn publish_arguments(exchange: &str, routing_key: &str) -> (args: BasicPublishArguments)
    ensures
        args.exchange@ == exchange@,
        args.routing_key@ == routing_key@,
        !args.mandatory,
        !args.immediate,
{
    BasicPublishArguments::new(exchange, routing_key)
}

/// `BasicProperties::default()`, which amqprs derives: the properties of a
/// message that sets none. The value is opaque here, and nothing is claimed
/// of it.
#[verifier::external_body]
fn blank_properties() -> BasicProperties {
    BasicProperties::default()
}

/// The `Clone` that amqprs derives for `BasicProperties` copies every
/// property.
pub assume_specification[ <BasicProperties as Clone>::clone ](properties: &BasicProperties) -> (copy:
    BasicProperties)
    ensures
        copy == *properties,
;

/// Trait for routing message to rabbitmq
pub trait AmqpRouting {
    /// Exchange name
    const EXCHANGE: &'static str;

    /// Routing key
    const ROUTING_KEY: &'static str;
}

/// Trait for message meta
pub trait AmqpMessageMeta: Sized {
    /// Convert to amqp meta
    fn into_meta(self) -> BasicProperties;

    /// Try to decode from amqp meta
    fn try_from_meta(meta: &BasicProperties) -> Result<Self, MetaDecodeError>;
}

/// `native` is what `meta` was converted to by `into_meta`.
pub open spec fn encodes_to<Meta: AmqpMessageMeta>(meta: Meta, native: BasicProperties) -> bool {
    call_ensures(Meta::into_meta, (meta,), native)
}

/// `decoded` is what `try_from_meta` made of `native`.
pub open spec fn decodes_to<Meta: AmqpMessageMeta>(
    native: BasicProperties,
    decoded: Result<Meta, MetaDecodeError>,
) -> bool {
    call_ensures(Meta::try_from_meta, (&native,), decoded)
}

/// The broker's properties are their own metadata.
impl AmqpMessageMeta for BasicProperties {
    fn into_meta(self) -> (native: BasicProperties)
        ensures
            native == self,
    {
        self
    }

    fn try_from_meta(meta: &BasicProperties) -> (decoded: Result<Self, MetaDecodeError>)
        ensures
            decoded == Ok::<BasicProperties, MetaDecodeError>(*meta),
    {
        Ok(meta.clone())
    }
}

/// No metadata: published with the broker client's default properties, and
/// read from any.
impl AmqpMessageMeta for () {
    fn into_meta(self) -> BasicProperties {
        blank_properties()
    }

    fn try_from_meta(_meta: &BasicProperties) -> (decoded: Result<Self, MetaDecodeError>)
        ensures
            decoded == Ok::<(), MetaDecodeError>(()),
    {
        Ok(())
    }
}

/// Broker properties that are sent as metadata come back as they were:
/// decoding what `into_meta` gave succeeds, with the properties themselves.
pub proof fn lemma_properties_round_trip(
    meta: BasicProperties,
    native: BasicProperties,
    decoded: Result<BasicProperties, MetaDecodeError>,
)
    requires
        encodes_to(meta, native),
        decodes_to(native, decoded),
    ensures
        decoded == Ok::<BasicProperties, MetaDecodeError>(meta),
{
}

/// The unit metadata comes back as it was: decoding what `into_meta` gave
/// succeeds.
pub proof fn lemma_unit_round_trip(native: BasicProperties, decoded: Result<(), MetaDecodeError>)
    requires
        encodes_to((), native),
        decodes_to(native, decoded),
    ensures
        decoded == Ok::<(), MetaDecodeError>(()),
{
}

/// The unit metadata is read from any properties at all: none are malformed
/// for it.
pub proof fn lemma_unit_decodes_from_any(
    native: BasicProperties,
    decoded: Result<(), MetaDecodeError>,
)
    requires
        decodes_to(native, decoded),
    ensures
        decoded == Ok::<(), MetaDecodeError>(()),
{
}

/// One call of the broker's publish primitive: the three arguments of
/// `Channel::basic_publish`.
#[derive(Debug)]
pub struct Publish {
    /// The message's metadata as native properties.
    pub properties: BasicProperties,
    /// The encoded payload.
    pub content: Vec<u8>,
    /// The exchange and the routing key.
    pub args: BasicPublishArguments,
}

/// Trait for sending message to rabbitmq
pub trait AmqpMessageSend: Send + Sized + AmqpRouting {
    /// Message meta type
    type Meta: AmqpMessageMeta + Send + Sync;

    /// Send message to rabbitmq
    ///
    /// `encoded` is what the message's encoder returned. Where it failed,
    /// nothing is published and the failure is a `SerializeError`. Else the
    /// bytes go out unchanged, under `props`, to the exchange and the routing
    /// key of the message type, whatever the metadata.
    fn send(encoded: Result<Box<[u8]>, String>, props: Self::Meta) -> (publish: Result<
        Publish,
        Error,
    >)
        ensures
            match encoded {
                Ok(bytes) => {
                    &&& publish matches Ok(p)
                    &&& encodes_to(props, p.properties)
                    &&& p.content@ == bytes@
                    &&& p.args.exchange@ == Self::EXCHANGE@
                    &&& p.args.routing_key@ == Self::ROUTING_KEY@
                    &&& !p.args.mandatory
                    &&& !p.args.immediate
                },
                Err(cause) => publish == Err::<Publish, Error>(Error::SerializeError(cause)),
            },
    {
        match encoded {
            Ok(bytes) => Ok(
                Publish {
                    properties: props.into_meta(),
                    content: bytes.into_vec(),
                    args: publish_arguments(Self::EXCHANGE, Self::ROUTING_KEY),
                },
            ),
            Err(cause) => Err(Error::SerializeError(cause)),
        }
    }
}

/// What `send` reports once the broker's publish call has returned
/// `outcome`: a failure of the transport comes back at once as an
/// `AmqpError`, and nothing is tried again.
pub fn published(outcome: Result<(), String>) -> (sent: Result<(), Error>)
    ensures
        sent == match outcome {
            Ok(_) => Ok::<(), Error>(()),
            Err(cause) => Err::<(), Error>(Error::AmqpError(cause)),
        },
{
    match outcome {
        Ok(_) => Ok(()),
        Err(cause) => Err(Error::AmqpError(cause)),
    }
}

/// Trait for consuming message from rabbitmq
pub trait AmqpMessageProcessor<Message: AmqpMessageSend> {

}

/// How often the consumer lets an acknowledgement be tried.
pub const ACK_MAX_RETRIES: u32 = 5;

/// How a delivery ends.
#[derive(Debug)]
pub enum Settlement {
    /// The delivery leaves the queue: acknowledge it with `arg`, at most
    /// `max_retries` times. `failure` is what went wrong with it, if
    /// anything did.
    Acknowledge { arg: BasicAckArguments, max_retries: u32, failure: Option<Error> },
    /// The delivery stays in the queue for another try. Nothing is sent to
    /// the broker. `cause` is the failure that a retry may mend.
    Retain { cause: Error },
}

/// What the consumer asks of its host for a delivery that has just come in.
#[derive(Debug)]
pub enum Dispatch<Message, Meta> {
    /// Payload and metadata decoded: run the processor on them, then
    /// `settle` the delivery with what it returned.
    Process(Message, Meta),
    /// The delivery did not decode. The processor is not run.
    Settled(Settlement),
}

/// The acknowledgement of one delivery, and of that delivery alone.
pub open spec fn single_ack(delivery_tag: u64) -> BasicAckArguments {
    BasicAckArguments { delivery_tag, multiple: false }
}

/// How a delivery ends whose processing ended with `outcome`.
pub open spec fn settlement_of(delivery_tag: u64, outcome: Result<(), Error>) -> Settlement {
    match outcome {
        Ok(_) => Settlement::Acknowledge {
            arg: single_ack(delivery_tag),
            max_retries: ACK_MAX_RETRIES,
            failure: None,
        },
        Err(failure) => match disposition_of(outcome) {
            Disposition::Retain => Settlement::Retain { cause: failure },
            Disposition::Acknowledge => Settlement::Acknowledge {
                arg: single_ack(delivery_tag),
                max_retries: ACK_MAX_RETRIES,
                failure: Some(failure),
            },
        },
    }
}

/// The envelope for the processor, from what the two decoders returned. The
/// payload's failure comes first; the metadata's is passed on as it is, and
/// nothing is put in the place of metadata that did not decode.
pub open spec fn envelope_of<Message, Meta>(
    decoded: Result<Message, String>,
    meta: Result<Meta, MetaDecodeError>,
) -> Result<(Message, Meta), Error> {
    match decoded {
        Err(cause) => Err(Error::DeserializeError(cause)),
        Ok(message) => match meta {
            Ok(meta) => Ok((message, meta)),
            Err(e) => Err(Error::MetaDecodeError(e)),
        },
    }
}

/// What the consumer asks of its host once a delivery is decoded, or not:
/// the processor for an envelope, the settlement for a failure.
pub open spec fn dispatch_of<Message, Meta>(
    delivery_tag: u64,
    envelope: Result<(Message, Meta), Error>,
) -> Dispatch<Message, Meta> {
    match envelope {
        Ok((message, meta)) => Dispatch::Process(message, meta),
        Err(failure) => Dispatch::Settled(settlement_of(delivery_tag, Err(failure))),
    }
}

/// Puts the envelope together from what the two decoders returned.
pub fn envelope<Message, Meta>(
    decoded: Result<Message, String>,
    meta: Result<Meta, MetaDecodeError>,
) -> (envelope: Result<(Message, Meta), Error>)
    ensures
        envelope == envelope_of(decoded, meta),
{
    match decoded {
        Err(cause) => Err(Error::DeserializeError(cause)),
        Ok(message) => match meta {
            Ok(meta) => Ok((message, meta)),
            Err(e) => Err(Error::from(e)),
        },
    }
}

/// Consumer for rabbitmq
pub struct AmqpMessageConsumer<Message: AmqpMessageSend, Inner: AmqpMessageProcessor<Message>> {
    inner: Inner,
    _marker: PhantomData<Message>,
}

impl<
    Message: AmqpMessageSend,
    Inner: AmqpMessageProcessor<Message>,
> AmqpMessageConsumer<Message, Inner> {
    /// The processor that the consumer was made with.
    pub closed spec fn inner(self) -> Inner {
        self.inner
    }

    /// Create a new consumer
    pub fn new(inner: Inner) -> (consumer: Self)
        ensures
            consumer.inner() == inner,
    {
        Self { inner, _marker: PhantomData }
    }

    /// The processor to run on what `consume` hands out.
    pub fn processor(&self) -> (inner: &Inner)
        ensures
            *inner == self.inner(),
    {
        &self.inner
    }

    /// Process message
    ///
    /// Decodes a delivery into the envelope that the processor takes.
    /// `decoded` is what the payload's decoder returned for the content. Its
    /// failure is a `DeserializeError`, and the properties are not looked at
    /// then. Behind a payload that decoded, the properties are decoded by
    /// `try_from_meta`, and the envelope is made of what that returned.
    pub fn on_message(&self, prop: BasicProperties, decoded: Result<Message, String>) -> (envelope:
        Result<(Message, Message::Meta), Error>)
        ensures
            match decoded {
                Err(cause) => envelope == Err::<(Message, Message::Meta), Error>(
                    Error::DeserializeError(cause),
                ),
                Ok(_) => exists|meta: Result<Message::Meta, MetaDecodeError>|
                    #[trigger] decodes_to(prop, meta) && envelope == envelope_of(decoded, meta),
            },
    {
        match decoded {
            Err(cause) => Err(Error::DeserializeError(cause)),
            Ok(message) => {
                let meta = Message::Meta::try_from_meta(&prop);
                assert(decodes_to(prop, meta));
                self::envelope(Ok(message), meta)
            },
        }
    }

    /// Takes in a delivery. Where it decodes, the processor is to run on the
    /// envelope. Where it does not, the processor is not run and the delivery
    /// is settled on the spot.
    pub fn consume(
        &self,
        delivery_tag: u64,
        basic_properties: BasicProperties,
        decoded: Result<Message, String>,
    ) -> (dispatch: Dispatch<Message, Message::Meta>)
        ensures
            match decoded {
                Err(cause) => dispatch == dispatch_of::<Message, Message::Meta>(
                    delivery_tag,
                    Err(Error::DeserializeError(cause)),
                ),
                Ok(_) => exists|meta: Result<Message::Meta, MetaDecodeError>|
                    #[trigger] decodes_to(basic_properties, meta) && dispatch == dispatch_of(
                        delivery_tag,
                        envelope_of(decoded, meta),
                    ),
            },
    {
        let envelope = self.on_message(basic_properties, decoded);
        match envelope {
            Ok((message, meta)) => Dispatch::Process(message, meta),
            Err(failure) => Dispatch::Settled(self.settle(delivery_tag, Err(failure))),
        }
    }

    /// Settles a delivery whose processing ended with `outcome`. It is
    /// acknowledged, once, unless the processor failed in a way that a retry
    /// can mend: then it is left for the broker to deliver again.
    pub fn settle(&self, delivery_tag: u64, outcome: Result<(), Error>) -> (settlement: Settlement)
        ensures
            settlement == settlement_of(delivery_tag, outcome),
    {
        let disposition = classify(&outcome);
        match outcome {
            Ok(_) => Settlement::Acknowledge {
                arg: ack_arguments(delivery_tag, false),
                max_retries: ACK_MAX_RETRIES,
                failure: None,
            },
            Err(failure) => match disposition {
                Disposition::Retain => Settlement::Retain { cause: failure },
                Disposition::Acknowledge => Settlement::Acknowledge {
                    arg: ack_arguments(delivery_tag, false),
                    max_retries: ACK_MAX_RETRIES,
                    failure: Some(failure),
                },
            },
        }
    }
}

/// The settlement that takes a failed delivery out of the queue: one
/// acknowledgement of that delivery alone, with the failure for the log.
pub open spec fn drained(delivery_tag: u64, failure: Error) -> Settlement {
    Settlement::Acknowledge {
        arg: single_ack(delivery_tag),
        max_retries: ACK_MAX_RETRIES,
        failure: Some(failure),
    }
}

/// A delivery whose payload does not decode is acknowledged, once, with the
/// decoder's failure for the log, and the processor is not run on it,
/// whatever its properties hold.
pub proof fn lemma_undecodable_payload_is_drained<Message, Meta>(
    delivery_tag: u64,
    cause: String,
    meta: Result<Meta, MetaDecodeError>,
)
    ensures
        envelope_of::<Message, Meta>(Err(cause), meta) == Err::<(Message, Meta), Error>(
            Error::DeserializeError(cause),
        ),
        !(dispatch_of(delivery_tag, envelope_of::<Message, Meta>(Err(cause), meta)) is Process),
        dispatch_of(delivery_tag, envelope_of::<Message, Meta>(Err(cause), meta))
            == Dispatch::<Message, Meta>::Settled(
            drained(delivery_tag, Error::DeserializeError(cause)),
        ),
{
}

/// A delivery whose properties do not decode is acknowledged, once, as a
/// `MetaDecodeError` with the decoder's own failure, and the processor is not
/// run on it: no metadata is made up in place of what did not decode.
pub proof fn lemma_undecodable_metadata_is_drained<Message, Meta>(
    delivery_tag: u64,
    message: Message,
    e: MetaDecodeError,
)
    ensures
        !(dispatch_of(delivery_tag, envelope_of::<Message, Meta>(Ok(message), Err(e))) is Process),
        dispatch_of(delivery_tag, envelope_of::<Message, Meta>(Ok(message), Err(e)))
            == Dispatch::<Message, Meta>::Settled(
            drained(delivery_tag, Error::MetaDecodeError(e)),
        ),
{
}

/// A delivery on which the processor fails in a way that a retry can mend is
/// not acknowledged: it stays in the queue, and nothing is sent to the
/// broker.
pub proof fn lemma_retryable_failure_is_retained(delivery_tag: u64, cause: String)
    ensures
        settlement_of(delivery_tag, Err(Error::BusinessError(cause))) == (Settlement::Retain {
            cause: Error::BusinessError(cause),
        }),
{
}

/// The decoder of `Meta` makes one thing only of `prop`: what it once
/// decoded from these properties, it decodes from them whenever it is asked.
/// A decoder whose contract gives its success as a function of the
/// properties meets this, as those of `()` and of `BasicProperties` do.
pub open spec fn decodes_one_way<Meta: AmqpMessageMeta>(prop: BasicProperties) -> bool {
    forall|one: Result<Meta, MetaDecodeError>, other: Result<Meta, MetaDecodeError>|
        #![trigger decodes_to(prop, one), decodes_to(prop, other)]
        decodes_to(prop, one) && decodes_to(prop, other) && one is Ok ==> other == one
}

/// The unit metadata is decoded in one way from any properties.
pub proof fn lemma_unit_decodes_one_way(prop: BasicProperties)
    ensures
        decodes_one_way::<()>(prop),
{
}

/// The broker's properties are decoded in one way: as themselves.
pub proof fn lemma_properties_decode_one_way(prop: BasicProperties)
    ensures
        decodes_one_way::<BasicProperties>(prop),
{
}

/// The consumer keeps nothing between deliveries. A delivery that went to
/// the processor goes to it again when the broker brings it once more: the
/// same payload under the same properties gives the same envelope, under
/// whatever tag and however the earlier delivery ended. This holds of every
/// metadata type whose decoder makes one thing only of the properties;
/// `first` and `second` are what it returned at the two deliveries.
pub proof fn lemma_redelivery_decodes_again<Message, Meta: AmqpMessageMeta>(
    first_tag: u64,
    second_tag: u64,
    prop: BasicProperties,
    message: Message,
    first: Result<Meta, MetaDecodeError>,
    second: Result<Meta, MetaDecodeError>,
)
    requires
        decodes_one_way::<Meta>(prop),
        decodes_to(prop, first),
        decodes_to(prop, second),
        dispatch_of(first_tag, envelope_of(Ok::<Message, String>(message), first)) is Process,
    ensures
        envelope_of(Ok::<Message, String>(message), second) is Ok,
        dispatch_of(second_tag, envelope_of(Ok::<Message, String>(message), second)) is Process,
        dispatch_of(second_tag, envelope_of(Ok::<Message, String>(message), second))
            == dispatch_of(first_tag, envelope_of(Ok::<Message, String>(message), first)),
{
}

/// A message without metadata goes to the processor whenever its payload
/// decodes, whatever properties the delivery brings, and so it does again at
/// every redelivery.
pub proof fn lemma_unit_delivery_is_processed<Message>(
    delivery_tag: u64,
    prop: BasicProperties,
    message: Message,
    meta: Result<(), MetaDecodeError>,
)
    requires
        decodes_to(prop, meta),
    ensures
        dispatch_of(delivery_tag, envelope_of(Ok::<Message, String>(message), meta))
            == Dispatch::Process(message, ()),
{
}

/// A message whose metadata are the broker's properties goes to the
/// processor whenever its payload decodes, with the properties of the
/// delivery as they came, and so it does again at every redelivery.
pub proof fn lemma_properties_delivery_is_processed<Message>(
    delivery_tag: u64,
    prop: BasicProperties,
    message: Message,
    meta: Result<BasicProperties, MetaDecodeError>,
)
    requires
        decodes_to(prop, meta),
    ensures
        dispatch_of(delivery_tag, envelope_of(Ok::<Message, String>(message), meta))
            == Dispatch::Process(message, prop),
{
}

/// A delivery on which processing fails beyond retry is acknowledged, once,
/// with the failure for the log. That holds of every failure but
/// `BusinessError`: of `BusinessPanicError` and `TokioPanicError`, and of a
/// failure to encode, to decode or to reach the broker.
pub proof fn lemma_unrecoverable_failure_is_drained(delivery_tag: u64, failure: Error)
    requires
        !(failure is BusinessError),
    ensures
        settlement_of(delivery_tag, Err(failure)) == drained(delivery_tag, failure),
{
}

/// A delivery whose processing succeeds is acknowledged, once.
pub proof fn lemma_success_is_acknowledged(delivery_tag: u64)
    ensures
        settlement_of(delivery_tag, Ok(())) == (Settlement::Acknowledge {
            arg: single_ack(delivery_tag),
            max_retries: ACK_MAX_RETRIES,
            failure: None,
        }),
{
}

} // verus!
