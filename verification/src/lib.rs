//! Typed message transport between business logic and an AMQP broker or a
//! keyed-value store.
//!
//! The library decides; its host performs the I/O. A producer asks
//! [`rabbitmq::event::AmqpMessageSend::send`] what to publish and where, a
//! consumer asks [`rabbitmq::event::AmqpMessageConsumer`] what to do with a
//! delivery, and [`rabbitmq::ack`] bounds the retries of an acknowledgement.
//! Every decision carries a contract that Verus proves.

/// The error taxonomy and the policy that follows from it.
pub mod error;

/// Tools for RabbitMQ.
pub mod rabbitmq;

/// Typed access to a keyed-value store.
pub mod redis;
