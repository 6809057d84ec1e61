//! A relay of events from publishers to the clients that are subscribed at
//! the moment of publishing.
//!
//! One topic carries the events. A publisher hands an event to
//! [`event::send`], which refuses a percentage that is no number from 0 to
//! 100 and publishes any other, and is told how many subscriptions the event
//! reached. A client subscribes with [`event::subscribe`] and is sent what is
//! published from then on, until it goes away or falls too far behind.
//!
//! - [`event`]: the topic of percentage events, the replies to publishers,
//!   and the error replies to requests that could not be read.
//! - [`send_event`]: the topic of plain messages.
//! - [`subscription`]: the phases of a subscription and what it does with
//!   each thing that the channel delivers.
//! - [`binary64`]: which 64-bit patterns denote a number from 0 to 100.
//! - [`decimal`]: the decimal notation of a count.
//! - [`status`]: the status codes of replies.
//! - [`broadcast`]: what is taken on trust of the channel underneath.

pub mod binary64;
pub mod broadcast;
pub mod decimal;
pub mod event;
pub mod send_event;
pub mod status;
pub mod subscription;
