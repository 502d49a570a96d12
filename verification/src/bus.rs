//! The command bus and the feedback channel.
//!
//! Both are the sending halves of standard multi-producer channels. The
//! receiving halves live outside this crate: the audio renderer drains
//! the command bus non-blockingly once per render period, and the console
//! drains the feedback channel on its poll tick. Each sending half
//! carries a ghost record of the messages it has delivered, so that the
//! contracts of the state operations can say "exactly one message was
//! emitted" and in which order.

use crate::messages::ControlMessage;
use crate::messages::FeedbackMessage;
use vstd::prelude::*;

verus! {

#[verifier::external_type_specification]
#[verifier::external_body]
#[verifier::reject_recursive_types(T)]
pub struct ExSender<T>(std::sync::mpsc::Sender<T>);

/// A producer's handle on the command bus. Messages sent through one
/// handle reach the renderer in the order they were sent.
pub struct CommandBus {
    sender: std::sync::mpsc::Sender<ControlMessage>,
    delivered: Ghost<Seq<ControlMessage>>,
}

impl CommandBus {
    /// Every message this handle has accepted for delivery, oldest first.
    pub closed spec fn sent(self) -> Seq<ControlMessage> {
        self.delivered@
    }

    /// Wraps the sending half of the channel the renderer drains.
    pub fn new(sender: std::sync::mpsc::Sender<ControlMessage>) -> (bus: CommandBus)
        ensures
            bus.sent() == Seq::<ControlMessage>::empty(),
    {
        CommandBus { sender, delivered: Ghost(Seq::empty()) }
    }

    /// Relies on std::sync::mpsc::Sender::send: it returns Err exactly
    /// when the receiving half has been dropped, and on Ok the message is
    /// queued behind this sender's earlier messages.
    #[verifier::external_body]
    fn send_raw(&mut self, message: ControlMessage) -> (r: Result<(), ()>)
        ensures
            r is Ok ==> final(self).sent() == old(self).sent().push(message),
            r is Err ==> final(self).sent() == old(self).sent(),
    {
        match self.sender.send(message) {
            Ok(()) => Ok(()),
            Err(_) => Err(()),
        }
    }

    /// Sends one command to the renderer. Failure means the renderer side
    /// has disconnected, which is expected only during shutdown.
    pub fn send(&mut self, message: ControlMessage) -> (r: Result<(), ()>)
        ensures
            r is Ok ==> final(self).sent() == old(self).sent().push(message),
            r is Err ==> final(self).sent() == old(self).sent(),
    {
        self.send_raw(message)
    }
}

/// A producer's handle on the feedback channel toward the console. The
/// channel is lossy-tolerant: a failed send is discarded silently, so a
/// performance-event callback never blocks or fails loudly on feedback.
pub struct FeedbackLink {
    sender: std::sync::mpsc::Sender<FeedbackMessage>,
    delivered: Ghost<Seq<FeedbackMessage>>,
}

impl FeedbackLink {
    /// Every message this handle has delivered, oldest first.
    pub closed spec fn sent(self) -> Seq<FeedbackMessage> {
        self.delivered@
    }

    /// Wraps the sending half of the channel the console drains.
    pub fn new(sender: std::sync::mpsc::Sender<FeedbackMessage>) -> (link: FeedbackLink)
        ensures
            link.sent() == Seq::<FeedbackMessage>::empty(),
    {
        FeedbackLink { sender, delivered: Ghost(Seq::empty()) }
    }

    /// Relies on std::sync::mpsc::Sender::send: it returns Err exactly
    /// when the receiving half has been dropped; the error is dropped
    /// here, as a feedback line that nobody will read may be.
    #[verifier::external_body]
    fn post_raw(&mut self, message: FeedbackMessage)
        ensures
            final(self).sent() == old(self).sent().push(message) || final(self).sent() == old(
                self,
            ).sent(),
    {
        let _ = self.sender.send(message);
    }

    /// Hands one feedback message toward the console; if the console is
    /// gone the message is discarded without error.
    pub fn post(&mut self, message: FeedbackMessage)
        ensures
            final(self).sent() == old(self).sent().push(message) || final(self).sent() == old(
                self,
            ).sent(),
    {
        self.post_raw(message)
    }
}

} // verus!
