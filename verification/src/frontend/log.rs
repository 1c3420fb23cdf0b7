//! The message log of the user interface.

use std::time::SystemTime;
use vstd::prelude::*;

verus! {

/// A point in time of the system clock, carried through unread.
#[verifier::external_type_specification]
#[verifier::external_body]
pub struct ExSystemTime(std::time::SystemTime);

/// Calls `SystemTime::now` of the standard library. Nothing is known of
/// the time that comes back.
#[verifier::external_body]
fn system_time_now() -> SystemTime {
    SystemTime::now()
}

/// How grave a message is.
#[derive(Debug, PartialEq, Eq, Clone, Copy)]
pub enum MessageType {
    Error,
    Warning,
    Info,
}

/// One entry of the log.
pub struct Message {
    pub timestamp: SystemTime,
    pub message_type: MessageType,
    pub message_string: String,
}

impl Message {
    /// A message with the given time.
    pub fn at(timestamp: SystemTime, message_type: MessageType, message_string: String) -> (message:
        Message)
        ensures
            message.timestamp == timestamp,
            message.message_type == message_type,
            message.message_string == message_string,
    {
        Message { timestamp, message_type, message_string }
    }

    /// A message with the time at which it is made.
    pub fn new(message_type: MessageType, message_string: String) -> (message: Message)
        ensures
            message.message_type == message_type,
            message.message_string == message_string,
    {
        Message::at(system_time_now(), message_type, message_string)
    }
}

/// The messages that the user interface has logged, oldest first.
pub struct Log {
    pub messages: Vec<Message>,
}

/// What a message says, without the time at which it was made.
pub struct LogEntry {
    pub kind: MessageType,
    pub text: Seq<char>,
}

impl View for Message {
    type V = LogEntry;

    open spec fn view(&self) -> LogEntry {
        LogEntry { kind: self.message_type, text: self.message_string@ }
    }
}

impl View for Log {
    type V = Seq<LogEntry>;

    open spec fn view(&self) -> Seq<LogEntry> {
        Seq::new(self.messages@.len(), |i: int| self.messages@[i]@)
    }
}

impl Default for Log {
    /// A log without messages.
    fn default() -> (log: Self)
        ensures
            log.messages@ == Seq::<Message>::empty(),
            log@ == Seq::<LogEntry>::empty(),
    {
        let log = Log { messages: Vec::new() };
        assert(log@ =~= Seq::<LogEntry>::empty());
        log
    }
}

impl Log {
    /// Adds `message` as the newest entry.
    pub fn log(&mut self, message: Message)
        ensures
            final(self).messages@ == old(self).messages@.push(message),
            final(self)@ == old(self)@.push(message@),
    {
        self.messages.push(message);
        assert(self@ =~= old(self)@.push(message@));
    }

    /// Removes every entry.
    pub fn clear(&mut self)
        ensures
            final(self).messages@ == Seq::<Message>::empty(),
            final(self)@ == Seq::<LogEntry>::empty(),
    {
        self.messages.clear();
        assert(self@ =~= Seq::<LogEntry>::empty());
    }
}

} // verus!
