//! How the fields of a log event are gathered into one line: the message
//! first, then the other fields after a dash, separated by commas.
use vstd::prelude::*;

verus! {

/// Where the gathering stands with respect to the event's message.
#[derive(Debug, Clone, Copy, PartialEq, Eq, Structural)]
pub enum MessageState {
    /// The message was just taken: the next field goes after a dash.
    JustVisited,
    /// No message has been seen yet.
    NotSeen,
    /// The dash after the message has been written.
    Processed,
}

/// The line gathered so far from a log event's fields.
pub struct EventFieldVisitor {
    pub message: String,
    pub message_visited: MessageState,
}

impl EventFieldVisitor {
    /// A visitor that has seen nothing yet.
    pub fn new() -> (r: EventFieldVisitor)
        ensures
            r.message@.len() == 0,
            r.message_visited == MessageState::NotSeen,
    {
        EventFieldVisitor { message: String::new(), message_visited: MessageState::NotSeen }
    }

    /// Takes the event's message: it goes in front of whatever was gathered,
    /// with a dash between them.
    pub fn record_message(&mut self, value: String)
        ensures
            old(self).message@.len() == 0 ==> final(self).message@ == value@
                && final(self).message_visited == MessageState::JustVisited,
            old(self).message@.len() > 0 ==> final(self).message@ == value@ + " - "@ + old(self).message@
                && final(self).message_visited == MessageState::Processed,
    {
        if self.message.unicode_len() == 0 {
            self.message = value;
            self.message_visited = MessageState::JustVisited;
        } else {
            let mut m = value;
            m.append(" - ");
            m.append(self.message.as_str());
            self.message = m;
            self.message_visited = MessageState::Processed;
        }
    }

    /// Takes a field other than the message, already written as text: it
    /// goes after a dash if the message was just taken, after a comma if
    /// anything else came before, and alone otherwise.
    pub fn record_field(&mut self, text: &str)
        ensures
            old(self).message@.len() == 0 ==> final(self).message@ == text@
                && final(self).message_visited == old(self).message_visited,
            old(self).message@.len() > 0 && old(self).message_visited == MessageState::JustVisited
                ==> final(self).message@ == old(self).message@ + " - "@ + text@
                && final(self).message_visited == MessageState::Processed,
            old(self).message@.len() > 0 && old(self).message_visited != MessageState::JustVisited
                ==> final(self).message@ == old(self).message@ + ", "@ + text@
                && final(self).message_visited == old(self).message_visited,
    {
        if self.message.unicode_len() > 0 {
            if self.message_visited == MessageState::JustVisited {
                self.message.append(" - ");
                self.message_visited = MessageState::Processed;
            } else {
                self.message.append(", ");
            }
        }
        self.message.append(text);
    }
}

} // verus!
