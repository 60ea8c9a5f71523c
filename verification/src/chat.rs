//! A small in-process chat feed, one message log per process, owned by its
//! use case rather than held in global state. Messages are appended with a
//! fresh random identifier and the current time, and read back per
//! mission in arrival order.

use vstd::prelude::*;

verus! {

/// One chat message on a mission's feed.
#[derive(Clone, Debug)]
pub struct ChatMessage {
    pub id: String,
    pub mission_id: i32,
    pub sender_id: i32,
    pub sender_name: String,
    pub content: String,
    pub created_at: i64,
}

/// Relies on `uuid::Uuid::new_v4` and its `Display` impl: a fresh random
/// identifier, rendered in the 36-character hyphenated form. The value is
/// random; nothing but its length is assumed.
#[verifier::external_body]
fn fresh_message_id() -> (r: String)
    ensures
        r@.len() == 36,
{
    uuid::Uuid::new_v4().to_string()
}

/// Relies on `chrono::Utc::now` and `DateTime::timestamp`: the current
/// time in seconds since the Unix epoch. Nothing is assumed of the value.
#[verifier::external_body]
fn now_epoch_seconds() -> (r: i64) {
    chrono::Utc::now().timestamp()
}

fn clone_message(m: &ChatMessage) -> (r: ChatMessage)
    ensures
        r == *m,
{
    ChatMessage {
        id: m.id.clone(),
        mission_id: m.mission_id,
        sender_id: m.sender_id,
        sender_name: m.sender_name.clone(),
        content: m.content.clone(),
        created_at: m.created_at,
    }
}

/// The messages of one mission, in the order they arrived.
pub open spec fn messages_for(log: Seq<ChatMessage>, mission_id: i32) -> Seq<ChatMessage>
    decreases log.len(),
{
    if log.len() == 0 {
        Seq::empty()
    } else {
        let rest = messages_for(log.drop_last(), mission_id);
        if log.last().mission_id == mission_id {
            rest.push(log.last())
        } else {
            rest
        }
    }
}

/// The chat feature: owns the message log and serves reads and appends.
pub struct ChatUseCase {
    messages: Vec<ChatMessage>,
}

impl ChatUseCase {
    /// Everything ever sent, in arrival order.
    pub closed spec fn log(&self) -> Seq<ChatMessage> {
        self.messages@
    }

    /// A chat with no messages yet.
    pub fn new() -> (r: Self)
        ensures
            r.log() == Seq::<ChatMessage>::empty(),
    {
        ChatUseCase { messages: Vec::new() }
    }

    /// The messages of one mission, oldest first; empty when none were
    /// sent yet.
    pub fn get_messages(&self, mission_id: i32) -> (r: Vec<ChatMessage>)
        ensures
            r@ == messages_for(self.log(), mission_id),
    {
        let mut r: Vec<ChatMessage> = Vec::new();
        let mut i: usize = 0;
        while i < self.messages.len()
            invariant
                0 <= i <= self.messages@.len(),
                r@ == messages_for(self.messages@.subrange(0, i as int), mission_id),
            decreases self.messages@.len() - i,
        {
            let m = &self.messages[i];
            if m.mission_id == mission_id {
                r.push(clone_message(m));
            }
            proof {
                let post = self.messages@.subrange(0, i as int + 1);
                assert(post.drop_last() =~= self.messages@.subrange(0, i as int));
                assert(post.last() == self.messages@[i as int]);
            }
            i = i + 1;
        }
        proof {
            assert(self.messages@.subrange(0, self.messages@.len() as int) =~= self.messages@);
        }
        r
    }

    /// Appends a message to a mission's feed and returns it. The message
    /// carries a fresh random identifier and the current time.
    pub fn send_message(
        &mut self,
        mission_id: i32,
        sender_id: i32,
        sender_name: String,
        content: String,
    ) -> (r: ChatMessage)
        ensures
            final(self).log() == old(self).log().push(r),
            r.mission_id == mission_id,
            r.sender_id == sender_id,
            r.sender_name == sender_name,
            r.content == content,
            r.id@.len() == 36,
    {
        let msg = ChatMessage {
            id: fresh_message_id(),
            mission_id,
            sender_id,
            sender_name,
            content,
            created_at: now_epoch_seconds(),
        };
        let copy = clone_message(&msg);
        self.messages.push(copy);
        msg
    }
}

} // verus!
