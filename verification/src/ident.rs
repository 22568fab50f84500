//! Identifiers of agent threads and of the interactive requests they raise.

use vstd::prelude::*;
use vstd::string::*;

verus! {

/// The hyphenated lower-case text that `uuid` writes for a 128-bit value.
pub uninterp spec fn uuid_text(bits: u128) -> Seq<char>;

/// The 128-bit value that `uuid` reads from a text, if it reads one.
pub uninterp spec fn uuid_parse(text: Seq<char>) -> Option<u128>;

/// `Uuid::from_u128(bits)` written by its `Display`, which is the hyphenated
/// form. `Uuid::parse_str` reads every form that the crate writes, so it reads
/// this text back as `bits`.
#[verifier::external_body]
fn uuid_to_text(bits: u128) -> (text: String)
    ensures
        text@ == uuid_text(bits),
        uuid_parse(text@) == Some(bits),
{
    uuid::Uuid::from_u128(bits).to_string()
}

/// `Uuid::parse_str`, the value taken as `u128`; `None` where the text is no
/// UUID.
#[verifier::external_body]
fn uuid_from_text(text: &str) -> (bits: Option<u128>)
    ensures
        bits == uuid_parse(text@),
{
    uuid::Uuid::parse_str(text).ok().map(|id| id.as_u128())
}

/// Whether a 128-bit value is a UUID of version 4 in the variant of the RFC:
/// its version field, the four bits from bit 76 on, holds 4, and its variant
/// field begins, at bits 63 and 62, with 1 and 0. The other 122 bits are free.
pub open spec fn is_random_uuid(bits: u128) -> bool {
    bits & 0x0000_0000_0000_f000_c000_0000_0000_0000u128
        == 0x0000_0000_0000_4000_8000_0000_0000_0000u128
}

/// `Uuid::new_v4`, the value taken as `u128`. The value is random but for its
/// version and variant fields, which `new_v4` sets on whatever the random
/// generator gave.
#[verifier::external_body]
fn uuid_random() -> (bits: u128)
    ensures
        is_random_uuid(bits),
{
    uuid::Uuid::new_v4().as_u128()
}

/// Whether a text is what `uuid` writes for a random UUID of version 4, and
/// so is read back as that UUID.
pub open spec fn is_random_uuid_text(text: Seq<char>) -> bool {
    exists|bits: u128|
        is_random_uuid(bits) && text == #[trigger] uuid_text(bits) && uuid_parse(text) == Some(
            bits,
        )
}

/// The text of a fresh random UUID of version 4.
pub fn fresh_uuid_text() -> (text: String)
    ensures
        is_random_uuid_text(text@),
{
    let bits = uuid_random();
    let text = uuid_to_text(bits);
    assert(is_random_uuid(bits) && text@ == uuid_text(bits) && uuid_parse(text@) == Some(bits));
    text
}

/// Identifies one agent conversation. It is written as a UUID.
#[derive(Clone, Copy, Debug, PartialEq, Eq, Structural, Hash)]
pub struct ThreadId {
    pub bits: u128,
}

impl ThreadId {
    /// A fresh identifier: a random UUID of version 4.
    pub fn new() -> (id: ThreadId)
        ensures
            is_random_uuid(id.bits),
    {
        ThreadId { bits: uuid_random() }
    }

    /// The identifier's text.
    pub open spec fn text(self) -> Seq<char> {
        uuid_text(self.bits)
    }

    /// The identifier that a text stands for.
    pub open spec fn parse(text: Seq<char>) -> Option<ThreadId> {
        match uuid_parse(text) {
            Some(bits) => Some(ThreadId { bits }),
            None => None,
        }
    }

    /// Writes the identifier.
    pub fn to_text(&self) -> (text: String)
        ensures
            text@ == self.text(),
            ThreadId::parse(text@) == Some(*self),
    {
        uuid_to_text(self.bits)
    }

    /// Reads an identifier; `None` where the text is no UUID.
    pub fn from_string(text: &str) -> (id: Option<ThreadId>)
        ensures
            id == ThreadId::parse(text@),
    {
        match uuid_from_text(text) {
            Some(bits) => Some(ThreadId { bits }),
            None => None,
        }
    }
}

/// The mathematical form of a request key.
pub struct RequestKeyView {
    pub thread_id: ThreadId,
    pub event_id: Seq<char>,
}

/// Names one outstanding interactive request: the thread that raised it and the
/// event by which it did.
#[derive(Debug, PartialEq, Eq, Hash)]
pub struct AgentTreeRequestKey {
    pub thread_id: ThreadId,
    pub event_id: String,
}

impl View for AgentTreeRequestKey {
    type V = RequestKeyView;

    open spec fn view(&self) -> RequestKeyView {
        RequestKeyView { thread_id: self.thread_id, event_id: self.event_id@ }
    }
}

impl DeepView for AgentTreeRequestKey {
    type V = RequestKeyView;

    open spec fn deep_view(&self) -> RequestKeyView {
        self@
    }
}

impl Clone for AgentTreeRequestKey {
    fn clone(&self) -> (copy: Self)
        ensures
            copy@ == self@,
    {
        AgentTreeRequestKey { thread_id: self.thread_id, event_id: self.event_id.clone() }
    }
}

impl AgentTreeRequestKey {
    /// The key of the event `event_id` of the thread `thread_id`.
    pub fn new(thread_id: ThreadId, event_id: &str) -> (key: Self)
        ensures
            key@ == (RequestKeyView { thread_id, event_id: event_id@ }),
    {
        AgentTreeRequestKey { thread_id, event_id: String::from_str(event_id) }
    }

    /// The text of a key: the thread's text, a colon, the event.
    pub open spec fn spec_as_string(key: RequestKeyView) -> Seq<char> {
        key.thread_id.text() + seq![':'] + key.event_id
    }

    /// Writes the key as one text.
    pub fn as_string(&self) -> (text: String)
        ensures
            text@ == Self::spec_as_string(self@),
    {
        let mut text = self.thread_id.to_text();
        proof {
            reveal_strlit(":");
            assert(":"@ =~= seq![':']);
        }
        text.append(":");
        text.append(self.event_id.as_str());
        text
    }

    /// Whether two keys name the same request.
    pub fn same(&self, other: &AgentTreeRequestKey) -> (equal: bool)
        ensures
            equal == (self@ == other@),
    {
        self.thread_id == other.thread_id && self.event_id == other.event_id
    }
}

} // verus!
