//! The record: an owner, a message and an update counter, kept in storage of
//! a fixed size.

use vstd::prelude::*;
use vstd::string::StringSliceAdditionalSpecFns;
use vstd::utf8::encode_utf8;
use crate::error::RecordError;
use crate::pubkey::Pubkey;

verus! {

/// Bytes that the storage of a record reserves for its internal tag.
pub const TAG_SPACE: usize = 8;

/// Bytes that the storage of a record reserves for the owner's key.
pub const OWNER_SPACE: usize = 32;

/// Bytes that the storage of a record reserves for the length of the message.
pub const LENGTH_PREFIX_SPACE: usize = 4;

/// The most bytes that the UTF-8 form of a message may take.
pub const MESSAGE_CAPACITY: usize = 100;

/// Bytes that the storage of a record reserves for its counter.
pub const COUNT_SPACE: usize = 8;

/// The size of the storage of a record. It is reserved once, when the record
/// is created, and never grows.
pub const RECORD_SPACE: usize = TAG_SPACE + OWNER_SPACE + LENGTH_PREFIX_SPACE + MESSAGE_CAPACITY
    + COUNT_SPACE;

/// The state kept for one owner.
#[derive(Debug)]
pub struct HelloWorld {
    /// The identity that created the record. It never changes.
    pub owner: Pubkey,
    /// The current message.
    pub message: String,
    /// How many times the message was updated, modulo 2^64.
    pub count: u64,
}

/// What a record holds, as mathematical values.
pub struct HelloWorldView {
    pub owner: Seq<u8>,
    pub message: Seq<char>,
    pub count: u64,
}

impl View for HelloWorld {
    type V = HelloWorldView;

    open spec fn view(&self) -> HelloWorldView {
        HelloWorldView { owner: self.owner@, message: self.message@, count: self.count }
    }
}

impl Clone for HelloWorld {
    fn clone(&self) -> (copy: HelloWorld)
        ensures
            copy@ == self@,
    {
        HelloWorld { owner: self.owner, message: self.message.clone(), count: self.count }
    }
}

/// The message of a record that was never updated.
pub open spec fn greeting() -> Seq<char> {
    "Hello, Solana!"@
}

/// The bytes that a record with this message occupies in storage: tag,
/// owner, length prefix, the message in UTF-8, counter.
pub open spec fn stored_len(message: Seq<char>) -> nat {
    TAG_SPACE as nat + OWNER_SPACE as nat + LENGTH_PREFIX_SPACE as nat + encode_utf8(message).len()
        + COUNT_SPACE as nat
}

/// Whether a record with this message fits into the storage of a record.
pub open spec fn fits(message: Seq<char>) -> bool {
    stored_len(message) <= RECORD_SPACE
}

/// The counter after one more update: one more, and zero after the largest
/// value.
pub open spec fn next_count(count: u64) -> u64 {
    if count == u64::MAX {
        0
    } else {
        (count + 1) as u64
    }
}

impl HelloWorldView {
    /// The record that creation gives to `owner`.
    pub open spec fn created(owner: Seq<u8>) -> HelloWorldView {
        HelloWorldView { owner, message: greeting(), count: 0 }
    }

    /// This record after an update of its message.
    pub open spec fn updated(self, message: Seq<char>) -> HelloWorldView {
        HelloWorldView { owner: self.owner, message, count: next_count(self.count) }
    }
}

/// The greeting has 14 bytes and fits.
pub proof fn lemma_greeting_fits()
    ensures
        encode_utf8(greeting()).len() == 14,
        fits(greeting()),
{
    reveal_strlit("Hello, Solana!");
    let text = greeting();
    assert(vstd::utf8::is_ascii_chars(text));
    vstd::utf8::is_ascii_chars_encode_utf8(text);
}

/// Whether a record with this message fits into the storage of a record.
pub fn message_fits(message: &str) -> (ok: bool)
    ensures
        ok == fits(message@),
{
    message.as_bytes().len() <= MESSAGE_CAPACITY
}

impl HelloWorld {
    /// The record that creation gives to `owner`: the greeting, never updated.
    pub fn create(owner: Pubkey) -> (record: HelloWorld)
        ensures
            record@ == HelloWorldView::created(owner@),
    {
        HelloWorld { owner, message: "Hello, Solana!".to_owned(), count: 0 }
    }

    /// Whether `caller` is the stored owner, by comparing the keys.
    pub fn is_owned_by(&self, caller: &Pubkey) -> (owned: bool)
        ensures
            owned == (self@.owner == caller@),
    {
        self.owner == *caller
    }

    /// Replaces the message and counts the update, unless the new message
    /// does not fit; then the record stays as it was.
    pub fn set_message(&mut self, new_message: String) -> (result: Result<(), RecordError>)
        ensures
            fits(new_message@) ==> result == Ok::<(), RecordError>(()) && final(self)@ == old(self)@.updated(
                new_message@,
            ),
            !fits(new_message@) ==> result == Err::<(), RecordError>(RecordError::MessageTooLong)
                && *final(self) == *old(self),
    {
        if !message_fits(new_message.as_str()) {
            return Err(RecordError::MessageTooLong);
        }
        self.message = new_message;
        self.count = self.count.wrapping_add(1);
        Ok(())
    }

    /// A copy of the current message.
    pub fn get_message(&self) -> (message: String)
        ensures
            message@ == self@.message,
    {
        self.message.clone()
    }
}

} // verus!
