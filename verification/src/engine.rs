//! The composition state of the phonetic engine: the Roman keys typed so far
//! for the current word, and whether Bangla typing is on.

use vstd::prelude::*;
use vstd::string::*;
use crate::text::{pop_char, push_char};
use crate::translate::{spec_translate, translate};

verus! {

/// The phonetic engine: a composition buffer of Roman keys and the typing
/// mode.
#[derive(Debug)]
pub struct PhoneticEngine {
    composition_buffer: String,
    pub bangla_mode: bool,
}

impl PhoneticEngine {
    /// The Roman keys in the composition buffer.
    pub closed spec fn buffer(&self) -> Seq<char> {
        self.composition_buffer@
    }

    /// Whether Bangla typing is on.
    pub closed spec fn mode(&self) -> bool {
        self.bangla_mode
    }

    /// An engine with an empty buffer, in Bangla mode.
    pub fn new() -> (e: Self)
        ensures
            e.buffer() == Seq::<char>::empty(),
            e.mode(),
    {
        PhoneticEngine { composition_buffer: String::new(), bangla_mode: true }
    }

    /// The composition buffer.
    pub fn get_buffer(&self) -> (r: &str)
        ensures
            r@ == self.buffer(),
    {
        self.composition_buffer.as_str()
    }

    /// Replaces the composition buffer with `val`.
    pub fn set_buffer(&mut self, val: String)
        ensures
            final(self).buffer() == val@,
            final(self).mode() == old(self).mode(),
    {
        self.composition_buffer = val;
    }

    /// Empties the composition buffer.
    pub fn clear(&mut self)
        ensures
            final(self).buffer() == Seq::<char>::empty(),
            final(self).mode() == old(self).mode(),
    {
        self.composition_buffer = String::new();
    }

    /// Whether the composition buffer is empty.
    pub fn is_empty(&self) -> (r: bool)
        ensures
            r == (self.buffer().len() == 0),
    {
        self.composition_buffer.as_str().is_empty()
    }

    /// Translates the composition buffer into Bangla Unicode.
    pub fn translate(&self) -> (r: String)
        ensures
            r@ == spec_translate(self.buffer()),
    {
        translate(self.composition_buffer.as_str())
    }

    /// Whether Bangla typing is on.
    pub fn is_bangla_mode(&self) -> (r: bool)
        ensures
            r == self.mode(),
    {
        self.bangla_mode
    }

    /// Switches between Bangla and English typing and returns the new mode.
    pub fn toggle_mode(&mut self) -> (now: bool)
        ensures
            now == !old(self).mode(),
            final(self).mode() == now,
            final(self).buffer() == old(self).buffer(),
    {
        self.bangla_mode = !self.bangla_mode;
        self.bangla_mode
    }

    /// Appends a character to the composition buffer.
    pub fn push_char(&mut self, c: char)
        ensures
            final(self).buffer() == old(self).buffer().push(c),
            final(self).mode() == old(self).mode(),
    {
        push_char(&mut self.composition_buffer, c);
    }

    /// Removes the last character from the composition buffer. Returns true
    /// if a character was removed, false if the buffer was already empty.
    pub fn pop_char(&mut self) -> (removed: bool)
        ensures
            removed == (old(self).buffer().len() > 0),
            final(self).buffer() == if removed {
                old(self).buffer().drop_last()
            } else {
                old(self).buffer()
            },
            final(self).mode() == old(self).mode(),
    {
        if !self.composition_buffer.as_str().is_empty() {
            pop_char(&mut self.composition_buffer);
            true
        } else {
            false
        }
    }
}

impl Default for PhoneticEngine {
    /// An engine with an empty buffer and Bangla typing off.
    fn default() -> (e: Self)
        ensures
            e.buffer() == Seq::<char>::empty(),
            !e.mode(),
    {
        PhoneticEngine { composition_buffer: String::new(), bangla_mode: false }
    }
}

/// Pushing a character and then popping one gives back the buffer as it
/// was, and the pop reports that it removed a character.
pub proof fn lemma_push_then_pop(buffer: Seq<char>, c: char)
    ensures
        buffer.push(c).len() > 0,
        buffer.push(c).drop_last() == buffer,
{
    assert(buffer.push(c).drop_last() =~= buffer);
}

} // verus!
