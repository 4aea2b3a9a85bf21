//! The debug log shown in the side panel.

use crate::shared::text::{chars_of, extend_chars, string_of};
use vstd::prelude::*;

verus! {

/// The mark put before a message logged through a poisoned lock.
pub open spec fn poisoned_mark() -> Seq<char> {
    "(POISONED MUTEX) "@
}

pub struct DebugLogger {
    pub debug_messages: Vec<String>,
}

impl DebugLogger {
    pub fn new() -> (r: DebugLogger)
        ensures
            r.debug_messages@.len() == 0,
    {
        Self { debug_messages: Vec::new() }
    }

    /// Appends `message` to the log.
    pub fn log(&mut self, message: String)
        ensures
            final(self).debug_messages@ == old(self).debug_messages@.push(message),
    {
        self.debug_messages.push(message);
    }

    /// Logs `message` through the shared logger's lock; `lock_poisoned`
    /// tells whether the lock was poisoned, in which case the message is
    /// marked as such.
    pub fn safe_log(&mut self, lock_poisoned: bool, message: String)
        ensures
            final(self).debug_messages@.len() == old(self).debug_messages@.len() + 1,
            final(self).debug_messages@.drop_last() == old(self).debug_messages@,
            final(self).debug_messages@.last()@ == if lock_poisoned {
                poisoned_mark() + message@
            } else {
                message@
            },
    {
        if lock_poisoned {
            let mut text = chars_of("(POISONED MUTEX) ");
            extend_chars(&mut text, &chars_of(message.as_str()));
            self.log(string_of(&text));
        } else {
            self.log(message);
        }
        assert(self.debug_messages@.drop_last() =~= old(self).debug_messages@);
    }

    /// The logged messages, read through the shared logger's lock; none when
    /// the lock was poisoned.
    pub fn get_messages(&self, lock_poisoned: bool) -> (r: Vec<String>)
        ensures
            r@ == if lock_poisoned {
                Seq::empty()
            } else {
                self.debug_messages@
            },
    {
        if lock_poisoned {
            Vec::new()
        } else {
            let v = self.debug_messages.clone();
            assert(v@ =~= self.debug_messages@);
            v
        }
    }
}

} // verus!
