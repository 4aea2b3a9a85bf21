//! The side panel with the debug log.

use crate::shared::text::{wrap_text, wrapped_lines};
use vstd::prelude::*;

verus! {

/// How many rows the messages take when each is wrapped at `width` columns.
pub open spec fn wrapped_row_count(messages: Seq<String>, width: usize) -> nat
    decreases messages.len(),
{
    if messages.len() == 0 {
        0
    } else {
        wrapped_row_count(messages.drop_last(), width) + wrapped_lines(
            messages.last()@,
            width,
        ).len()
    }
}

pub struct DebugBlockWidget {
    debug_messages: Vec<String>,
}

impl DebugBlockWidget {
    pub closed spec fn messages_view(&self) -> Seq<String> {
        self.debug_messages@
    }

    pub fn new(debug_messages: Vec<String>) -> (r: Self)
        ensures
            r.messages_view() == debug_messages@,
    {
        Self { debug_messages }
    }

    /// The messages shown.
    pub fn messages(&self) -> (r: &Vec<String>)
        ensures
            r@ == self.messages_view(),
    {
        &self.debug_messages
    }

    /// How far to scroll so that the last rows are visible: the rows the
    /// messages take when wrapped at `width`, less the `visible_rows`.
    pub fn scroll_rows(&self, width: usize, visible_rows: usize) -> (r: u128)
        ensures
            r == if wrapped_row_count(self.messages_view(), width) > visible_rows {
                wrapped_row_count(self.messages_view(), width) - visible_rows
            } else {
                0
            },
    {
        let mut total: u128 = 0;
        let mut i: usize = 0;
        while i < self.debug_messages.len()
            invariant
                i <= self.debug_messages@.len(),
                total == wrapped_row_count(self.debug_messages@.subrange(0, i as int), width),
                total <= i * usize::MAX,
            decreases self.debug_messages@.len() - i,
        {
            let wrapped = wrap_text(self.debug_messages[i].as_str(), width);
            assert(self.debug_messages@.subrange(0, i + 1).drop_last() =~= self.debug_messages@.subrange(
                0,
                i as int,
            ));
            assert(wrapped@.map_values(|l: String| l@).len() == wrapped@.len());
            total = total + wrapped.len() as u128;
            i = i + 1;
        }
        assert(self.debug_messages@.subrange(0, self.debug_messages@.len() as int)
            =~= self.debug_messages@);
        if total > visible_rows as u128 {
            total - visible_rows as u128
        } else {
            0
        }
    }
}

} // verus!
