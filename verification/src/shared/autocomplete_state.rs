//! What the autocomplete popup under the input shows and which entry is
//! highlighted.

use vstd::prelude::*;
use vstd::string::StrSliceExecFns;

verus! {

/// The kind of reference the token under the cursor makes: `/command`,
/// `@path`, or neither.
#[derive(Debug, Clone, Copy, PartialEq, Eq, Structural)]
pub enum ReferenceType {
    Command,
    Filepath,
    NoReference,
}

/// The reference type a token makes, by its first character.
pub open spec fn reference_type_of(token: Seq<char>) -> ReferenceType {
    if token.len() > 0 && token[0] == '@' {
        ReferenceType::Filepath
    } else if token.len() > 0 && token[0] == '/' {
        ReferenceType::Command
    } else {
        ReferenceType::NoReference
    }
}

/// The character sequences of a list of strings.
pub open spec fn strings_view(v: Seq<String>) -> Seq<Seq<char>> {
    v.map_values(|s: String| s@)
}

/// The character sequence of an optional string.
pub open spec fn opt_string_view(o: Option<String>) -> Option<Seq<char>> {
    match o {
        Some(s) => Some(s@),
        None => None,
    }
}

#[derive(Debug)]
pub struct AutocompleteState {
    pub options: Vec<String>,
    pub current_index: usize,
    pub reference_token: Option<String>,
    pub reference_token_index: usize,
    pub reference_type: ReferenceType,
}

impl Clone for AutocompleteState {
    fn clone(&self) -> (r: Self)
        ensures
            r.same_as(self),
    {
        let options = self.options.clone();
        assert(options@ =~= self.options@);
        let reference_token = match &self.reference_token {
            Some(t) => Some(t.clone()),
            None => None,
        };
        AutocompleteState {
            options,
            current_index: self.current_index,
            reference_token,
            reference_token_index: self.reference_token_index,
            reference_type: self.reference_type,
        }
    }
}

impl AutocompleteState {
    /// Whether `self` and `other` hold the same options, selection and reference.
    pub open spec fn same_as(&self, other: &Self) -> bool {
        &&& self.options@ == other.options@
        &&& self.current_index == other.current_index
        &&& self.reference_token == other.reference_token
        &&& self.reference_token_index == other.reference_token_index
        &&& self.reference_type == other.reference_type
    }

    /// No options, nothing highlighted, no reference.
    pub open spec fn is_empty_state(&self) -> bool {
        &&& self.options@.len() == 0
        &&& self.current_index == 0
        &&& self.reference_token is None
        &&& self.reference_token_index == 0
        &&& self.reference_type == ReferenceType::NoReference
    }

    /// Whether the popup is shown: for a command only at the start of the
    /// message, for a file path anywhere.
    pub open spec fn displayed(&self) -> bool {
        match self.reference_type {
            ReferenceType::Command => self.reference_token_index == 0,
            ReferenceType::Filepath => true,
            ReferenceType::NoReference => false,
        }
    }

    /// The highlighted option, or the empty text when the index is past the end.
    pub open spec fn selected_option(&self) -> Seq<char> {
        if self.current_index < self.options@.len() {
            self.options@[self.current_index as int]@
        } else {
            Seq::empty()
        }
    }

    pub fn new() -> (r: Self)
        ensures
            r.is_empty_state(),
    {
        Self {
            options: Vec::new(),
            current_index: 0,
            reference_token: None,
            reference_token_index: 0,
            reference_type: ReferenceType::NoReference,
        }
    }

    pub fn is_displayed(&self) -> (r: bool)
        ensures
            r == self.displayed(),
    {
        match self.reference_type {
            ReferenceType::Command => self.reference_token_index == 0,
            ReferenceType::Filepath => true,
            _ => false,
        }
    }

    pub fn get_reference_type_from_token(token: &str) -> (r: ReferenceType)
        ensures
            r == reference_type_of(token@),
    {
        if token.unicode_len() == 0 {
            ReferenceType::NoReference
        } else {
            let c = token.get_char(0);
            if c == '@' {
                ReferenceType::Filepath
            } else if c == '/' {
                ReferenceType::Command
            } else {
                ReferenceType::NoReference
            }
        }
    }

    pub fn set_reference_token(
        &mut self,
        reference_token: Option<String>,
        index: usize,
        reference_type: ReferenceType,
    )
        ensures
            final(self).reference_token == reference_token,
            final(self).reference_token_index == index,
            final(self).reference_type == reference_type,
            final(self).options@ == old(self).options@,
            final(self).current_index == old(self).current_index,
    {
        self.reference_token = reference_token;
        self.reference_token_index = index;
        self.reference_type = reference_type;
    }

    pub fn get_selected_option(&self) -> (r: String)
        ensures
            r@ == self.selected_option(),
    {
        if self.current_index < self.options.len() {
            self.options[self.current_index].clone()
        } else {
            String::new()
        }
    }

    pub fn set_options(&mut self, options: Vec<String>)
        ensures
            final(self).options@ == options@,
            final(self).current_index == old(self).current_index,
            final(self).reference_token == old(self).reference_token,
            final(self).reference_token_index == old(self).reference_token_index,
            final(self).reference_type == old(self).reference_type,
    {
        self.options = options;
    }

    pub fn set_current_index(&mut self, index: usize)
        ensures
            final(self).current_index == index,
            final(self).options@ == old(self).options@,
            final(self).reference_token == old(self).reference_token,
            final(self).reference_token_index == old(self).reference_token_index,
            final(self).reference_type == old(self).reference_type,
    {
        self.current_index = index;
    }

    pub fn increment_current_index(&mut self)
        requires
            old(self).current_index < usize::MAX,
        ensures
            final(self).current_index == old(self).current_index + 1,
            final(self).options@ == old(self).options@,
            final(self).reference_token == old(self).reference_token,
            final(self).reference_token_index == old(self).reference_token_index,
            final(self).reference_type == old(self).reference_type,
    {
        self.current_index = self.current_index + 1;
    }

    pub fn decrement_current_index(&mut self)
        requires
            old(self).current_index > 0,
        ensures
            final(self).current_index == old(self).current_index - 1,
            final(self).options@ == old(self).options@,
            final(self).reference_token == old(self).reference_token,
            final(self).reference_token_index == old(self).reference_token_index,
            final(self).reference_type == old(self).reference_type,
    {
        self.current_index = self.current_index - 1;
    }
}

} // verus!
