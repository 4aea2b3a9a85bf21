//! The state of a text input: its text, cursor, autocomplete popup and mode.

use crate::shared::autocomplete_state::{AutocompleteState, ReferenceType};
use crate::shared::chat_action::SubmitData;
use crate::shared::command::{command_list, commands, Command};
use crate::shared::text::{chars_of, find, find_spec, str_eq, string_of, subvec, trim, trim_spec};
use vstd::prelude::*;

verus! {

#[derive(Debug, Clone, Copy, PartialEq, Eq, Structural)]
pub enum InputMode {
    Normal,
    Editing,
}

/// The command name a trimmed message `s` gives: when `s` starts with `/`,
/// the text after that slash up to the next `/` (or the end); a message that
/// does not start with `/` names no command.
pub open spec fn command_name_of(s: Seq<char>) -> Option<Seq<char>> {
    if s.len() > 0 && s[0] == '/' {
        let rest = s.subrange(1, s.len() as int);
        Some(
            match find_spec(rest, seq!['/']) {
                Some(j) => rest.subrange(0, j),
                None => rest,
            },
        )
    } else {
        None
    }
}

/// The first command of `cmds` whose name is `name`.
pub open spec fn command_named(cmds: Seq<Command>, name: Seq<char>) -> Option<Command>
    decreases cmds.len(),
{
    if cmds.len() == 0 {
        None
    } else if cmds[0].meta().name@ == name {
        Some(cmds[0])
    } else {
        command_named(cmds.drop_first(), name)
    }
}

/// The command that submitting `input` runs, if any: the trimmed input starts
/// with `/` and the text after it, up to the next `/`, is a command's name.
pub open spec fn submitted_command(input: Seq<char>) -> Option<Command> {
    match command_name_of(trim_spec(input)) {
        Some(name) => command_named(command_list(), name),
        None => None,
    }
}

/// What submitting `input` hands to the application.
pub open spec fn submit_data_matches(input: Seq<char>, data: SubmitData) -> bool {
    match data {
        SubmitData::Text(t) => submitted_command(input) is None && t@ == trim_spec(input),
        SubmitData::Command(c) => submitted_command(input) == Some(c),
    }
}

pub struct TextInputState {
    pub input: String,
    /// Cursor position, counted in characters.
    pub character_index: usize,
    pub prefix: String,
    pub autocomplete_state: AutocompleteState,
    pub input_mode: InputMode,
    /// The reference kind a journey asks for while one of its fields is edited.
    pub override_autocomplete_type: Option<ReferenceType>,
}

impl Clone for TextInputState {
    fn clone(&self) -> (r: Self)
        ensures
            r.same_as(self),
    {
        TextInputState {
            input: self.input.clone(),
            character_index: self.character_index,
            prefix: self.prefix.clone(),
            autocomplete_state: self.autocomplete_state.clone(),
            input_mode: self.input_mode,
            override_autocomplete_type: self.override_autocomplete_type,
        }
    }
}

impl TextInputState {
    /// Whether `self` and `other` hold the same text, cursor, popup and mode.
    pub open spec fn same_as(&self, other: &Self) -> bool {
        &&& self.input@ == other.input@
        &&& self.character_index == other.character_index
        &&& self.prefix@ == other.prefix@
        &&& self.autocomplete_state.same_as(&other.autocomplete_state)
        &&& self.input_mode == other.input_mode
        &&& self.override_autocomplete_type == other.override_autocomplete_type
    }

    /// The cursor is within the text.
    pub open spec fn cursor_in_text(&self) -> bool {
        self.character_index <= self.input@.len()
    }

    /// An empty input in normal mode, with no popup.
    pub fn new() -> (r: Self)
        ensures
            r.input@ == Seq::<char>::empty(),
            r.character_index == 0,
            r.prefix@ == Seq::<char>::empty(),
            r.autocomplete_state.is_empty_state(),
            r.input_mode == InputMode::Normal,
            r.override_autocomplete_type is None,
    {
        TextInputState {
            input: String::new(),
            character_index: 0,
            prefix: String::new(),
            autocomplete_state: AutocompleteState::new(),
            input_mode: InputMode::Normal,
            override_autocomplete_type: None,
        }
    }

    /// Clears the text, the cursor and the popup; the mode, prefix and
    /// requested reference kind stay.
    pub fn reset(&mut self)
        ensures
            final(self).input@ == Seq::<char>::empty(),
            final(self).character_index == 0,
            final(self).autocomplete_state.is_empty_state(),
            final(self).prefix@ == old(self).prefix@,
            final(self).input_mode == old(self).input_mode,
            final(self).override_autocomplete_type == old(self).override_autocomplete_type,
    {
        self.input = String::new();
        self.character_index = 0;
        self.autocomplete_state = AutocompleteState::new();
    }

    /// What submitting the current text hands to the application: the command
    /// a message starting with `/name` names, or else the trimmed text.
    pub fn extract_submit_data(&self) -> (r: SubmitData)
        ensures
            submit_data_matches(self.input@, r),
    {
        let content = trim(self.input.as_str());
        let chars = chars_of(content);
        if chars.len() == 0 || chars[0] != '/' {
            return SubmitData::Text(string_of(&chars));
        }
        let slash: Vec<char> = vec!['/'];
        assert(slash@ =~= seq!['/']);
        let rest = subvec(&chars, 1, chars.len());
        let segment: Vec<char> = match find(&rest, &slash) {
            Some(j) => subvec(&rest, 0, j),
            None => rest,
        };
        let ghost wanted = command_name_of(trim_spec(self.input@));
        assert(wanted == Some(segment@));
        let name = string_of(&segment);
        let cmds = commands();
        let mut idx: usize = 0;
        assert(cmds@.subrange(0, cmds@.len() as int) =~= cmds@);
        while idx < cmds.len()
            invariant
                cmds@ == command_list(),
                idx <= cmds@.len(),
                command_name_of(trim_spec(self.input@)) == Some(name@),
                command_named(command_list(), name@) == command_named(
                    cmds@.subrange(idx as int, cmds@.len() as int),
                    name@,
                ),
            decreases cmds@.len() - idx,
        {
            let cmd = cmds[idx];
            assert(cmds@.subrange(idx as int, cmds@.len() as int).drop_first() =~= cmds@.subrange(
                idx + 1,
                cmds@.len() as int,
            ));
            if str_eq(cmd.metadata().name, name.as_str()) {
                return SubmitData::Command(cmd);
            }
            idx = idx + 1;
        }
        SubmitData::Text(string_of(&chars))
    }
}

} // verus!
