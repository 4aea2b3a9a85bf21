//! The line under the input: help text, or the autocomplete popup for a
//! `/command` or an `@path`.

use crate::services::file_explorer::{path_ref, path_ref_of, PathRef};
use crate::shared::autocomplete_state::{opt_string_view, strings_view};
use crate::shared::command::{command_list, commands, Command};
use crate::shared::debug_logger::{poisoned_mark, DebugLogger};
use crate::shared::text::{
    chars_of, contains_spec, extend_chars, find, has_prefix, occurs_at, string_of, subvec,
};
use crate::shared::text_input_state::{InputMode, TextInputState};
use crate::widgets::message_list::{max_byte_len, pad_right, repeat_char, str_len};
use vstd::prelude::*;

verus! {

/// What the line under the input shows.
pub enum LabelContent {
    /// The commands matching the recorded `/` token.
    Commands(String),
    /// The files matching the recorded `@` token.
    Filepaths(String),
    /// The key help.
    HelpText,
}

/// The names of the commands, in order.
pub open spec fn command_names(cmds: Seq<Command>) -> Seq<Seq<char>> {
    cmds.map_values(|c: Command| c.meta().name@)
}

/// How a command is offered: its name padded to `width`, a dash, its
/// description.
pub open spec fn command_option(c: Command, width: nat) -> Seq<char> {
    pad_right(c.meta().name@, width) + seq![' ', '-', ' '] + c.meta().description@
}

/// The options offered for the commands of `cmds` whose names start with
/// `path`.
pub open spec fn command_options(cmds: Seq<Command>, path: Seq<char>, width: nat) -> Seq<Seq<char>>
    decreases cmds.len(),
{
    if cmds.len() == 0 {
        Seq::empty()
    } else {
        let rest = command_options(cmds.drop_last(), path, width);
        if has_prefix(cmds.last().meta().name@, path) {
            rest.push(command_option(cmds.last(), width))
        } else {
            rest
        }
    }
}

/// The entries among `entries` that contain `path`, in order.
pub open spec fn matching_entries(entries: Seq<Seq<char>>, path: Seq<char>) -> Seq<Seq<char>>
    decreases entries.len(),
{
    if entries.len() == 0 {
        Seq::empty()
    } else {
        let rest = matching_entries(entries.drop_last(), path);
        if contains_spec(entries.last(), path) {
            rest.push(entries.last())
        } else {
            rest
        }
    }
}

/// The first row of the popup window that keeps option `current` in view.
pub open spec fn window_start(total: nat, current: nat, viewport: nat) -> nat {
    let max_start = if total > viewport {
        (total - viewport) as nat
    } else {
        0
    };
    let back = if current > viewport - 1 {
        (current - (viewport - 1)) as nat
    } else {
        0
    };
    if back < max_start {
        back
    } else {
        max_start
    }
}

pub struct InputLabelWidget<'a> {
    pub input_mode: &'a InputMode,
}

impl<'a> InputLabelWidget<'a> {
    pub fn new(input_mode: &'a InputMode) -> (r: InputLabelWidget<'a>)
        ensures
            r.input_mode == input_mode,
    {
        InputLabelWidget { input_mode }
    }

    /// What the line shows for `state`: the command list for a `/` token in
    /// a message that starts with `/`, the file list for an `@` token, else
    /// the key help.
    pub fn content(&self, state: &TextInputState) -> (r: LabelContent)
        ensures
            ({
                let token = match opt_string_view(state.autocomplete_state.reference_token) {
                    Some(t) => t,
                    None => Seq::empty(),
                };
                match r {
                    LabelContent::Commands(t) => t@ == token && token.len() > 0 && token[0]
                        == '/' && state.input@.len() > 0 && state.input@[0] == '/',
                    LabelContent::Filepaths(t) => t@ == token && token.len() > 0 && token[0]
                        == '@',
                    LabelContent::HelpText => !(token.len() > 0 && token[0] == '@') && !(
                    token.len() > 0 && token[0] == '/' && state.input@.len() > 0 && state.input@[0]
                        == '/'),
                }
            }),
    {
        let token = match &state.autocomplete_state.reference_token {
            Some(t) => chars_of(t.as_str()),
            None => Vec::new(),
        };
        if token.len() == 0 {
            return LabelContent::HelpText;
        }
        if token[0] == '/' {
            let input = chars_of(state.input.as_str());
            if input.len() > 0 && input[0] == '/' {
                LabelContent::Commands(string_of(&token))
            } else {
                LabelContent::HelpText
            }
        } else if token[0] == '@' {
            LabelContent::Filepaths(string_of(&token))
        } else {
            LabelContent::HelpText
        }
    }

    /// Logs the token to `logger` (reached through a lock that
    /// `lock_poisoned` says was poisoned or not, see `DebugLogger::safe_log`)
    /// and offers the commands whose names start with the text after the
    /// token's first character.
    pub fn set_commands_autocomplete(
        &self,
        state: &mut TextInputState,
        token: String,
        logger: &mut DebugLogger,
        lock_poisoned: bool,
    )
        requires
            token@.len() > 0,
        ensures
            final(logger).debug_messages@.len() == old(logger).debug_messages@.len() + 1,
            final(logger).debug_messages@.drop_last() == old(logger).debug_messages@,
            final(logger).debug_messages@.last()@ == if lock_poisoned {
                poisoned_mark() + token@
            } else {
                token@
            },
            strings_view(final(state).autocomplete_state.options@) == command_options(
                command_list(),
                token@.subrange(1, token@.len() as int),
                max_byte_len(command_names(command_list())) as nat,
            ),
            final(state).autocomplete_state.current_index
                == old(state).autocomplete_state.current_index,
            final(state).autocomplete_state.reference_token
                == old(state).autocomplete_state.reference_token,
            final(state).autocomplete_state.reference_token_index
                == old(state).autocomplete_state.reference_token_index,
            final(state).autocomplete_state.reference_type
                == old(state).autocomplete_state.reference_type,
            final(state).input@ == old(state).input@,
            final(state).character_index == old(state).character_index,
    {
        let token_chars = chars_of(token.as_str());
        logger.safe_log(lock_poisoned, string_of(&token_chars));
        let path = subvec(&token_chars, 1, token_chars.len());
        let cmds = commands();
        let ghost names = command_names(command_list());
        let mut max_name_length: usize = 0;
        let mut i: usize = 0;
        while i < cmds.len()
            invariant
                cmds@ == command_list(),
                names == command_names(command_list()),
                i <= cmds@.len(),
                max_name_length == max_byte_len(names.subrange(0, i as int)),
            decreases cmds@.len() - i,
        {
            let len = cmds[i].metadata().name.len();
            assert(names.subrange(0, i + 1).drop_last() =~= names.subrange(0, i as int));
            if len > max_name_length {
                max_name_length = len;
            }
            i = i + 1;
        }
        assert(names.subrange(0, names.len() as int) =~= names);
        let mut lines: Vec<String> = Vec::new();
        let mut i: usize = 0;
        while i < cmds.len()
            invariant
                cmds@ == command_list(),
                i <= cmds@.len(),
                strings_view(lines@) == command_options(
                    cmds@.subrange(0, i as int),
                    path@,
                    max_name_length as nat,
                ),
            decreases cmds@.len() - i,
        {
            let meta = cmds[i].metadata();
            let name = chars_of(meta.name);
            assert(cmds@.subrange(0, i + 1).drop_last() =~= cmds@.subrange(0, i as int));
            if Self::starts_with(&name, &path) {
                let mut line = name.clone();
                if name.len() < max_name_length {
                    let mut k: usize = name.len();
                    while k < max_name_length
                        invariant
                            name@.len() <= k <= max_name_length,
                            line@ == name@ + repeat_char(' ', (k - name@.len()) as nat),
                        decreases max_name_length - k,
                    {
                        line.push(' ');
                        assert(line@ =~= name@ + repeat_char(' ', (k + 1 - name@.len()) as nat));
                        k = k + 1;
                    }
                }
                let dash: Vec<char> = vec![' ', '-', ' '];
                extend_chars(&mut line, &dash);
                extend_chars(&mut line, &chars_of(meta.description));
                assert(line@ =~= command_option(cmds@[i as int], max_name_length as nat));
                let ghost prev = lines@;
                lines.push(string_of(&line));
                assert(strings_view(lines@) =~= strings_view(prev).push(line@));
            }
            i = i + 1;
        }
        assert(cmds@.subrange(0, cmds@.len() as int) =~= cmds@);
        state.autocomplete_state.set_options(lines);
    }

    /// Whether `s` starts with `prefix`.
    fn starts_with(s: &Vec<char>, prefix: &Vec<char>) -> (r: bool)
        ensures
            r == has_prefix(s@, prefix@),
    {
        if prefix.len() > s.len() {
            return false;
        }
        let mut i: usize = 0;
        while i < prefix.len()
            invariant
                prefix@.len() <= s@.len(),
                i <= prefix@.len(),
                forall|k: int| 0 <= k < i ==> s@[k] == prefix@[k],
            decreases prefix@.len() - i,
        {
            if s[i] != prefix[i] {
                assert(s@.subrange(0, prefix@.len() as int)[i as int] != prefix@[i as int]);
                return false;
            }
            i = i + 1;
        }
        assert(s@.subrange(0, prefix@.len() as int) =~= prefix@);
        true
    }

    /// The path an `@` token asks to list: the text after the `@`, with a
    /// leading `~` marking it as under the home directory.
    pub fn filepath_query(&self, token: &str) -> (r: PathRef)
        requires
            token@.len() > 0,
        ensures
            ({
                let path = token@.subrange(1, token@.len() as int);
                match r {
                    PathRef::Plain(p) => !path_ref_of(path).0 && p@ == path_ref_of(path).1,
                    PathRef::UnderHome(rest) => path_ref_of(path).0 && rest@ == path_ref_of(
                        path,
                    ).1,
                }
            }),
    {
        let chars = chars_of(token);
        let path = string_of(&subvec(&chars, 1, chars.len()));
        path_ref(path.as_str())
    }

    /// Offers the listed `entries` that contain the searched `path`.
    pub fn set_filepath_autocomplete(&self, state: &mut TextInputState, path: &str, entries: Vec<String>)
        ensures
            strings_view(final(state).autocomplete_state.options@) == matching_entries(
                strings_view(entries@),
                path@,
            ),
            final(state).autocomplete_state.current_index
                == old(state).autocomplete_state.current_index,
            final(state).autocomplete_state.reference_token
                == old(state).autocomplete_state.reference_token,
            final(state).autocomplete_state.reference_token_index
                == old(state).autocomplete_state.reference_token_index,
            final(state).autocomplete_state.reference_type
                == old(state).autocomplete_state.reference_type,
            final(state).input@ == old(state).input@,
            final(state).character_index == old(state).character_index,
    {
        let pattern = chars_of(path);
        let mut lines: Vec<String> = Vec::new();
        let mut i: usize = 0;
        while i < entries.len()
            invariant
                i <= entries@.len(),
                pattern@ == path@,
                strings_view(lines@) == matching_entries(
                    strings_view(entries@.subrange(0, i as int)),
                    path@,
                ),
            decreases entries@.len() - i,
        {
            let entry = chars_of(entries[i].as_str());
            assert(strings_view(entries@.subrange(0, i + 1)).drop_last() =~= strings_view(
                entries@.subrange(0, i as int),
            ));
            assert(strings_view(entries@.subrange(0, i + 1)).last() == entries@[i as int]@);
            let found = find(&entry, &pattern);
            if found.is_some() {
                let ghost prev = lines@;
                lines.push(entries[i].clone());
                assert(strings_view(lines@) =~= strings_view(prev).push(entries@[i as int]@));
            }
            i = i + 1;
        }
        assert(entries@.subrange(0, entries@.len() as int) =~= entries@);
        state.autocomplete_state.set_options(lines);
    }

    /// The popup window for a `viewport_height` rows high area: the number of
    /// options, the first and past-the-last rows shown, the highlighted index
    /// (pulled back onto the last option when past it) and the options.
    pub fn prepare_autocomplete_options(state: &mut TextInputState, viewport_height: u16) -> (r: (
        usize,
        usize,
        usize,
        usize,
        Vec<String>,
    ))
        requires
            old(state).autocomplete_state.options@.len() > 0,
        ensures
            ({
                let total = old(state).autocomplete_state.options@.len();
                let viewport = if viewport_height == 0 {
                    1nat
                } else {
                    viewport_height as nat
                };
                let current = if old(state).autocomplete_state.current_index >= total {
                    (total - 1) as nat
                } else {
                    old(state).autocomplete_state.current_index as nat
                };
                let start = window_start(total, current, viewport);
                &&& r.0 == total
                &&& r.1 == start
                &&& r.2 == if start + viewport < total {
                    start + viewport
                } else {
                    total as nat
                }
                &&& r.3 == current
                &&& r.4@ == old(state).autocomplete_state.options@
                &&& final(state).autocomplete_state.current_index == current
            }),
            final(state).autocomplete_state.options@ == old(state).autocomplete_state.options@,
            final(state).autocomplete_state.reference_token
                == old(state).autocomplete_state.reference_token,
            final(state).autocomplete_state.reference_token_index
                == old(state).autocomplete_state.reference_token_index,
            final(state).autocomplete_state.reference_type
                == old(state).autocomplete_state.reference_type,
            final(state).input@ == old(state).input@,
            final(state).character_index == old(state).character_index,
    {
        let viewport_height: usize = if viewport_height == 0 {
            1
        } else {
            viewport_height as usize
        };
        let total_options = state.autocomplete_state.options.len();
        let mut current_index = state.autocomplete_state.current_index;
        if current_index >= total_options {
            current_index = total_options - 1;
            state.autocomplete_state.set_current_index(current_index);
        }
        let max_start = total_options.saturating_sub(viewport_height);
        let back = current_index.saturating_sub(viewport_height - 1);
        let start = if back < max_start {
            back
        } else {
            max_start
        };
        let end = if start < total_options && viewport_height < total_options - start {
            start + viewport_height
        } else {
            total_options
        };
        let options = state.autocomplete_state.options.clone();
        assert(options@ =~= state.autocomplete_state.options@);
        (total_options, start, end, current_index, options)
    }
}

} // verus!
