//! The text input: cursor movement, editing, token detection and
//! autocompletion, driven one key press at a time.

pub use crate::shared::chat_action::InputAction;

use crate::shared::autocomplete_state::{
    opt_string_view, reference_type_of, AutocompleteState, ReferenceType,
};
use crate::shared::key::{KeyCode, KeyEvent};
use crate::shared::text::{
    char_is_whitespace, chars_of, extend_chars, find, find_spec, is_whitespace, string_of, subvec,
};
use crate::shared::text_input_state::{submit_data_matches, InputMode, TextInputState};
use vstd::prelude::*;
use vstd::string::StrSliceExecFns;

verus! {

/// The smaller of two integers.
pub open spec fn min_int(a: int, b: int) -> int {
    if a <= b {
        a
    } else {
        b
    }
}

/// The first `n` characters of `s` (all of them when `n` is past the end).
pub open spec fn take_chars(s: Seq<char>, n: int) -> Seq<char> {
    if n >= s.len() {
        s
    } else if n <= 0 {
        Seq::empty()
    } else {
        s.subrange(0, n)
    }
}

/// `s` without its first `n` characters.
pub open spec fn skip_chars(s: Seq<char>, n: int) -> Seq<char> {
    if n >= s.len() {
        Seq::empty()
    } else if n <= 0 {
        s
    } else {
        s.subrange(n, s.len() as int)
    }
}

/// Where the whitespace-free run of characters that ends at position `c` starts.
pub open spec fn token_start(s: Seq<char>, c: int) -> int
    decreases c,
{
    if c <= 0 || c > s.len() || char_is_whitespace(s[c - 1]) {
        c
    } else {
        token_start(s, c - 1)
    }
}

/// Where the whitespace-free run of characters that starts at position `c` ends.
pub open spec fn token_end(s: Seq<char>, c: int) -> int
    decreases s.len() - c,
{
    if c < 0 || c >= s.len() || char_is_whitespace(s[c]) {
        c
    } else {
        token_end(s, c + 1)
    }
}

/// Where the run of whitespace that ends at position `c` starts.
pub open spec fn whitespace_start(s: Seq<char>, c: int) -> int
    decreases c,
{
    if c <= 0 || c > s.len() || !char_is_whitespace(s[c - 1]) {
        c
    } else {
        whitespace_start(s, c - 1)
    }
}

/// How many characters of `s` are not whitespace.
pub open spec fn non_whitespace_count(s: Seq<char>) -> nat
    decreases s.len(),
{
    if s.len() == 0 {
        0
    } else {
        non_whitespace_count(s.drop_last()) + if char_is_whitespace(s.last()) {
            0nat
        } else {
            1nat
        }
    }
}

/// How many whitespace-separated words `s` holds.
pub open spec fn word_count(s: Seq<char>) -> nat
    decreases s.len(),
{
    if s.len() == 0 {
        0
    } else {
        word_count(s.drop_last()) + if !char_is_whitespace(s.last()) && (s.len() == 1
            || char_is_whitespace(s[s.len() - 2])) {
            1nat
        } else {
            0nat
        }
    }
}

/// The text of `left` before its last word.
pub open spec fn before_last_word(left: Seq<char>) -> Seq<char> {
    left.subrange(0, token_start(left, whitespace_start(left, left.len() as int)))
}

/// The length of the words of `left`, all but the last, joined by single spaces.
pub open spec fn joined_len_without_last_word(left: Seq<char>) -> int {
    let p = before_last_word(left);
    non_whitespace_count(p) + if word_count(p) > 0 {
        word_count(p) - 1
    } else {
        0
    }
}

/// The text after Backspace with the cursor at `c`: the character before the
/// cursor goes; with Alt, everything from just after the kept words (all but
/// the last word left of the cursor, joined by single spaces, plus one) up to
/// the cursor goes.
pub open spec fn input_after_delete(s: Seq<char>, c: int, alt: bool) -> Seq<char> {
    if c == 0 {
        s
    } else {
        let from = if alt {
            joined_len_without_last_word(s.subrange(0, c)) + 1
        } else {
            c - 1
        };
        take_chars(s, from) + skip_chars(s, c)
    }
}

/// The cursor after Backspace with the cursor at `c`.
pub open spec fn cursor_after_delete(s: Seq<char>, c: int, alt: bool) -> int {
    if c == 0 {
        0
    } else {
        min_int(c - 1, input_after_delete(s, c, alt).len() as int)
    }
}

/// The marker a reference of type `t` starts with.
pub open spec fn reference_prefix(t: ReferenceType) -> Seq<char> {
    match t {
        ReferenceType::Command => seq!['/'],
        ReferenceType::Filepath => seq!['@'],
        ReferenceType::NoReference => Seq::empty(),
    }
}

/// The length of the recorded reference token (zero when there is none).
pub open spec fn reference_token_len(ac: AutocompleteState) -> int {
    match opt_string_view(ac.reference_token) {
        Some(t) => t.len() as int,
        None => 0,
    }
}

/// The text of `s` before its first space (all of it when it has none).
pub open spec fn first_word(s: Seq<char>) -> Seq<char> {
    match find_spec(s, seq![' ']) {
        Some(i) => s.subrange(0, i),
        None => s,
    }
}

/// What Tab puts after the marker: for a command, the name the highlighted
/// option starts with (the option goes on with the command's description);
/// for a path, the whole highlighted option.
pub open spec fn accepted_option(ac: AutocompleteState) -> Seq<char> {
    if ac.reference_type == ReferenceType::Command {
        first_word(ac.selected_option())
    } else {
        ac.selected_option()
    }
}

/// The text after Tab: the recorded token is replaced by its marker followed by
/// the accepted option.
pub open spec fn input_after_autocomplete(s: Seq<char>, ac: AutocompleteState) -> Seq<char> {
    let start = ac.reference_token_index as int;
    let removed = take_chars(s, start) + skip_chars(s, reference_token_len(ac) + start);
    removed.subrange(0, start) + reference_prefix(ac.reference_type) + accepted_option(ac)
        + removed.subrange(start, removed.len() as int)
}

/// The text after `key`, before the token under the cursor is read again.
pub open spec fn input_after_key(st: TextInputState, key: KeyEvent) -> Seq<char> {
    let s = st.input@;
    let c = st.character_index as int;
    match key.code {
        KeyCode::Char(ch) => {
            let p = min_int(c, s.len() as int);
            s.subrange(0, p).push(ch) + s.subrange(p, s.len() as int)
        },
        KeyCode::Backspace => input_after_delete(s, c, key.alt),
        KeyCode::Tab => input_after_autocomplete(s, st.autocomplete_state),
        KeyCode::Enter => Seq::empty(),
        _ => s,
    }
}

/// The cursor after `key`.
pub open spec fn cursor_after_key(st: TextInputState, key: KeyEvent) -> int {
    let s = st.input@;
    let c = st.character_index as int;
    match key.code {
        KeyCode::Char(_) => min_int(c + 1, s.len() + 1int),
        KeyCode::Backspace => cursor_after_delete(s, c, key.alt),
        KeyCode::Left => if c == 0 {
            0
        } else {
            min_int(c - 1, s.len() as int)
        },
        KeyCode::Right => min_int(c + 1, s.len() as int),
        KeyCode::Tab => input_after_autocomplete(s, st.autocomplete_state).len() as int,
        KeyCode::Enter => 0,
        _ => c,
    }
}

/// The highlighted option's index after `key`.
pub open spec fn option_index_after_key(st: TextInputState, key: KeyEvent) -> int {
    let i = st.autocomplete_state.current_index as int;
    match key.code {
        KeyCode::Char(_) => 0,
        KeyCode::Down => i + 1,
        KeyCode::Up => i - 1,
        KeyCode::Tab => 0,
        _ => i,
    }
}

/// The options after `key`, before the token under the cursor is read again.
pub open spec fn options_after_key(st: TextInputState, key: KeyEvent) -> Seq<String> {
    match key.code {
        KeyCode::Tab => Seq::empty(),
        _ => st.autocomplete_state.options@,
    }
}

/// The popup `after` records the token under `cursor` in `input`: a `/` or `@`
/// token is recorded with its start and type and the options `options_before`
/// stay; any other token clears the reference and the options. With the
/// cursor past the end nothing is read and `before`'s reference stays.
pub open spec fn token_detected(
    input: Seq<char>,
    cursor: int,
    options_before: Seq<String>,
    before: AutocompleteState,
    after: AutocompleteState,
) -> bool {
    if cursor > input.len() {
        &&& after.options@ == options_before
        &&& after.reference_token == before.reference_token
        &&& after.reference_token_index == before.reference_token_index
        &&& after.reference_type == before.reference_type
    } else {
        let start = token_start(input, cursor);
        let token = input.subrange(start, token_end(input, cursor));
        let ty = reference_type_of(token);
        if ty == ReferenceType::NoReference {
            &&& after.reference_token is None
            &&& after.reference_token_index == 0
            &&& after.reference_type == ReferenceType::NoReference
            &&& after.options@.len() == 0
        } else {
            &&& opt_string_view(after.reference_token) == Some(token)
            &&& after.reference_token_index == start
            &&& after.reference_type == ty
            &&& after.options@ == options_before
        }
    }
}

/// `after` is what handling `key` makes of the input `before` (see
/// `TextInput::handle_key_event`).
pub open spec fn text_key_applied(before: TextInputState, key: KeyEvent, after: TextInputState) -> bool {
    &&& after.prefix@ == before.prefix@
    &&& after.input_mode == before.input_mode
    &&& after.override_autocomplete_type == before.override_autocomplete_type
    &&& after.input@ == input_after_key(before, key)
    &&& after.character_index == cursor_after_key(before, key)
    &&& key.code == KeyCode::Enter ==> after.autocomplete_state.same_as(&before.autocomplete_state)
    &&& key.code != KeyCode::Enter ==> {
        &&& after.autocomplete_state.current_index == option_index_after_key(before, key)
        &&& token_detected(
            after.input@,
            after.character_index as int,
            options_after_key(before, key),
            before.autocomplete_state,
            after.autocomplete_state,
        )
    }
}

/// What `detect_token` returns for `input` with the cursor at `cursor`.
pub open spec fn detected_token(input: Seq<char>, cursor: int) -> Option<Seq<char>> {
    if cursor > input.len() {
        None
    } else {
        let token = input.subrange(token_start(input, cursor), token_end(input, cursor));
        if reference_type_of(token) == ReferenceType::NoReference {
            None
        } else {
            Some(token)
        }
    }
}

/// The inputs on which handling `key` is defined: Up needs an option above
/// the highlighted one, Down one more index, Alt+Backspace a cursor within the
/// text, and Tab a recorded token that starts within the text.
pub open spec fn key_supported(st: TextInputState, key: KeyEvent) -> bool {
    match key.code {
        KeyCode::Up => st.autocomplete_state.current_index > 0,
        KeyCode::Down => st.autocomplete_state.current_index < usize::MAX,
        KeyCode::Backspace => key.alt && st.character_index != 0 ==> st.character_index
            <= st.input@.len(),
        KeyCode::Tab => {
            &&& st.autocomplete_state.reference_token_index <= st.input@.len()
            &&& st.autocomplete_state.reference_token_index + reference_token_len(
                st.autocomplete_state,
            ) <= usize::MAX
        },
        _ => true,
    }
}

/// The counts of words and of non-whitespace characters bound each other.
pub proof fn lemma_word_counts(s: Seq<char>)
    ensures
        non_whitespace_count(s) + word_count(s) <= s.len() + 1,
        s.len() > 0 && char_is_whitespace(s.last()) ==> non_whitespace_count(s) + word_count(s)
            <= s.len(),
        word_count(s) == 0 ==> non_whitespace_count(s) == 0,
        non_whitespace_count(s) <= s.len(),
    decreases s.len(),
{
    if s.len() > 0 {
        let p = s.drop_last();
        lemma_word_counts(p);
        if s.len() >= 2 {
            assert(p.last() == s[s.len() - 2]);
        }
    }
}

/// `token_start` stays within `[0, c]` and stops after whitespace or at the start.
proof fn lemma_token_start(s: Seq<char>, c: int)
    requires
        0 <= c <= s.len(),
    ensures
        0 <= token_start(s, c) <= c,
        forall|k: int| token_start(s, c) <= k < c ==> !char_is_whitespace(s[k]),
    decreases c,
{
    if c > 0 && !char_is_whitespace(s[c - 1]) {
        lemma_token_start(s, c - 1);
    }
}

/// `token_end` stays within `[c, s.len()]`.
proof fn lemma_token_end(s: Seq<char>, c: int)
    requires
        0 <= c <= s.len(),
    ensures
        c <= token_end(s, c) <= s.len(),
    decreases s.len() - c,
{
    if c < s.len() && !char_is_whitespace(s[c]) {
        lemma_token_end(s, c + 1);
    }
}

/// `whitespace_start` stays within `[0, c]`.
proof fn lemma_whitespace_start(s: Seq<char>, c: int)
    requires
        0 <= c <= s.len(),
    ensures
        0 <= whitespace_start(s, c) <= c,
        whitespace_start(s, c) > 0 ==> !char_is_whitespace(s[whitespace_start(s, c) - 1]),
    decreases c,
{
    if c > 0 && char_is_whitespace(s[c - 1]) {
        lemma_whitespace_start(s, c - 1);
    }
}

pub struct TextInput<'a> {
    pub input_mode: &'a InputMode,
}

impl<'a> TextInput<'a> {
    pub fn new(input_mode: &'a InputMode) -> (r: TextInput<'a>)
        ensures
            r.input_mode == input_mode,
    {
        TextInput { input_mode }
    }

    /// Applies one key press to the input.
    pub fn handle_key_event(key_event: KeyEvent, state: &mut TextInputState) -> (r: InputAction)
        requires
            key_supported(*old(state), key_event),
        ensures
            text_key_applied(*old(state), key_event, *final(state)),
            key_event.code == KeyCode::Enter ==> (r matches InputAction::Submit(data)
                && submit_data_matches(old(state).input@, data)),
            key_event.code != KeyCode::Enter ==> r == if key_event.code == KeyCode::Esc {
                InputAction::ExitEditingMode
            } else {
                InputAction::NoAction
            },
    {
        let mut input_action = InputAction::NoAction;
        let ghost before = *old(state);

        match key_event.code {
            KeyCode::Enter => {
                let data = state.extract_submit_data();
                state.input = String::new();
                TextInput::reset_cursor(state);
                return InputAction::Submit(data);
            },
            KeyCode::Char(to_insert) => {
                TextInput::enter_char(state, to_insert);
                state.autocomplete_state.current_index = 0;
            },
            KeyCode::Backspace => {
                TextInput::delete_char(state, key_event.alt);
            },
            KeyCode::Left => {
                TextInput::move_cursor_left(state);
            },
            KeyCode::Right => {
                TextInput::move_cursor_right(state);
            },
            KeyCode::Esc => {
                input_action = InputAction::ExitEditingMode;
            },
            KeyCode::Down => state.autocomplete_state.increment_current_index(),
            KeyCode::Up => state.autocomplete_state.decrement_current_index(),
            KeyCode::Tab => {
                TextInput::autocomplete(state);
            },
            _ => {},
        }
        let ghost mid = *state;
        assert(mid.autocomplete_state.options@ == options_after_key(before, key_event));
        assert(mid.autocomplete_state.reference_token == before.autocomplete_state.reference_token);
        TextInput::detect_token(state);
        input_action
    }

    /// Moves the cursor one character left, staying within the text.
    fn move_cursor_left(state: &mut TextInputState)
        ensures
            final(state).character_index == min_int(
                if old(state).character_index == 0 {
                    0
                } else {
                    old(state).character_index - 1
                },
                old(state).input@.len() as int,
            ),
            final(state).input@ == old(state).input@,
            final(state).prefix@ == old(state).prefix@,
            final(state).autocomplete_state.same_as(&old(state).autocomplete_state),
            final(state).input_mode == old(state).input_mode,
            final(state).override_autocomplete_type == old(state).override_autocomplete_type,
    {
        let cursor_moved_left = state.character_index.saturating_sub(1);
        state.character_index = TextInput::clamp_cursor(state, cursor_moved_left);
    }

    /// Moves the cursor one character right, staying within the text.
    fn move_cursor_right(state: &mut TextInputState)
        ensures
            final(state).character_index == min_int(
                old(state).character_index + 1,
                old(state).input@.len() as int,
            ),
            final(state).input@ == old(state).input@,
            final(state).prefix@ == old(state).prefix@,
            final(state).autocomplete_state.same_as(&old(state).autocomplete_state),
            final(state).input_mode == old(state).input_mode,
            final(state).override_autocomplete_type == old(state).override_autocomplete_type,
    {
        let cursor_moved_right = state.character_index.saturating_add(1);
        state.character_index = TextInput::clamp_cursor(state, cursor_moved_right);
    }

    /// Inserts `new_char` at the cursor (at the end when the cursor is past it)
    /// and moves the cursor after it.
    fn enter_char(state: &mut TextInputState, new_char: char)
        ensures
            final(state).input@ == ({
                let s = old(state).input@;
                let p = min_int(old(state).character_index as int, s.len() as int);
                s.subrange(0, p).push(new_char) + s.subrange(p, s.len() as int)
            }),
            final(state).character_index == min_int(
                old(state).character_index + 1,
                old(state).input@.len() + 1int,
            ),
            final(state).prefix@ == old(state).prefix@,
            final(state).autocomplete_state.same_as(&old(state).autocomplete_state),
            final(state).input_mode == old(state).input_mode,
            final(state).override_autocomplete_type == old(state).override_autocomplete_type,
    {
        let mut chars = chars_of(state.input.as_str());
        let index = if state.character_index < chars.len() {
            state.character_index
        } else {
            chars.len()
        };
        let ghost s = chars@;
        chars.insert(index, new_char);
        assert(chars@ =~= s.subrange(0, index as int).push(new_char) + s.subrange(
            index as int,
            s.len() as int,
        ));
        state.input = string_of(&chars);
        TextInput::move_cursor_right(state);
    }

    /// Replaces the recorded token with its marker and the accepted option (a
    /// command's name, or a path), clears the options and puts the cursor at
    /// the end.
    fn autocomplete(state: &mut TextInputState)
        requires
            old(state).autocomplete_state.reference_token_index <= old(state).input@.len(),
            old(state).autocomplete_state.reference_token_index + reference_token_len(
                old(state).autocomplete_state,
            ) <= usize::MAX,
        ensures
            final(state).input@ == input_after_autocomplete(
                old(state).input@,
                old(state).autocomplete_state,
            ),
            final(state).character_index == final(state).input@.len(),
            final(state).autocomplete_state.current_index == 0,
            final(state).autocomplete_state.options@.len() == 0,
            final(state).autocomplete_state.reference_token
                == old(state).autocomplete_state.reference_token,
            final(state).autocomplete_state.reference_token_index
                == old(state).autocomplete_state.reference_token_index,
            final(state).autocomplete_state.reference_type
                == old(state).autocomplete_state.reference_type,
            final(state).prefix@ == old(state).prefix@,
            final(state).input_mode == old(state).input_mode,
            final(state).override_autocomplete_type == old(state).override_autocomplete_type,
    {
        let ghost ac = old(state).autocomplete_state;
        let ghost s = old(state).input@;
        let token_start_index = state.autocomplete_state.reference_token_index;
        let token_length = match &state.autocomplete_state.reference_token {
            Some(token) => token.as_str().unicode_len(),
            None => 0,
        };
        let mut to_insert: Vec<char> = match state.autocomplete_state.reference_type {
            ReferenceType::Command => vec!['/'],
            ReferenceType::Filepath => vec!['@'],
            ReferenceType::NoReference => Vec::new(),
        };
        assert(to_insert@ =~= reference_prefix(ac.reference_type));
        let selected = state.autocomplete_state.get_selected_option();
        let selected_chars = chars_of(selected.as_str());
        let accepted = match state.autocomplete_state.reference_type {
            ReferenceType::Command => {
                let space: Vec<char> = vec![' '];
                assert(space@ =~= seq![' ']);
                match find(&selected_chars, &space) {
                    Some(i) => subvec(&selected_chars, 0, i),
                    None => selected_chars,
                }
            },
            _ => selected_chars,
        };
        assert(accepted@ =~= accepted_option(ac));
        extend_chars(&mut to_insert, &accepted);

        let chars = chars_of(state.input.as_str());
        let n = chars.len();
        let mut removed = subvec(&chars, 0, token_start_index);
        assert(removed@ =~= take_chars(s, token_start_index as int));
        let skip_from = token_length + token_start_index;
        if skip_from < n {
            let after = subvec(&chars, skip_from, n);
            assert(after@ =~= skip_chars(s, skip_from as int));
            extend_chars(&mut removed, &after);
        } else {
            assert(skip_chars(s, skip_from as int) =~= Seq::<char>::empty());
            assert(removed@ =~= removed@ + Seq::<char>::empty());
        }
        state.input = string_of(&removed);
        TextInput::move_cursor_left(state);

        let mut inserted = subvec(&removed, 0, token_start_index);
        extend_chars(&mut inserted, &to_insert);
        let tail = subvec(&removed, token_start_index, removed.len());
        extend_chars(&mut inserted, &tail);
        state.input = string_of(&inserted);

        state.autocomplete_state.set_current_index(0);
        state.autocomplete_state.set_options(Vec::new());
        state.character_index = inserted.len();
    }

    /// Deletes before the cursor (see `input_after_delete`) and moves the
    /// cursor one character left.
    fn delete_char(state: &mut TextInputState, remove_whole_word: bool)
        requires
            remove_whole_word && old(state).character_index != 0 ==> old(
                state,
            ).character_index <= old(state).input@.len(),
        ensures
            final(state).input@ == input_after_delete(
                old(state).input@,
                old(state).character_index as int,
                remove_whole_word,
            ),
            final(state).character_index == cursor_after_delete(
                old(state).input@,
                old(state).character_index as int,
                remove_whole_word,
            ),
            final(state).prefix@ == old(state).prefix@,
            final(state).autocomplete_state.same_as(&old(state).autocomplete_state),
            final(state).input_mode == old(state).input_mode,
            final(state).override_autocomplete_type == old(state).override_autocomplete_type,
    {
        let is_not_cursor_leftmost = state.character_index != 0;
        if is_not_cursor_leftmost {
            let ghost s = old(state).input@;
            let current_index = state.character_index;
            let chars = chars_of(state.input.as_str());
            let n = chars.len();
            let mut from_left_to_current_index = current_index - 1;
            if remove_whole_word {
                from_left_to_current_index = TextInput::kept_before_last_word(&chars, current_index)
                    + 1;
            }
            let keep = if from_left_to_current_index < n {
                from_left_to_current_index
            } else {
                n
            };
            let mut result = subvec(&chars, 0, keep);
            assert(result@ =~= take_chars(s, from_left_to_current_index as int));
            if current_index < n {
                let after = subvec(&chars, current_index, n);
                assert(after@ =~= skip_chars(s, current_index as int));
                extend_chars(&mut result, &after);
            } else {
                assert(result@ =~= result@ + skip_chars(s, current_index as int));
            }
            state.input = string_of(&result);
            TextInput::move_cursor_left(state);
        }
    }

    /// The length of the words left of position `c`, all but the last, joined
    /// by single spaces.
    #[verifier::loop_isolation(false)]
    fn kept_before_last_word(chars: &Vec<char>, c: usize) -> (r: usize)
        requires
            0 < c <= chars@.len(),
        ensures
            r == joined_len_without_last_word(chars@.subrange(0, c as int)),
            r < c,
    {
        let ghost left = chars@.subrange(0, c as int);
        let mut e = c;
        while e > 0
            invariant
                e <= c,
                c <= chars@.len(),
                left == chars@.subrange(0, c as int),
                whitespace_start(left, c as int) == whitespace_start(left, e as int),
            decreases e,
        {
            if !is_whitespace(chars[e - 1]) {
                break;
            }
            e = e - 1;
        }
        let mut st = e;
        while st > 0
            invariant
                st <= e,
                e <= c,
                c <= chars@.len(),
                left == chars@.subrange(0, c as int),
                token_start(left, e as int) == token_start(left, st as int),
            decreases st,
        {
            if is_whitespace(chars[st - 1]) {
                break;
            }
            st = st - 1;
        }
        assert(e == whitespace_start(left, c as int));
        assert(st == token_start(left, e as int));
        let ghost p = left.subrange(0, st as int);
        proof {
            lemma_whitespace_start(left, c as int);
            lemma_token_start(left, e as int);
        }
        let mut letters: usize = 0;
        let mut words: usize = 0;
        let mut i: usize = 0;
        while i < st
            invariant
                i <= st,
                st <= c,
                c <= chars@.len(),
                left == chars@.subrange(0, c as int),
                p == left.subrange(0, st as int),
                letters == non_whitespace_count(p.subrange(0, i as int)),
                words == word_count(p.subrange(0, i as int)),
                letters + words <= i + 1,
            decreases st - i,
        {
            let ghost q = p.subrange(0, i + 1);
            assert(q.drop_last() =~= p.subrange(0, i as int));
            proof {
                lemma_word_counts(q);
            }
            let ws = is_whitespace(chars[i]);
            if !ws {
                letters = letters + 1;
                if i == 0 || is_whitespace(chars[i - 1]) {
                    words = words + 1;
                }
            }
            i = i + 1;
        }
        assert(p.subrange(0, st as int) =~= p);
        proof {
            lemma_word_counts(p);
            if st > 0 {
                assert(char_is_whitespace(p.last()));
            }
        }
        if words > 0 {
            letters + words - 1
        } else {
            letters
        }
    }

    /// `new_cursor_pos`, kept within the text.
    fn clamp_cursor(state: &TextInputState, new_cursor_pos: usize) -> (r: usize)
        ensures
            r == min_int(new_cursor_pos as int, state.input@.len() as int),
            state.input@.len() <= usize::MAX,
    {
        let count = state.input.as_str().unicode_len();
        if new_cursor_pos > count {
            count
        } else {
            new_cursor_pos
        }
    }

    /// Puts the cursor at the start.
    fn reset_cursor(state: &mut TextInputState)
        ensures
            final(state).character_index == 0,
            final(state).input@ == old(state).input@,
            final(state).prefix@ == old(state).prefix@,
            final(state).autocomplete_state.same_as(&old(state).autocomplete_state),
            final(state).input_mode == old(state).input_mode,
            final(state).override_autocomplete_type == old(state).override_autocomplete_type,
    {
        state.character_index = 0;
    }

    /// Reads the token under the cursor and records it in the popup state when
    /// it is a `/` or `@` reference (see `token_detected`); returns that token.
    #[verifier::loop_isolation(false)]
    pub fn detect_token(state: &mut TextInputState) -> (r: Option<String>)
        ensures
            final(state).input@ == old(state).input@,
            final(state).character_index == old(state).character_index,
            final(state).prefix@ == old(state).prefix@,
            final(state).input_mode == old(state).input_mode,
            final(state).override_autocomplete_type == old(state).override_autocomplete_type,
            final(state).autocomplete_state.current_index
                == old(state).autocomplete_state.current_index,
            token_detected(
                old(state).input@,
                old(state).character_index as int,
                old(state).autocomplete_state.options@,
                old(state).autocomplete_state,
                final(state).autocomplete_state,
            ),
            opt_string_view(r) == detected_token(
                old(state).input@,
                old(state).character_index as int,
            ),
    {
        let chars = chars_of(state.input.as_str());
        let ghost s = chars@;
        let c = state.character_index;
        if c > chars.len() {
            return None;
        }
        let mut start = c;
        while start > 0
            invariant
                start <= c,
                c <= s.len(),
                s == chars@,
                token_start(s, c as int) == token_start(s, start as int),
            decreases start,
        {
            if is_whitespace(chars[start - 1]) {
                break;
            }
            start = start - 1;
        }
        let mut end = c;
        while end < chars.len()
            invariant
                c <= end <= s.len(),
                s == chars@,
                token_end(s, c as int) == token_end(s, end as int),
            decreases s.len() - end,
        {
            if is_whitespace(chars[end]) {
                break;
            }
            end = end + 1;
        }
        let token = string_of(&subvec(&chars, start, end));
        let ref_type = AutocompleteState::get_reference_type_from_token(token.as_str());
        match ref_type {
            ReferenceType::NoReference => {
                state.autocomplete_state.set_reference_token(None, 0, ReferenceType::NoReference);
                state.autocomplete_state.set_options(Vec::new());
                None
            },
            _ => {
                state.autocomplete_state.set_reference_token(Some(token.clone()), start, ref_type);
                Some(token)
            },
        }
    }
}

} // verus!
