//! Properties that relate several operations of the library.

use crate::services::assistant_configs::config_file_stem;
use crate::services::chat::{cleaned_reply, model_turns, think_open, without_think_blocks, OutgoingRole};
use crate::shared::command::{command_list, Command};
use crate::shared::key::{KeyCode, KeyEvent};
use crate::shared::text::{
    char_is_whitespace, find_spec, lemma_find_from, occurs_at, trim_end_spec, trim_spec,
    trim_start_spec,
};
use crate::shared::text_input_state::{command_name_of, command_named, submitted_command, TextInputState};
use crate::shared::autocomplete_state::{opt_string_view, AutocompleteState, ReferenceType};
use crate::widgets::input::{
    cursor_after_key, detected_token, first_word, input_after_key, text_key_applied, token_detected,
    token_end, token_start,
};
use crate::widgets::input_label::{command_option, matching_entries};
use crate::shared::text::contains_spec;
use crate::widgets::create_assistant_form::{history_view, CreateAssistantFormStep, CreateAssistantFormWidgetState};
use crate::widgets::create_assistant_journey::{model_step_done, text_step_done};
use crate::widgets::generic_journey::JourneyOutcome;
use crate::shared::assistant_config::AssistantConfig;
use crate::widgets::message_list::{ChatMessage, ChatRole, MessageListState};
use crate::widgets::remove_assistant_journey::{marks_after_key, RemoveAssistantJourneyState};
use crate::widgets::select::{next_selection, previous_selection};
use vstd::prelude::*;

verus! {

/// Whatever key is pressed, a cursor within the text stays within the text.
pub proof fn law_cursor_stays_in_text(before: TextInputState, key: KeyEvent, after: TextInputState)
    requires
        before.cursor_in_text(),
        text_key_applied(before, key, after),
    ensures
        after.cursor_in_text(),
{
}

/// Left then Right brings a cursor that is neither at the start nor past the
/// end back where it was; Right then Left does the same for a cursor before
/// the end.
pub proof fn law_left_right_inverse(s: TextInputState)
    requires
        s.input@.len() <= usize::MAX,
    ensures
        0 < s.character_index <= s.input@.len() ==> cursor_after_key(
            TextInputState {
                character_index: cursor_after_key(s, KeyEvent { code: KeyCode::Left, alt: false, press: true }) as usize,
                ..s
            },
            KeyEvent { code: KeyCode::Right, alt: false, press: true },
        ) == s.character_index,
        s.character_index < s.input@.len() ==> cursor_after_key(
            TextInputState {
                character_index: cursor_after_key(s, KeyEvent { code: KeyCode::Right, alt: false, press: true }) as usize,
                ..s
            },
            KeyEvent { code: KeyCode::Left, alt: false, press: true },
        ) == s.character_index,
{
}

/// Backspace without Alt, with the cursor after the first character and
/// within the text, removes exactly the character before the cursor and
/// moves the cursor onto its place.
pub proof fn law_backspace_removes_the_character_before_the_cursor(
    before: TextInputState,
    after: TextInputState,
)
    requires
        0 < before.character_index <= before.input@.len(),
        text_key_applied(
            before,
            KeyEvent { code: KeyCode::Backspace, alt: false, press: true },
            after,
        ),
    ensures
        ({
            let s = before.input@;
            let c = before.character_index as int;
            &&& after.input@ == s.subrange(0, c - 1) + s.subrange(c, s.len() as int)
            &&& after.input@.len() == s.len() - 1
            &&& after.character_index == c - 1
        }),
{
    let s = before.input@;
    let c = before.character_index as int;
    assert(s.subrange(0, c - 1) + s.subrange(c, s.len() as int) =~= after.input@);
}

/// `[a, b)` is the run of non-whitespace characters of `s` around position
/// `cursor`: it holds the cursor (at its end at most), holds no whitespace,
/// and is bounded by whitespace or by the ends of the text.
pub open spec fn maximal_run(s: Seq<char>, cursor: int, a: int, b: int) -> bool {
    &&& 0 <= a <= cursor <= b <= s.len()
    &&& forall|k: int| a <= k < b ==> !char_is_whitespace(#[trigger] s[k])
    &&& a == 0 || char_is_whitespace(s[a - 1])
    &&& b == s.len() || char_is_whitespace(s[b])
}

proof fn lemma_token_bounds(s: Seq<char>, c: int)
    requires
        0 <= c <= s.len(),
    ensures
        maximal_run(s, c, token_start(s, c), token_end(s, c)),
{
    lemma_run_start(s, c);
    lemma_run_end(s, c);
    let a = token_start(s, c);
    let b = token_end(s, c);
    assert forall|k: int| a <= k < b implies !char_is_whitespace(#[trigger] s[k]) by {
        if k < c {
        } else {
        }
    }
}

proof fn lemma_run_start(s: Seq<char>, c: int)
    requires
        0 <= c <= s.len(),
    ensures
        0 <= token_start(s, c) <= c,
        forall|k: int| token_start(s, c) <= k < c ==> !char_is_whitespace(#[trigger] s[k]),
        token_start(s, c) == 0 || char_is_whitespace(s[token_start(s, c) - 1]),
    decreases c,
{
    if c > 0 && !char_is_whitespace(s[c - 1]) {
        lemma_run_start(s, c - 1);
    }
}

proof fn lemma_run_end(s: Seq<char>, c: int)
    requires
        0 <= c <= s.len(),
    ensures
        c <= token_end(s, c) <= s.len(),
        forall|k: int| c <= k < token_end(s, c) ==> !char_is_whitespace(#[trigger] s[k]),
        token_end(s, c) == s.len() || char_is_whitespace(s[token_end(s, c)]),
    decreases s.len() - c,
{
    if c < s.len() && !char_is_whitespace(s[c]) {
        lemma_run_end(s, c + 1);
    }
}

/// There is one run of non-whitespace characters around a position.
proof fn lemma_run_unique(s: Seq<char>, c: int, a: int, b: int, a2: int, b2: int)
    requires
        maximal_run(s, c, a, b),
        maximal_run(s, c, a2, b2),
    ensures
        a == a2,
        b == b2,
{
    if a < a2 {
        assert(!char_is_whitespace(s[a2 - 1]));
    }
    if a2 < a {
        assert(!char_is_whitespace(s[a - 1]));
    }
    if b < b2 {
        assert(!char_is_whitespace(s[b]));
    }
    if b2 < b {
        assert(!char_is_whitespace(s[b2]));
    }
}

/// The token read under the cursor (see `TextInput::detect_token`) is the
/// whole run of non-whitespace characters around the cursor, recorded with
/// its start when it begins with `/` (a command) or `@` (a path); when the
/// run begins with neither, nothing is recorded. `detect_token` returns the
/// recorded token.
pub proof fn law_detected_token_is_the_word_under_the_cursor(
    input: Seq<char>,
    cursor: int,
    options: Seq<String>,
    before: AutocompleteState,
    after: AutocompleteState,
)
    requires
        0 <= cursor <= input.len(),
        token_detected(input, cursor, options, before, after),
    ensures
        detected_token(input, cursor) == opt_string_view(after.reference_token),
        after.reference_type != ReferenceType::NoReference ==> {
            let a = after.reference_token_index as int;
            &&& opt_string_view(after.reference_token) matches Some(t) && maximal_run(
                input,
                cursor,
                a,
                a + t.len(),
            ) && t == input.subrange(a, a + t.len()) && t.len() > 0 && (t[0] == '/'
                <==> after.reference_type == ReferenceType::Command) && (t[0] == '@'
                <==> after.reference_type == ReferenceType::Filepath)
        },
        after.reference_type == ReferenceType::NoReference ==> {
            &&& after.reference_token is None
            &&& forall|a: int, b: int|
                #[trigger] maximal_run(input, cursor, a, b) && a < b ==> input[a] != '/'
                    && input[a] != '@'
        },
{
    lemma_token_bounds(input, cursor);
    let a0 = token_start(input, cursor);
    let b0 = token_end(input, cursor);
    let token = input.subrange(a0, b0);
    assert forall|a: int, b: int| #[trigger] maximal_run(input, cursor, a, b) implies a == a0 && b
        == b0 by {
        lemma_run_unique(input, cursor, a, b, a0, b0);
    }
    if after.reference_type != ReferenceType::NoReference {
        assert(token.len() > 0);
    } else {
        assert forall|a: int, b: int| #[trigger]
            maximal_run(input, cursor, a, b) && a < b implies input[a] != '/' && input[a] != '@' by {
            assert(token[0] == input[a]);
        }
    }
}

/// Tab keeps every character before the recorded token and every character
/// after it, and leaves the cursor at the end; with no token, no option and
/// no reference, it leaves the text as it is.
pub proof fn law_tab_keeps_the_text_around_the_token(st: TextInputState)
    requires
        ({
            let len = match opt_string_view(st.autocomplete_state.reference_token) {
                Some(t) => t.len() as int,
                None => 0,
            };
            st.autocomplete_state.reference_token_index + len <= st.input@.len()
        }),
    ensures
        ({
            let s = st.input@;
            let a = st.autocomplete_state.reference_token_index as int;
            let len = match opt_string_view(st.autocomplete_state.reference_token) {
                Some(t) => t.len() as int,
                None => 0,
            };
            let key = KeyEvent { code: KeyCode::Tab, alt: false, press: true };
            let t = input_after_key(st, key);
            let kept = s.len() - (a + len);
            &&& t.len() >= s.len() - len
            &&& t.subrange(0, a) == s.subrange(0, a)
            &&& t.subrange(t.len() - kept, t.len() as int) == s.subrange(a + len, s.len() as int)
            &&& cursor_after_key(st, key) == t.len()
            &&& (st.autocomplete_state.reference_token is None
                && st.autocomplete_state.options@.len() == 0
                && st.autocomplete_state.reference_type == ReferenceType::NoReference) ==> t == s
        }),
{
    let s = st.input@;
    let a = st.autocomplete_state.reference_token_index as int;
    let len = match opt_string_view(st.autocomplete_state.reference_token) {
        Some(t) => t.len() as int,
        None => 0,
    };
    let key = KeyEvent { code: KeyCode::Tab, alt: false, press: true };
    let t = input_after_key(st, key);
    let kept = s.len() - (a + len);
    assert(t.subrange(0, a) =~= s.subrange(0, a));
    assert(t.subrange(t.len() - kept, t.len() as int) =~= s.subrange(a + len, s.len() as int));
    if st.autocomplete_state.reference_token is None && st.autocomplete_state.options@.len() == 0
        && st.autocomplete_state.reference_type == ReferenceType::NoReference {
        assert(t =~= s);
    }
}

/// The path suggestions are exactly the listed entries that contain the
/// typed path, in listing order, however many there are.
pub proof fn law_path_suggestions_are_the_matching_entries(entries: Seq<Seq<char>>, path: Seq<char>)
    ensures
        matching_entries(entries, path) == entries.filter(|e: Seq<char>| contains_spec(e, path)),
    decreases entries.len(),
{
    reveal(Seq::filter);
    if entries.len() > 0 {
        law_path_suggestions_are_the_matching_entries(entries.drop_last(), path);
    }
}

/// An answer accepted on the name step is recorded as the name, and in the
/// history, as the whole trimmed text that was submitted; the answer to the
/// RAG question completes the journey with that recorded name.
pub proof fn law_name_answer_is_the_trimmed_input(
    f0: CreateAssistantFormWidgetState,
    key: KeyEvent,
    f1: CreateAssistantFormWidgetState,
    r: JourneyOutcome<AssistantConfig>,
)
    requires
        f0.step != CreateAssistantFormStep::Model,
        text_step_done(f0, key, f1, r),
    ensures
        ({
            let typed = trim_spec(f0.input_state.input@);
            (f0.step == CreateAssistantFormStep::Name && key.code == KeyCode::Enter
                && submitted_command(f0.input_state.input@) is None && typed.len() > 0) ==> {
                &&& f1.name@ == typed
                &&& history_view(f1.history@) == history_view(f0.history@).push(("Name"@, typed))
                &&& f1.step == CreateAssistantFormStep::Model
            }
        }),
        r matches JourneyOutcome::Completed(config) ==> config.name@ == f0.name@,
{
    lemma_trim_idempotent(f0.input_state.input@);
}

/// Typing a character puts it at the cursor and the cursor just after it.
pub proof fn law_typed_char_at_cursor(s: TextInputState, c: char)
    requires
        s.cursor_in_text(),
    ensures
        ({
            let key = KeyEvent { code: KeyCode::Char(c), alt: false, press: true };
            let t = input_after_key(s, key);
            let k = s.character_index as int;
            &&& t.len() == s.input@.len() + 1
            &&& t[k] == c
            &&& t.subrange(0, k) == s.input@.subrange(0, k)
            &&& t.subrange(k + 1, t.len() as int) == s.input@.subrange(k, s.input@.len() as int)
            &&& cursor_after_key(s, key) == k + 1
        }),
{
    let key = KeyEvent { code: KeyCode::Char(c), alt: false, press: true };
    let t = input_after_key(s, key);
    let k = s.character_index as int;
    assert(t.subrange(0, k) =~= s.input@.subrange(0, k));
    assert(t.subrange(k + 1, t.len() as int) =~= s.input@.subrange(k, s.input@.len() as int));
}

/// Down then Up gives back a selection that names an item, and so does Up
/// then Down; either move keeps the selection on an item.
pub proof fn law_selection_moves_undo(selected: Option<usize>, len: nat)
    requires
        len > 0,
        len <= usize::MAX,
        selected matches Some(i) ==> i < len,
    ensures
        selected is Some ==> previous_selection(next_selection(selected, len), len) == selected,
        selected is Some ==> next_selection(previous_selection(selected, len), len) == selected,
        next_selection(selected, len) matches Some(i) && i < len,
        previous_selection(selected, len) matches Some(i) && i < len,
{
}

/// Pressing Space twice on the same assistant leaves every mark as it was.
pub proof fn law_space_twice_restores_marks(marked: Seq<bool>, selection: Option<usize>)
    ensures
        ({
            let space = KeyEvent { code: KeyCode::Char(' '), alt: false, press: true };
            marks_after_key(marks_after_key(marked, selection, space), selection, space) == marked
        }),
{
    let space = KeyEvent { code: KeyCode::Char(' '), alt: false, press: true };
    assert(marks_after_key(marks_after_key(marked, selection, space), selection, space) =~= marked);
}

/// The labels of the answers a create-assistant form has recorded.
pub open spec fn history_labels(h: Seq<(String, String)>) -> Seq<Seq<char>> {
    history_view(h).map_values(|e: (Seq<char>, Seq<char>)| e.0)
}

/// The labels of the create-assistant journey's answers, in the order asked.
pub open spec fn journey_labels() -> Seq<Seq<char>> {
    seq!["Name"@, "Model"@, "System Prompt"@, "Use RAG"@]
}

/// How many questions come before `step` in the journey.
pub open spec fn step_rank(step: CreateAssistantFormStep) -> int {
    match step {
        CreateAssistantFormStep::Name => 0,
        CreateAssistantFormStep::Model => 1,
        CreateAssistantFormStep::SystemPromptPath => 2,
        CreateAssistantFormStep::UseRag => 3,
        _ => 4,
    }
}

/// The form is on one of the journey's questions, and its history holds the
/// answers to the questions before it, in order.
pub open spec fn answers_in_order(f: CreateAssistantFormWidgetState) -> bool {
    &&& step_rank(f.step) < 4
    &&& history_labels(f.history@) == journey_labels().take(step_rank(f.step))
}

/// A new create-assistant form (on the name, with no answer) has its answers
/// in order.
pub proof fn law_create_journey_starts_in_order(f: CreateAssistantFormWidgetState)
    requires
        f.step == CreateAssistantFormStep::Name,
        f.history@.len() == 0,
    ensures
        answers_in_order(f),
{
    assert(history_labels(f.history@) =~= journey_labels().take(0));
}

/// A key press on the create-assistant journey (see
/// `CreateAssistantJourneyWidget::handle_key_event`) keeps the answers in the
/// order of the questions and never goes back a step; the journey completes
/// exactly when all four answers are recorded.
pub proof fn law_create_journey_history_follows_steps(
    f0: CreateAssistantFormWidgetState,
    key: KeyEvent,
    f1: CreateAssistantFormWidgetState,
    r: JourneyOutcome<AssistantConfig>,
)
    requires
        answers_in_order(f0),
        f0.step == CreateAssistantFormStep::Model ==> model_step_done(f0, key, f1) && r is Continue,
        f0.step != CreateAssistantFormStep::Model ==> text_step_done(f0, key, f1, r),
    ensures
        r is Continue ==> answers_in_order(f1),
        r is Completed ==> history_labels(f1.history@) == journey_labels(),
        step_rank(f1.step) >= step_rank(f0.step),
{
    let l0 = history_labels(f0.history@);
    let l1 = history_labels(f1.history@);
    let k = step_rank(f0.step);
    if history_view(f1.history@) == history_view(f0.history@) {
        assert(l1 =~= l0);
    }
    if f1.step != f0.step {
        let x = history_view(f1.history@).last();
        assert(history_view(f1.history@).drop_last() =~= history_view(f0.history@));
        assert(l1 =~= l0.push(x.0));
        assert(journey_labels().take(k + 1) =~= journey_labels().take(k).push(journey_labels()[k]));
    }
    if r is Completed {
        let x = history_view(f1.history@).last();
        assert(history_view(f1.history@).drop_last() =~= history_view(f0.history@));
        assert(l1 =~= l0.push(x.0));
        assert(journey_labels().take(3).push(journey_labels()[3]) =~= journey_labels());
    }
}

/// A key press on the remove-assistant journey (see
/// `RemoveAssistantJourneyWidget::handle_key_event`) keeps one mark and one
/// row per assistant, and changes no mark but the selected one.
pub proof fn law_remove_journey_rows_follow_marks(
    s0: RemoveAssistantJourneyState,
    key: KeyEvent,
    s1: RemoveAssistantJourneyState,
)
    requires
        s0.marked@.len() == s0.assistants@.len(),
        s1.rows_match(),
        s1.assistants@ == s0.assistants@,
        s1.marked@ == marks_after_key(s0.marked@, s0.wrapper_state.child_state.selection(), key),
    ensures
        s1.marked@.len() == s1.assistants@.len(),
        s1.wrapper_state.child_state.items@.len() == s1.assistants@.len(),
        forall|j: int|
            0 <= j < s1.marked@.len() && Some(j as usize) != s0.wrapper_state.child_state.selection()
                ==> s1.marked@[j] == s0.marked@[j],
{
}

/// Scrolling keeps the view within the text, and a step down that moved is
/// undone by a step up.
pub proof fn law_scroll_in_range(s: MessageListState, down: MessageListState, up: MessageListState)
    requires
        s.offset_in_range(),
        down.text_height == s.text_height,
        down.container_height == s.container_height,
        down.scroll_offset == if s.room_for_scroll() && s.scroll_offset + s.container_height
            < s.text_height {
            s.scroll_offset + 1
        } else {
            s.scroll_offset as int
        },
        up.text_height == down.text_height,
        up.container_height == down.container_height,
        up.scroll_offset == if down.room_for_scroll() && down.scroll_offset > 0 {
            down.scroll_offset - 1
        } else {
            down.scroll_offset as int
        },
    ensures
        down.offset_in_range(),
        up.offset_in_range(),
        down.scroll_offset != s.scroll_offset ==> up.scroll_offset == s.scroll_offset,
{
}

/// A message that is, once trimmed, a slash and a command's name runs that
/// command; a message whose trimmed text does not start with `/` runs none.
pub proof fn law_command_roundtrip(input: Seq<char>, i: int)
    requires
        0 <= i < command_list().len(),
    ensures
        trim_spec(input) == seq!['/'] + command_list()[i].meta().name@ ==> submitted_command(input)
            == Some(command_list()[i]),
        !(trim_spec(input).len() > 0 && trim_spec(input)[0] == '/') ==> submitted_command(input)
            is None,
{
    if trim_spec(input) == seq!['/'] + command_list()[i].meta().name@ {
        lemma_command_named(i);
        lemma_slash_name(command_list()[i].meta().name@);
    }
}

/// Tab on a `/` token that is the whole message, with a command's option
/// highlighted, leaves `/` and that command's name, and submitting it runs
/// that command.
pub proof fn law_tab_completes_command(st: TextInputState, i: int, width: nat)
    requires
        0 <= i < command_list().len(),
        st.autocomplete_state.reference_type == ReferenceType::Command,
        st.autocomplete_state.reference_token_index == 0,
        opt_string_view(st.autocomplete_state.reference_token) == Some(st.input@),
        st.autocomplete_state.current_index < st.autocomplete_state.options@.len(),
        st.autocomplete_state.options@[st.autocomplete_state.current_index as int]@
            == command_option(command_list()[i], width),
    ensures
        ({
            let after = input_after_key(st, KeyEvent { code: KeyCode::Tab, alt: false, press: true });
            &&& after == seq!['/'] + command_list()[i].meta().name@
            &&& submitted_command(after) == Some(command_list()[i])
        }),
{
    let cmd = command_list()[i];
    let name = cmd.meta().name@;
    lemma_command_named(i);
    lemma_first_word_of_option(cmd, width);
    let s = st.input@;
    assert(s.subrange(0, 0) =~= Seq::<char>::empty());
    let t = seq!['/'] + name;
    let after = input_after_key(st, KeyEvent { code: KeyCode::Tab, alt: false, press: true });
    assert(after =~= t);
    assert(t[0] == '/');
    assert(t.last() == name.last());
    assert(trim_start_spec(t) == t);
    assert(trim_end_spec(t) == t);
    law_command_roundtrip(t, i);
}

/// A command's option starts with its name, then a space.
proof fn lemma_first_word_of_option(cmd: Command, width: nat)
    requires
        cmd.meta().name@.len() > 0,
        forall|k: int| 0 <= k < cmd.meta().name@.len() ==> !char_is_whitespace(cmd.meta().name@[k]),
    ensures
        first_word(command_option(cmd, width)) == cmd.meta().name@,
{
    let name = cmd.meta().name@;
    let opt = command_option(cmd, width);
    let sp = seq![' '];
    let n = name.len() as int;
    assert(opt[n] == ' ');
    assert(occurs_at(opt, sp, n)) by {
        assert(opt.subrange(n, n + 1) =~= sp);
    }
    lemma_find_from(opt, sp, 0);
    match find_spec(opt, sp) {
        Some(k) => {
            assert(opt.subrange(k, k + 1)[0] == opt[k]);
            if k < n {
                assert(opt[k] == name[k]);
                assert(char_is_whitespace(' '));
            }
            assert(opt.subrange(0, n) =~= name);
        },
        None => {},
    }
}

/// `/` followed by a text without `/` names that text.
proof fn lemma_slash_name(name: Seq<char>)
    requires
        forall|k: int| 0 <= k < name.len() ==> name[k] != '/',
    ensures
        command_name_of(seq!['/'] + name) == Some(name),
{
    let s = seq!['/'] + name;
    let slash = seq!['/'];
    let rest = s.subrange(1, s.len() as int);
    assert(rest =~= name);
    lemma_find_from(rest, slash, 0);
    assert forall|j: int| 0 <= j implies !occurs_at(rest, slash, j) by {
        if occurs_at(rest, slash, j) {
            assert(rest.subrange(j, j + 1)[0] == rest[j]);
        }
    }
    assert(find_spec(rest, slash) is None);
}

/// Each command is found by its own name, and command names are not empty
/// and hold neither `/` nor whitespace.
proof fn lemma_command_named(i: int)
    requires
        0 <= i < command_list().len(),
    ensures
        command_named(command_list(), command_list()[i].meta().name@) == Some(command_list()[i]),
        forall|k: int|
            0 <= k < command_list()[i].meta().name@.len() ==> command_list()[i].meta().name@[k]
                != '/' && !char_is_whitespace(command_list()[i].meta().name@[k]),
        command_list()[i].meta().name@.len() > 0,
{
    reveal_strlit("list-models");
    reveal_strlit("create-assistant");
    reveal_strlit("select-assistant");
    reveal_strlit("remove-assistant");
    let cmds = command_list();
    assert(cmds[0].meta().name@[0] != cmds[1].meta().name@[0]);
    assert(cmds[0].meta().name@ != cmds[1].meta().name@);
    assert(cmds[0].meta().name@ != cmds[2].meta().name@);
    assert(cmds[0].meta().name@ != cmds[3].meta().name@);
    assert(cmds[1].meta().name@[0] != cmds[2].meta().name@[0]);
    assert(cmds[1].meta().name@ != cmds[2].meta().name@);
    assert(cmds[1].meta().name@ != cmds[3].meta().name@);
    assert(cmds[2].meta().name@ != cmds[3].meta().name@);
    reveal_with_fuel(command_named, 5);
    assert(cmds.drop_first() =~= seq![cmds[1], cmds[2], cmds[3]]);
    assert(cmds.drop_first().drop_first() =~= seq![cmds[2], cmds[3]]);
    assert(cmds.drop_first().drop_first().drop_first() =~= seq![cmds[3]]);
}

/// Cleaning a reply leaves no `<think>` in it.
pub proof fn law_cleaned_reply_has_no_think_tag(s: Seq<char>)
    ensures
        find_spec(cleaned_reply(s), think_open()) is None,
{
    lemma_no_open_tag(s);
    let w = without_think_blocks(s);
    let a = lemma_trim_is_subrange(w);
    let t = trim_spec(w);
    lemma_find_from(t, think_open(), 0);
    lemma_find_from(w, think_open(), 0);
    assert forall|j: int| 0 <= j implies !occurs_at(t, think_open(), j) by {
        if occurs_at(t, think_open(), j) {
            assert(t.subrange(j, j + think_open().len()) =~= w.subrange(a + j, a + j + think_open().len()));
            assert(occurs_at(w, think_open(), a + j));
        }
    }
}

/// The turns sent to the model are the user's and the assistant's messages
/// only: none comes from the application, none claims the system's role, and
/// there are as many as such messages in the history.
pub proof fn law_only_conversation_reaches_the_model(history: Seq<ChatMessage>)
    ensures
        forall|i: int|
            0 <= i < model_turns(history).len() ==> (#[trigger] model_turns(history)[i]).0
                != OutgoingRole::System,
        model_turns(history).len() == history.filter(|m: ChatMessage| m.role != ChatRole::App).len(),
    decreases history.len(),
{
    reveal(Seq::filter);
    if history.len() > 0 {
        law_only_conversation_reaches_the_model(history.drop_last());
    }
}

/// Cleaning a reply that was already cleaned changes nothing.
pub proof fn law_cleaning_is_idempotent(s: Seq<char>)
    ensures
        cleaned_reply(cleaned_reply(s)) == cleaned_reply(s),
{
    let c = cleaned_reply(s);
    law_cleaned_reply_has_no_think_tag(s);
    assert(without_think_blocks(c) == c);
    lemma_trim_idempotent(without_think_blocks(s));
}

/// Trimming a trimmed text changes nothing.
proof fn lemma_trim_idempotent(s: Seq<char>)
    ensures
        trim_spec(trim_spec(s)) == trim_spec(s),
{
    let u = trim_start_spec(s);
    let t = trim_spec(s);
    lemma_trim_start_first(s);
    lemma_trim_end_last(u);
    lemma_trim_end_is_prefix(u);
    if t.len() > 0 {
        assert(t[0] == u[0]);
        assert(trim_start_spec(t) == t);
        assert(trim_end_spec(t) == t);
    } else {
        assert(trim_start_spec(t) == t);
        assert(trim_end_spec(t) == t);
    }
}

proof fn lemma_trim_start_first(s: Seq<char>)
    ensures
        trim_start_spec(s).len() > 0 ==> !char_is_whitespace(trim_start_spec(s)[0]),
    decreases s.len(),
{
    if s.len() > 0 && char_is_whitespace(s[0]) {
        lemma_trim_start_first(s.drop_first());
    }
}

proof fn lemma_trim_end_last(s: Seq<char>)
    ensures
        trim_end_spec(s).len() > 0 ==> !char_is_whitespace(trim_end_spec(s).last()),
    decreases s.len(),
{
    if s.len() > 0 && char_is_whitespace(s.last()) {
        lemma_trim_end_last(s.drop_last());
    }
}

/// The blocks removed, no `<think>` is left.
proof fn lemma_no_open_tag(s: Seq<char>)
    ensures
        find_spec(without_think_blocks(s), think_open()) is None,
    decreases s.len(),
{
    lemma_find_from(s, think_open(), 0);
    match find_spec(s, think_open()) {
        None => {},
        Some(start) => {
            let rest = s.subrange(start, s.len() as int);
            lemma_find_from(rest, think_open(), 0);
            lemma_find_from(rest, crate::services::chat::think_close(), 0);
            match find_spec(rest, crate::services::chat::think_close()) {
                Some(end) => {
                    lemma_no_open_tag(s.subrange(0, start) + s.subrange(start + end + 8, s.len() as int));
                },
                None => {
                    let p = s.subrange(0, start);
                    lemma_find_from(p, think_open(), 0);
                    assert forall|j: int| 0 <= j implies !occurs_at(p, think_open(), j) by {
                        if occurs_at(p, think_open(), j) {
                            assert(p.subrange(j, j + 7) =~= s.subrange(j, j + 7));
                            assert(occurs_at(s, think_open(), j));
                        }
                    }
                },
            }
        },
    }
}

/// Trimming keeps a contiguous part of the text, which starts at `a`.
proof fn lemma_trim_is_subrange(s: Seq<char>) -> (a: int)
    ensures
        0 <= a <= a + trim_spec(s).len() <= s.len(),
        trim_spec(s) == s.subrange(a, a + trim_spec(s).len()),
{
    lemma_trim_start_is_suffix(s);
    let u = trim_start_spec(s);
    lemma_trim_end_is_prefix(u);
    let a = s.len() - u.len();
    assert(trim_spec(s) =~= s.subrange(a, a + trim_spec(s).len()));
    a
}

proof fn lemma_trim_start_is_suffix(s: Seq<char>)
    ensures
        trim_start_spec(s).len() <= s.len(),
        trim_start_spec(s) == s.subrange(s.len() - trim_start_spec(s).len(), s.len() as int),
    decreases s.len(),
{
    if s.len() > 0 && char_is_whitespace(s[0]) {
        lemma_trim_start_is_suffix(s.drop_first());
        assert(s.drop_first().subrange(s.drop_first().len() - trim_start_spec(s).len(), s.drop_first().len() as int)
            =~= s.subrange(s.len() - trim_start_spec(s).len(), s.len() as int));
    } else {
        assert(s.subrange(0, s.len() as int) =~= s);
    }
}

proof fn lemma_trim_end_is_prefix(s: Seq<char>)
    ensures
        trim_end_spec(s).len() <= s.len(),
        trim_end_spec(s) == s.subrange(0, trim_end_spec(s).len() as int),
    decreases s.len(),
{
    if s.len() > 0 && char_is_whitespace(s.last()) {
        lemma_trim_end_is_prefix(s.drop_last());
        assert(s.drop_last().subrange(0, trim_end_spec(s).len() as int) =~= s.subrange(0, trim_end_spec(s).len() as int));
    } else {
        assert(s.subrange(0, s.len() as int) =~= s);
    }
}

/// A configuration file name holds no `/`, `\\` or whitespace.
pub proof fn law_config_file_name_is_plain(name: Seq<char>)
    ensures
        forall|i: int|
            0 <= i < config_file_stem(name).len() ==> {
                let c = #[trigger] config_file_stem(name)[i];
                c != '/' && c != '\\' && !char_is_whitespace(c)
            },
{
}

} // verus!
