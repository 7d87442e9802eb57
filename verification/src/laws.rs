//! Properties that span several operations of the front end.
use vstd::prelude::*;
use crate::bindings::{lemma_help_labels_distinct, table_len, lemma_normal_keymaps_lookup, normal_keymap_table, table_entry, table_rank};
use crate::tui::HandlerOperation;
use crate::keymap::{Command, KeymapView, collected, lemma_collected_distinct, lemma_lookup_inserted, lookup};
use crate::keys::{KeyCode, KeyEvent, key_event_text, no_modifiers, normalized, press, same_key};
use crate::tui::{ActionContext, DeleteHandler, EditorKey, EditorOperation, Effect, Mode, Prompt, TextHandler, TuiApp, closed_mode, command_step, editor_key_of, restriction_prompt_step, search_prompt_step, text_input_step, text_prompt_step};
use crate::keys::control_modifier;
use crate::screen::title_text;

verus! {

/// Among bindings collected in order, a later binding for a key replaces an
/// earlier one, and keys that are not the same as its key keep what they had.
pub proof fn law_later_binding_wins(v: Seq<(KeyEvent, KeymapView)>, k: KeyEvent, m: KeymapView, q: KeyEvent)
    ensures
        lookup(collected(v.push((k, m))), q) == if same_key(k, q) {
            Some(m)
        } else {
            lookup(collected(v), q)
        },
{
    let w = v.push((k, m));
    assert(w.drop_last() =~= v);
    lemma_collected_distinct(v);
    lemma_lookup_inserted(collected(v), k, m, q);
}

/// A key pressed in normal mode, in the state the front end starts in, runs
/// the command the table binds to it and ends with the table's operation;
/// a key the table does not name changes nothing.
pub proof fn law_normal_key_runs_its_binding(s: TuiApp, k: KeyEvent)
    requires
        s.normal_keymaps@ == normal_keymap_table(),
    ensures
        0 <= table_rank(normalized(k)) ==> lookup(s.normal_keymaps@, k) == Some(
            table_entry(table_rank(normalized(k))).1,
        ),
        table_rank(normalized(k)) < 0 ==> lookup(s.normal_keymaps@, k) is None,
{
    lemma_normal_keymaps_lookup(k);
}

/// Toggling the help window, the right panel or the module twice gives the
/// state back, with no work left.
pub proof fn law_toggles_undo_themselves(s: TuiApp, c1: ActionContext, c2: ActionContext, cmd: Command)
    requires
        cmd == Command::ToggleHelp || cmd == Command::ToggleRightPanel || cmd == Command::ToggleModule,
    ensures
        command_step(command_step(s, cmd, c1).0, cmd, c2).0 == s,
        command_step(s, cmd, c1).1 == Seq::<Effect>::empty(),
{
}

/// No command and no input of the text field changes the key bindings.
pub proof fn law_bindings_stay(s: TuiApp, cmd: Command, ctx: ActionContext, op: EditorOperation, text: String, matches: bool)
    ensures
        command_step(s, cmd, ctx).0.normal_keymaps == s.normal_keymaps,
        text_input_step(s, op, text, matches).0.normal_keymaps == s.normal_keymaps,
{
}

/// Submitting or cancelling always closes the prompt and clears the text
/// field as the last piece of work, and changes nothing else of the state;
/// input and deletion change nothing of the state.
pub proof fn law_text_field_closes(s: TuiApp, op: EditorOperation, text: String, matches: bool)
    ensures
        (op is Submit || op is Cancel) ==> {
            let (t, e) = text_input_step(s, op, text, matches);
            &&& t == closed_mode(s)
            &&& e.len() > 0
            &&& e.last() == Effect::ClearInput
        },
        (op is Input || op is Delete) ==> text_input_step(s, op, text, matches).0 == s,
{
}

/// Every prompt that a command opens leaves the front end in editing mode,
/// and every other command leaves the mode as it was.
pub proof fn law_prompts_edit(s: TuiApp, cmd: Command, ctx: ActionContext)
    ensures
        ({
            let t = command_step(s, cmd, ctx).0;
            ||| t.mode == Mode::Editing
            ||| t.mode == s.mode
        }),
        (cmd is SearchPrompt || cmd is PriorityPrompt || cmd is ScheduleRestrictionPrompt || cmd is PrependPrompt
            || cmd is AppendPrompt || cmd is SchedulePrompt || cmd is ReminderPrompt || cmd is TreeSearchPrompt)
            ==> command_step(s, cmd, ctx).0.mode == Mode::Editing,
{
}

/// The search prompt searches as the text is typed; submitting it only closes
/// it.
pub proof fn law_search_submit_only_closes(s: TuiApp, text: String, matches: bool)
    ensures
        ({
            let t = search_prompt_step(s).0;
            &&& text_input_step(t, EditorOperation::Input, text, matches).1 == seq![Effect::SearchRestriction(text)]
            &&& text_input_step(t, EditorOperation::Submit, text, matches).1 == seq![Effect::ClearInput]
        }),
{
}

/// In a restricting prompt, typed text and submitted text go to the same
/// handler.
pub proof fn law_restriction_prompt_same_handler(s: TuiApp, h: TextHandler, text: String, matches: bool)
    ensures
        ({
            let t = restriction_prompt_step(s, h, crate::tui::Prompt::Priority).0;
            text_input_step(t, EditorOperation::Submit, text, matches).1 == text_input_step(
                t,
                EditorOperation::Input,
                text,
                matches,
            ).1 + seq![Effect::ClearInput]
        }),
{
}

/// The title marks unsaved changes with a star right after the count, and
/// the parent's message comes last.
pub proof fn law_title_shape(changed: bool, size: nat, parent: Seq<char>)
    ensures
        title_text(changed, size, Some(parent)) == title_text(changed, size, None) + " "@ + parent,
        title_text(true, size, None) == title_text(false, size, None) + "*"@,
{
    assert(title_text(false, size, None) =~= title_text(false, size, None) + ""@) by {
        reveal_strlit("");
    }
}

/// While the front end has the bindings of normal mode (from the start, as no
/// command or input changes them), its help page, one entry per binding,
/// names every binding by a label of its own.
pub proof fn law_help_labels_distinct(s: TuiApp, i: int, j: int)
    requires
        s.normal_keymaps@ == normal_keymap_table(),
        0 <= i < table_len(),
        0 <= j < table_len(),
        i != j,
    ensures
        key_event_text(s.normal_keymaps@[i].0) != key_event_text(s.normal_keymaps@[j].0),
{
    lemma_help_labels_distinct();
    assert(key_event_text(normal_keymap_table()[i].0) != key_event_text(normal_keymap_table()[j].0));
}

/// What the help page says a command does.
pub open spec fn command_description(cmd: Command) -> Seq<char> {
    match cmd {
        Command::ToggleHelp => "Toggle help window"@,
        Command::PrependPrompt => "Prepend todo"@,
        Command::Suspend => "Suspend application (Unix)"@,
        Command::OpenFileBrowser => "Open file browser"@,
        Command::RemoveTodoAndYank => "Remove todo and yank"@,
        Command::ToggleDaily => "Toggle daily"@,
        Command::ToggleWeekly => "Toggle weekly"@,
        Command::SchedulePrompt => "Schedule prompt"@,
        Command::ReminderPrompt => "Reminder prompt"@,
        Command::ToggleSchedule => "Toggle schedule"@,
        Command::ToggleShowDone => "Toggle show done"@,
        Command::PriorityPrompt => "Priority prompt"@,
        Command::ScheduleRestrictionPrompt => "Schedule restriction prompt"@,
        Command::YankTodo => "Yank todo"@,
        Command::PasteTodo => "Paste todo"@,
        Command::IncreaseDayBy(n) => if n == 1 {
            "Increase day by 1"@
        } else if n == -1 {
            "Increase day by -1"@
        } else {
            "Increase day"@
        },
        Command::AppendFromFiles => "Append todo"@,
        Command::OutputToFiles => "Output todo"@,
        Command::GoDown => "Move down"@,
        Command::GoUp => "Move up"@,
        Command::AddDependencyTraverseDown => "Move right"@,
        Command::TraverseDown => "Traverse down"@,
        Command::TraverseUp => "Move left"@,
        Command::GoTop => "Go to top"@,
        Command::GoBottom => "Go to bottom"@,
        Command::Write => "Write"@,
        Command::MoveCurrentDown => "Move current down"@,
        Command::MoveCurrentUp => "Move current up"@,
        Command::ToggleRightPanel => "Toggle right panel"@,
        Command::ToggleModule => "Toggle module"@,
        Command::EditOrAddNote => "Edit or add note"@,
        Command::AddDependency => "Add dependency"@,
        Command::RemoveTodo => "Remove todo"@,
        Command::Read => "Read"@,
        Command::RemoveCurrentDependent => "Remove current dependent"@,
        Command::ToggleCurrentDone => "Toggle current done"@,
        Command::NextSearchResult => "Next search result"@,
        Command::SearchPrompt => "Search prompt"@,
        Command::TreeSearchPrompt => "Tree search prompt"@,
        Command::AppendPrompt => "Append todo at first"@,
        Command::EditPrompt(start) => if start {
            "Edit todo (start)"@
        } else {
            "Edit todo"@
        },
        Command::BatchEditMessages => "Batch edit messages"@,
        Command::GoRoot => "Go to root"@,
        Command::QuitSavePrompt => "Quit and save prompt"@,
        Command::PotatoSkip => "Skip potato module"@,
        Command::PotatoIncreaseTimer => "Increase potato timer"@,
        Command::PotatoTogglePause => "Toggle potato pause"@,
        Command::PotatoQuit => "Quit potato module"@,
        Command::PotatoDecreaseTimer => "Decrease potato timer"@,
        Command::PotatoRestart => "Restart potato module"@,
        Command::FzfSearch => "FZF search"@,
        Command::PotatoIncreasePomodoro => "Increase pomodoro"@,
        Command::PotatoDecreasePomodoro => "Decrease pomodoro"@,
        Command::PotatoNext => "Next potato module"@,
        Command::PotatoPrev => "Previous potato module"@,
    }
}

/// Every binding of normal mode runs the command its help description names,
/// so bindings that share a description run the same command.
pub proof fn law_descriptions_name_commands()
    ensures
        forall|i: int|
            0 <= i < table_len() ==> (#[trigger] normal_keymap_table()[i]).1.description == command_description(
                normal_keymap_table()[i].1.action.command,
            ),
{
    assert forall|i: int| 0 <= i < table_len() implies (#[trigger] normal_keymap_table()[i]).1.description
        == command_description(normal_keymap_table()[i].1.action.command) by {
        assert(normal_keymap_table()[i] == table_entry(i));
    }
}

/// Whatever key is pressed in normal mode, the binding found for it runs the
/// command that its description names.
pub proof fn law_found_binding_matches_description(k: KeyEvent)
    ensures
        lookup(normal_keymap_table(), k) matches Some(m) ==> m.description == command_description(m.action.command),
{
    lemma_normal_keymaps_lookup(k);
    law_descriptions_name_commands();
    let r = table_rank(normalized(k));
    if 0 <= r {
        assert(r < 64);
        assert(normal_keymap_table()[r] == table_entry(r));
    }
}

/// The binding of normal mode for `k` with no modifier.
pub open spec fn plain_binding(code: KeyCode) -> Option<KeymapView> {
    lookup(normal_keymap_table(), press(code, no_modifiers()))
}

/// The letters `j`, `k`, `l`, `h`, `g` and `G` do what Down, Up, Right, Left,
/// Home and End do: move down, move up, go into the dependency, go back up the
/// tree, go to the top and go to the bottom.
pub proof fn law_letters_match_arrows()
    ensures
        plain_binding(KeyCode::Char('j')) == plain_binding(KeyCode::Down),
        plain_binding(KeyCode::Down) matches Some(m) && m.action.command == Command::GoDown,
        plain_binding(KeyCode::Char('k')) == plain_binding(KeyCode::Up),
        plain_binding(KeyCode::Up) matches Some(m) && m.action.command == Command::GoUp,
        plain_binding(KeyCode::Char('l')) == plain_binding(KeyCode::Right),
        plain_binding(KeyCode::Right) matches Some(m) && m.action.command == Command::AddDependencyTraverseDown,
        plain_binding(KeyCode::Char('h')) == plain_binding(KeyCode::Left),
        plain_binding(KeyCode::Left) matches Some(m) && m.action.command == Command::TraverseUp,
        plain_binding(KeyCode::Char('g')) == plain_binding(KeyCode::Home),
        plain_binding(KeyCode::Home) matches Some(m) && m.action.command == Command::GoTop,
        plain_binding(KeyCode::Char('G')) == plain_binding(KeyCode::End),
        plain_binding(KeyCode::End) matches Some(m) && m.action.command == Command::GoBottom,
{
    lemma_normal_keymaps_lookup(press(KeyCode::Char('j'), no_modifiers()));
    lemma_normal_keymaps_lookup(press(KeyCode::Down, no_modifiers()));
    lemma_normal_keymaps_lookup(press(KeyCode::Char('k'), no_modifiers()));
    lemma_normal_keymaps_lookup(press(KeyCode::Up, no_modifiers()));
    lemma_normal_keymaps_lookup(press(KeyCode::Char('l'), no_modifiers()));
    lemma_normal_keymaps_lookup(press(KeyCode::Right, no_modifiers()));
    lemma_normal_keymaps_lookup(press(KeyCode::Char('h'), no_modifiers()));
    lemma_normal_keymaps_lookup(press(KeyCode::Left, no_modifiers()));
    lemma_normal_keymaps_lookup(press(KeyCode::Char('g'), no_modifiers()));
    lemma_normal_keymaps_lookup(press(KeyCode::Home, no_modifiers()));
    lemma_normal_keymaps_lookup(press(KeyCode::Char('G'), no_modifiers()));
    lemma_normal_keymaps_lookup(press(KeyCode::End, no_modifiers()));
}

/// The handlers a state has once a prompt is open: its text goes to `submit`
/// on Enter, to `input` on every input and to `delete` on deletion, and
/// nothing else of the state has changed but the mode, now editing.
pub open spec fn prompt_open_with(
    s: TuiApp,
    t: TuiApp,
    submit: Option<TextHandler>,
    input: Option<TextHandler>,
    delete: Option<DeleteHandler>,
) -> bool {
    &&& t.on_submit == submit
    &&& t.on_input == input
    &&& t.on_delete == delete
    &&& t.mode == Mode::Editing
    &&& t.show_right == s.show_right
    &&& t.show_help == s.show_help
    &&& t.args == s.args
    &&& t.normal_keymaps == s.normal_keymaps
}

/// Opening a plain prompt sends its text to the given handler on submit only:
/// no handler is left for input or deletion, whatever was there before.
pub proof fn law_plain_prompt_handlers(s: TuiApp, h: TextHandler, p: Prompt)
    ensures
        prompt_open_with(s, text_prompt_step(s, h, p).0, Some(h), None, None),
        text_prompt_step(s, h, p).0.restriction_saved == s.restriction_saved,
        text_prompt_step(s, h, p).1 == seq![Effect::OpenPrompt(p)],
{
}

/// Each command that opens a prompt opens that prompt and installs the
/// handlers that belong to it: the reminder prompt hands its text to the
/// reminder, the schedule prompt to the schedule day, and so on.
pub proof fn law_prompt_commands_install_their_handlers(s: TuiApp, ctx: ActionContext)
    ensures
        prompt_open_with(s, command_step(s, Command::ReminderPrompt, ctx).0, Some(TextHandler::Reminder), None, None),
        command_step(s, Command::ReminderPrompt, ctx).1 == seq![Effect::OpenPrompt(Prompt::Reminder)],
        prompt_open_with(s, command_step(s, Command::SchedulePrompt, ctx).0, Some(TextHandler::Schedule), None, None),
        command_step(s, Command::SchedulePrompt, ctx).1 == seq![Effect::OpenPrompt(Prompt::Schedule)],
        prompt_open_with(s, command_step(s, Command::TreeSearchPrompt, ctx).0, Some(TextHandler::TreeSearch), None, None),
        command_step(s, Command::TreeSearchPrompt, ctx).1 == seq![Effect::OpenPrompt(Prompt::TreeSearch)],
        prompt_open_with(s, command_step(s, Command::PrependPrompt, ctx).0, Some(TextHandler::AppendTodo), None, None),
        command_step(s, Command::PrependPrompt, ctx).1 == seq![Effect::OpenPrompt(Prompt::AddTodo)],
        prompt_open_with(s, command_step(s, Command::AppendPrompt, ctx).0, Some(TextHandler::PrependTodo), None, None),
        command_step(s, Command::AppendPrompt, ctx).1 == seq![Effect::OpenPrompt(Prompt::AddTodoFirst)],
        prompt_open_with(
            s,
            command_step(s, Command::SearchPrompt, ctx).0,
            None,
            Some(TextHandler::Search),
            Some(DeleteHandler::Search),
        ),
        command_step(s, Command::SearchPrompt, ctx).0.restriction_saved,
        prompt_open_with(
            s,
            command_step(s, Command::PriorityPrompt, ctx).0,
            Some(TextHandler::PriorityPrompt),
            Some(TextHandler::PriorityPrompt),
            Some(DeleteHandler::Priority),
        ),
        command_step(s, Command::PriorityPrompt, ctx).0.restriction_saved,
        prompt_open_with(
            s,
            command_step(s, Command::ScheduleRestrictionPrompt, ctx).0,
            Some(TextHandler::SchedulePrompt),
            Some(TextHandler::SchedulePrompt),
            Some(DeleteHandler::Priority),
        ),
        command_step(s, Command::ScheduleRestrictionPrompt, ctx).0.restriction_saved,
        ctx.unsaved_changes ==> prompt_open_with(
            s,
            command_step(s, Command::QuitSavePrompt, ctx).0,
            Some(TextHandler::SavePrompt),
            None,
            None,
        ),
        !ctx.unsaved_changes ==> command_step(s, Command::QuitSavePrompt, ctx).1 == seq![Effect::Quit],
        forall|start: bool|
            ctx.current_message is Some ==> prompt_open_with(
                s,
                #[trigger] command_step(s, Command::EditPrompt(start), ctx).0,
                Some(TextHandler::EditTodo),
                None,
                None,
            ),
{
}

/// Typing in a prompt reaches only its input handler: the state stays, and
/// the work is the same whatever the submit and delete handlers are; a
/// prompt without an input handler does nothing on input.
pub proof fn law_input_reaches_only_input_handler(
    s: TuiApp,
    submit: Option<TextHandler>,
    delete: Option<DeleteHandler>,
    text: String,
    matches: bool,
)
    ensures
        text_input_step(s, EditorOperation::Input, text, matches).0 == s,
        text_input_step(s, EditorOperation::Input, text, matches).1 == text_input_step(
            TuiApp { on_submit: submit, on_delete: delete, ..s },
            EditorOperation::Input,
            text,
            matches,
        ).1,
        s.on_input is None ==> text_input_step(s, EditorOperation::Input, text, matches).1 == Seq::<Effect>::empty(),
{
}

/// Deleting in a prompt reaches only its delete handler: a prompt without one
/// does nothing on deletion.
pub proof fn law_delete_reaches_only_delete_handler(s: TuiApp, text: String, before: String, matches: bool)
    ensures
        text_input_step(s, EditorOperation::Delete(before), text, matches).0 == s,
        s.on_delete is None ==> text_input_step(s, EditorOperation::Delete(before), text, matches).1 == Seq::<
            Effect,
        >::empty(),
{
}

/// In a plain prompt, typing and deleting do nothing until the text is
/// submitted, whichever prompt was open before.
pub proof fn law_plain_prompt_waits_for_submit(s: TuiApp, h: TextHandler, p: Prompt, text: String, before: String, matches: bool)
    ensures
        text_input_step(text_prompt_step(s, h, p).0, EditorOperation::Input, text, matches).1 == Seq::<Effect>::empty(),
        text_input_step(text_prompt_step(s, h, p).0, EditorOperation::Delete(before), text, matches).1 == Seq::<
            Effect,
        >::empty(),
{
}

/// In the text field, Escape cancels, Enter submits, Backspace deletes a
/// character, and only `u` with control alone deletes to the head of the
/// line; every other event, other control characters included, goes to the
/// text field.
pub proof fn law_editor_keys(event: Option<KeyEvent>)
    ensures
        editor_key_of(event) == EditorKey::Cancel <==> (event matches Some(k) && k.code == KeyCode::Esc),
        editor_key_of(event) == EditorKey::Submit <==> (event matches Some(k) && k.code == KeyCode::Enter),
        editor_key_of(event) == EditorKey::DeleteChar <==> (event matches Some(k) && k.code == KeyCode::Backspace),
        editor_key_of(event) == EditorKey::DeleteToHead <==> (event matches Some(k) && k.code == KeyCode::Char('u')
            && k.modifiers == control_modifier()),
        editor_key_of(event) == EditorKey::Other <==> !(event matches Some(k) && (k.code == KeyCode::Esc || k.code
            == KeyCode::Enter || k.code == KeyCode::Backspace || (k.code == KeyCode::Char('u') && k.modifiers
            == control_modifier()))),
{
}

/// The commands after which the terminal is brought back up: those that
/// leave it to another program or to the shell, and those that change the
/// module's size or kind.
pub open spec fn command_restarts(cmd: Command) -> bool {
    ||| cmd == Command::Suspend
    ||| cmd == Command::OpenFileBrowser
    ||| cmd == Command::AppendFromFiles
    ||| cmd == Command::OutputToFiles
    ||| cmd == Command::EditOrAddNote
    ||| cmd == Command::FzfSearch
    ||| cmd == Command::PotatoIncreasePomodoro
    ||| cmd == Command::PotatoDecreasePomodoro
    ||| cmd == Command::PotatoNext
    ||| cmd == Command::PotatoPrev
}

/// A binding of normal mode restarts the terminal exactly when its command
/// does, or when it is the batch edit bound without modifiers (the one bound
/// with control does not restart).
pub proof fn law_restarting_bindings()
    ensures
        forall|i: int|
            0 <= i < table_len() ==> ((#[trigger] normal_keymap_table()[i]).1.action.operation
                == HandlerOperation::Restart <==> (command_restarts(normal_keymap_table()[i].1.action.command) || (
            normal_keymap_table()[i].1.action.command == Command::BatchEditMessages
                && normal_keymap_table()[i].0.modifiers == no_modifiers()))),
{
    assert forall|i: int| 0 <= i < table_len() implies ((#[trigger] normal_keymap_table()[i]).1.action.operation
        == HandlerOperation::Restart <==> (command_restarts(normal_keymap_table()[i].1.action.command) || (
    normal_keymap_table()[i].1.action.command == Command::BatchEditMessages
        && normal_keymap_table()[i].0.modifiers == no_modifiers()))) by {
        assert(normal_keymap_table()[i] == table_entry(i));
    }
}

} // verus!
