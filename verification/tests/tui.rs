use c3_tui::tui::{matches_schedule_restriction, schedule_day};
use c3_tui::keymap::Command;
use c3_tui::keys::{KeyCode, KeyEvent, KeyModifiers};
use c3_tui::tui::{
    editor_key, editor_operation, on_edit_todo, on_priority_delete, on_priority_prompt, on_save_prompt,
    on_schedule, on_schedule_prompt, on_search_delete, on_tree_search, run_text_handler,
    save_prompt_effects, ActionContext, DeleteHandler, EditorKey, EditorOperation, Effect,
    HandlerOperation, Mode, Prompt, TextHandler, TuiArgs, TuiApp,
};

fn key(code: KeyCode, bits: u8) -> KeyEvent {
    KeyEvent::new(code, KeyModifiers { bits })
}

fn args() -> TuiArgs {
    TuiArgs { minimal_render: false, highlight_string: ">>".to_string(), enable_module: false, no_glow: false }
}

fn ctx(message: Option<&str>, unsaved: bool) -> ActionContext {
    ActionContext { current_message: message.map(|m| m.to_string()), unsaved_changes: unsaved }
}

#[test]
fn new_state() {
    let s = TuiApp::new(args());
    assert!(s.show_right);
    assert!(!s.show_help);
    assert_eq!(s.mode, Mode::Normal);
    assert_eq!(s.on_submit, None);
    assert_eq!(s.on_input, None);
    assert_eq!(s.on_delete, None);
    assert!(!s.restriction_saved);
    assert_eq!(s.args, args());
    assert_eq!(s.normal_keymaps.get_all().len(), 64);
}

#[test]
fn toggle_twice_restores() {
    let mut s = TuiApp::new(args());
    for cmd in [Command::ToggleHelp, Command::ToggleRightPanel, Command::ToggleModule] {
        assert!(s.apply_command(cmd, ctx(None, false)).is_empty());
        assert!(s.apply_command(cmd, ctx(None, false)).is_empty());
    }
    assert!(!s.show_help);
    assert!(s.show_right);
    assert!(!s.args.enable_module);
    s.apply_command(Command::ToggleModule, ctx(None, false));
    assert!(s.args.enable_module);
}

#[test]
fn other_commands_are_performed_by_the_caller() {
    let mut s = TuiApp::new(args());
    assert_eq!(s.apply_command(Command::GoDown, ctx(None, false)), vec![Effect::Perform(Command::GoDown)]);
    assert_eq!(s.mode, Mode::Normal);
}

#[test]
fn normal_key_handling() {
    let mut s = TuiApp::new(args());
    let (effects, op) = s.handle_normal_input(key(KeyCode::Char('o'), 2), ctx(None, false));
    assert_eq!(effects, vec![Effect::Perform(Command::OpenFileBrowser)]);
    assert_eq!(op, HandlerOperation::Restart);
    let (effects, op) = s.handle_normal_input(key(KeyCode::Char('?'), 0), ctx(None, false));
    assert!(effects.is_empty());
    assert_eq!(op, HandlerOperation::Nothing);
    assert!(s.show_help);
    let (effects, op) = s.handle_normal_input(key(KeyCode::F(3), 0), ctx(None, false));
    assert!(effects.is_empty());
    assert_eq!(op, HandlerOperation::Nothing);
}

#[test]
fn search_prompt_then_type_and_submit() {
    let mut s = TuiApp::new(args());
    let effects = s.search_prompt();
    assert_eq!(effects, vec![Effect::SaveRestriction, Effect::OpenPrompt(Prompt::Search)]);
    assert_eq!(s.mode, Mode::Editing);
    assert_eq!(s.on_submit, None);
    assert_eq!(s.on_input, Some(TextHandler::Search));
    assert_eq!(s.on_delete, Some(DeleteHandler::Search));
    assert!(s.restriction_saved);
    let (effects, op) = s.handle_text_input(EditorOperation::Input, "milk".to_string(), false);
    assert_eq!(effects, vec![Effect::SearchRestriction("milk".to_string())]);
    assert_eq!(op, HandlerOperation::Nothing);
    let (effects, _) = s.handle_text_input(EditorOperation::Delete("milk".to_string()), "mil".to_string(), false);
    assert_eq!(effects, vec![Effect::SearchRestriction("mil".to_string())]);
    let (effects, _) = s.handle_text_input(EditorOperation::Submit, "mil".to_string(), false);
    assert_eq!(effects, vec![Effect::ClearInput]);
    assert_eq!(s.mode, Mode::Normal);
}

#[test]
fn cancel_closes_prompt() {
    let mut s = TuiApp::new(args());
    s.prepend_prompt();
    let (effects, _) = s.handle_text_input(EditorOperation::Cancel, "half typed".to_string(), false);
    assert_eq!(effects, vec![Effect::ClearInput]);
    assert_eq!(s.mode, Mode::Normal);
}

#[test]
fn prepend_prompt_submits_append() {
    let mut s = TuiApp::new(args());
    assert_eq!(s.prepend_prompt(), vec![Effect::OpenPrompt(Prompt::AddTodo)]);
    let (effects, _) = s.handle_text_input(EditorOperation::Submit, "buy milk".to_string(), false);
    assert_eq!(effects, vec![Effect::AppendTodo("buy milk".to_string()), Effect::ClearInput]);
    assert_eq!(s.append_prompt(), vec![Effect::OpenPrompt(Prompt::AddTodoFirst)]);
    let (effects, _) = s.handle_text_input(EditorOperation::Submit, "call".to_string(), false);
    assert_eq!(effects, vec![Effect::PrependTodo("call".to_string()), Effect::ClearInput]);
}

#[test]
fn priority_prompt_opens_twice_and_uses_one_handler() {
    let mut s = TuiApp::new(args());
    let effects = s.priority_prompt();
    assert_eq!(
        effects,
        vec![Effect::SaveRestriction, Effect::OpenPrompt(Prompt::Priority), Effect::OpenPrompt(Prompt::Priority)]
    );
    assert_eq!(s.on_submit, Some(TextHandler::PriorityPrompt));
    assert_eq!(s.on_input, Some(TextHandler::PriorityPrompt));
    assert_eq!(s.on_delete, Some(DeleteHandler::Priority));
    let (effects, _) = s.handle_text_input(EditorOperation::Input, "2".to_string(), false);
    assert_eq!(effects, vec![Effect::PriorityRestriction(2)]);
    let (effects, _) = s.handle_text_input(EditorOperation::Delete("2".to_string()), "".to_string(), false);
    assert_eq!(effects, vec![Effect::RestoreRestriction]);
}

#[test]
fn schedule_restriction_prompt_state() {
    let mut s = TuiApp::new(args());
    let effects = s.schedule_restriction_prompt();
    assert_eq!(effects.len(), 3);
    assert_eq!(effects[1], Effect::OpenPrompt(Prompt::ScheduleRestriction));
    assert_eq!(s.on_submit, Some(TextHandler::SchedulePrompt));
    assert_eq!(s.on_input, Some(TextHandler::SchedulePrompt));
    assert_eq!(s.on_delete, Some(DeleteHandler::Priority));
}

#[test]
fn edit_prompt_with_and_without_todo() {
    let mut s = TuiApp::new(args());
    assert!(s.edit_prompt(true, None).is_empty());
    assert_eq!(s.mode, Mode::Normal);
    let effects = s.edit_prompt(true, Some("old text".to_string()));
    assert_eq!(
        effects,
        vec![
            Effect::OpenPrompt(Prompt::Edit("old text".to_string())),
            Effect::InsertInput("old text".to_string()),
            Effect::InputCursorToHead,
        ]
    );
    assert_eq!(s.on_submit, Some(TextHandler::EditTodo));
    let effects = s.apply_command(Command::EditPrompt(false), ctx(Some("x"), false));
    assert_eq!(effects.len(), 2);
}

#[test]
fn quit_save_prompt_cases() {
    let mut s = TuiApp::new(args());
    assert_eq!(s.quit_save_prompt(false), vec![Effect::Quit]);
    assert_eq!(s.mode, Mode::Normal);
    assert_eq!(s.quit_save_prompt(true), vec![Effect::OpenPrompt(Prompt::SaveChanges)]);
    assert_eq!(s.on_submit, Some(TextHandler::SavePrompt));
    assert_eq!(s.mode, Mode::Editing);
}

#[test]
fn save_prompt_answers() {
    assert_eq!(on_save_prompt("Yes".to_string()), vec![Effect::WriteTodos, Effect::Quit]);
    assert_eq!(on_save_prompt("y".to_string()), vec![Effect::WriteTodos, Effect::Quit]);
    assert_eq!(on_save_prompt("Cancel".to_string()), vec![]);
    assert_eq!(on_save_prompt("no".to_string()), vec![Effect::Quit]);
    assert_eq!(on_save_prompt("".to_string()), vec![Effect::Quit]);
    assert_eq!(save_prompt_effects("c"), vec![]);
    assert_eq!(save_prompt_effects("Y"), vec![Effect::Quit]);
}

#[test]
fn schedule_day_parsing() {
    assert_eq!(on_schedule("12".to_string()), vec![Effect::EnableDay(12)]);
    assert_eq!(on_schedule("+7".to_string()), vec![Effect::EnableDay(7)]);
    assert_eq!(on_schedule("007".to_string()), vec![Effect::EnableDay(7)]);
    assert_eq!(on_schedule("-1".to_string()), vec![]);
    assert_eq!(on_schedule("".to_string()), vec![]);
    assert_eq!(on_schedule("1 ".to_string()), vec![]);
    assert_eq!(on_schedule("18446744073709551615".to_string()), vec![Effect::EnableDay(-1)]);
    assert_eq!(on_schedule("18446744073709551616".to_string()), vec![]);
}

#[test]
fn priority_parsing() {
    assert_eq!(on_priority_prompt("".to_string()), vec![Effect::ShowDoneRestriction]);
    assert_eq!(on_priority_prompt("3".to_string()), vec![Effect::PriorityRestriction(3)]);
    assert_eq!(on_priority_prompt("255".to_string()), vec![Effect::PriorityRestriction(255)]);
    assert_eq!(on_priority_prompt("256".to_string()), vec![]);
    assert_eq!(on_priority_prompt("high".to_string()), vec![]);
}

#[test]
fn schedule_restriction_parsing() {
    assert_eq!(on_schedule_prompt("".to_string()), vec![Effect::ShowDoneRestriction]);
    assert_eq!(on_schedule_prompt("-3".to_string()), vec![Effect::ScheduleRestriction(-3)]);
    assert_eq!(on_schedule_prompt("+4".to_string()), vec![Effect::ScheduleRestriction(4)]);
    assert_eq!(on_schedule_prompt("-".to_string()), vec![]);
    assert_eq!(
        on_schedule_prompt("-9223372036854775808".to_string()),
        vec![Effect::ScheduleRestriction(i64::MIN)]
    );
    assert_eq!(on_schedule_prompt("9223372036854775808".to_string()), vec![]);
}

#[test]
fn tree_search_moves_unless_current_matches() {
    assert_eq!(
        on_tree_search("milk".to_string(), false),
        vec![Effect::TreeSearch("milk".to_string()), Effect::Perform(Command::NextSearchResult)]
    );
    assert_eq!(on_tree_search("milk".to_string(), true), vec![Effect::TreeSearch("milk".to_string())]);
}

#[test]
fn edit_todo_ignores_empty_text() {
    assert_eq!(on_edit_todo("".to_string()), vec![]);
    assert_eq!(on_edit_todo("new".to_string()), vec![Effect::SetMessage("new".to_string())]);
}

#[test]
fn delete_handlers() {
    assert_eq!(on_search_delete("a".to_string(), "".to_string()), vec![Effect::ShowDoneRestriction]);
    assert_eq!(on_search_delete("a".to_string(), "ab".to_string()), vec![Effect::SearchRestriction("a".to_string())]);
    assert_eq!(
        on_priority_delete("".to_string(), "".to_string(), true),
        vec![Effect::RestoreRestriction, Effect::ShowDoneRestriction]
    );
    assert_eq!(on_priority_delete("".to_string(), "1".to_string(), false), vec![]);
    assert_eq!(on_priority_delete("1".to_string(), "".to_string(), true), vec![Effect::ShowDoneRestriction]);
}

#[test]
fn reminder_and_handler_dispatch() {
    assert_eq!(
        run_text_handler(TextHandler::Reminder, "tomorrow".to_string(), false),
        vec![Effect::SetReminder("tomorrow".to_string())]
    );
    assert_eq!(
        run_text_handler(TextHandler::Search, "x".to_string(), true),
        vec![Effect::SearchRestriction("x".to_string())]
    );
}

#[test]
fn editor_keys() {
    assert_eq!(editor_key(Some(key(KeyCode::Esc, 0))), EditorKey::Cancel);
    assert_eq!(editor_key(Some(key(KeyCode::Enter, 0))), EditorKey::Submit);
    assert_eq!(editor_key(Some(key(KeyCode::Char('u'), 2))), EditorKey::DeleteToHead);
    assert_eq!(editor_key(Some(key(KeyCode::Char('u'), 0))), EditorKey::Other);
    assert_eq!(editor_key(Some(key(KeyCode::Char('u'), 6))), EditorKey::Other);
    assert_eq!(editor_key(Some(key(KeyCode::Backspace, 0))), EditorKey::DeleteChar);
    assert_eq!(editor_key(None), EditorKey::Other);
    assert_eq!(editor_operation(EditorKey::DeleteChar, "ab".to_string()), EditorOperation::Delete("ab".to_string()));
    assert_eq!(editor_operation(EditorKey::Other, "ab".to_string()), EditorOperation::Input);
}

#[test]
fn prompt_titles() {
    assert_eq!(Prompt::Search.title(), "Search todo");
    assert_eq!(Prompt::Search.placeholder(), "Enter search query");
    assert_eq!(Prompt::Edit("m".to_string()).placeholder(), "m");
    assert_eq!(Prompt::SaveChanges.placeholder(), "N/y/c");
    assert_eq!(Prompt::Schedule.placeholder(), "");
}

#[test]
fn action_context_unsaved_changes() {
    let c = ActionContext::new(Some("m".to_string()), false, true);
    assert!(c.unsaved_changes);
    assert_eq!(c.current_message, Some("m".to_string()));
    assert!(!ActionContext::new(None, false, false).unsaved_changes);
    assert!(ActionContext::new(None, true, false).unsaved_changes);
}

#[test]
fn schedule_day_of_todos() {
    assert_eq!(schedule_day(false, false, 7), 0);
    assert_eq!(schedule_day(true, true, 7), 0);
    assert_eq!(schedule_day(true, false, 7), 7);
    assert!(matches_schedule_restriction(true, false, 3, 3));
    assert!(!matches_schedule_restriction(true, true, 3, 3));
    assert!(matches_schedule_restriction(true, true, 3, 0));
    assert!(matches_schedule_restriction(false, false, 0, 0));
    assert!(!matches_schedule_restriction(true, false, -2, 2));
}
