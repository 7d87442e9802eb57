use c3_tui::bindings::create_normal_keymaps;
use c3_tui::keymap::{Action, Command, Keymap, KeymapManager};
use c3_tui::keys::{KeyCode, KeyEvent, KeyModifiers};
use c3_tui::tui::{ActionContext, HandlerOperation, TuiArgs, TuiApp};

fn key(code: KeyCode, bits: u8) -> KeyEvent {
    KeyEvent::new(code, KeyModifiers { bits })
}

fn binding(description: &str, command: Command) -> Keymap {
    Keymap { description: description.to_string(), action: Action { command, operation: HandlerOperation::Nothing } }
}

fn no_context() -> ActionContext {
    ActionContext { current_message: None, unsaved_changes: false }
}

#[test]
fn empty_manager_finds_nothing() {
    let m = KeymapManager::new();
    assert!(m.get_all().is_empty());
    assert_eq!(m.get_action(key(KeyCode::Char('a'), 0)), None);
}

#[test]
fn added_binding_is_found() {
    let mut m = KeymapManager::new();
    m.add(key(KeyCode::Char('a'), 0), binding("A", Command::GoUp));
    m.add(key(KeyCode::Char('b'), 0), binding("B", Command::GoDown));
    assert_eq!(m.get_action(key(KeyCode::Char('a'), 0)).unwrap().command, Command::GoUp);
    assert_eq!(m.get_action(key(KeyCode::Char('b'), 0)).unwrap().command, Command::GoDown);
    assert_eq!(m.get_action(key(KeyCode::Char('c'), 0)), None);
    assert_eq!(m.get_all().len(), 2);
}

#[test]
fn rebinding_replaces_the_binding_and_keeps_the_first_key() {
    let mut m = KeymapManager::new();
    m.add(key(KeyCode::Char('X'), 0), binding("first", Command::GoUp));
    m.add(key(KeyCode::Char('x'), 1), binding("second", Command::GoDown));
    let all = m.get_all();
    assert_eq!(all.len(), 1);
    assert_eq!(all[0].0, key(KeyCode::Char('X'), 0));
    assert_eq!(all[0].1.description, "second");
    assert_eq!(m.get_action(key(KeyCode::Char('X'), 1)).unwrap().command, Command::GoDown);
}

#[test]
fn from_keeps_later_binding() {
    let m = KeymapManager::from(vec![
        (key(KeyCode::Char('k'), 0), binding("up", Command::GoUp)),
        (key(KeyCode::Char('j'), 0), binding("down", Command::GoDown)),
        (key(KeyCode::Char('k'), 0), binding("top", Command::GoTop)),
    ]);
    assert_eq!(m.get_all().len(), 2);
    assert_eq!(m.get_all()[0].1.description, "top");
    assert_eq!(m.get_action(key(KeyCode::Char('k'), 0)).unwrap().command, Command::GoTop);
}

#[test]
fn normal_keymaps_table() {
    let m = create_normal_keymaps();
    assert_eq!(m.get_all().len(), 64);
    let first = &m.get_all()[0];
    assert_eq!(first.0, key(KeyCode::Char('?'), 0));
    assert_eq!(first.1.description, "Toggle help window");
    let last = &m.get_all()[63];
    assert_eq!(last.0, key(KeyCode::Char(','), 0));
    assert_eq!(last.1.description, "Previous potato module");
    assert_eq!(last.1.action.operation, HandlerOperation::Restart);
}

#[test]
fn normal_keymaps_actions() {
    let m = create_normal_keymaps();
    let ctrl_r = m.get_action(key(KeyCode::Char('r'), 2)).unwrap();
    assert_eq!(ctrl_r, Action { command: Command::BatchEditMessages, operation: HandlerOperation::Nothing });
    let r = m.get_action(key(KeyCode::Char('r'), 0)).unwrap();
    assert_eq!(r, Action { command: Command::BatchEditMessages, operation: HandlerOperation::Restart });
    assert_eq!(m.get_action(key(KeyCode::Char('I'), 0)).unwrap().command, Command::IncreaseDayBy(-1));
    assert_eq!(m.get_action(key(KeyCode::Char('E'), 1)).unwrap().command, Command::EditPrompt(true));
    assert_eq!(m.get_action(key(KeyCode::Char('W'), 1)).unwrap().command, Command::ToggleWeekly);
    assert_eq!(m.get_action(key(KeyCode::Home, 0)).unwrap().command, Command::GoTop);
    assert_eq!(m.get_action(key(KeyCode::Char('z'), 2)).unwrap().operation, HandlerOperation::Restart);
    assert_eq!(m.get_action(key(KeyCode::Char('u'), 0)), None);
    assert_eq!(m.get_action(key(KeyCode::Char('z'), 0)), None);
}

#[test]
fn do_action_runs_the_bound_command() {
    let m = create_normal_keymaps();
    let mut state = TuiApp::new(TuiArgs {
        minimal_render: false,
        highlight_string: ">>".to_string(),
        enable_module: false,
        no_glow: false,
    });
    let effects = m.do_action(key(KeyCode::Char('?'), 0), &mut state, no_context());
    assert!(effects.is_empty());
    assert!(state.show_help);
    let effects = m.do_action(key(KeyCode::Char('u'), 0), &mut state, no_context());
    assert!(effects.is_empty());
    assert!(state.show_help);
}
