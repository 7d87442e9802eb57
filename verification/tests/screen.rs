use c3_tui::bindings::create_normal_keymaps;
use c3_tui::layout::{Constraint, Rect};
use c3_tui::screen::{column_layout_constraints, main_layout_constraints, row_layout_constraints};
use c3_tui::screen::{
    dependency_rows, get_default_help_page, help_window, rendered_note, title, todo_widget_kind, TodoWidgetKind,
};
use c3_tui::text::trim_end;
use c3_tui::tui::{Mode, TuiArgs, TuiApp};

fn state(minimal_render: bool, enable_module: bool) -> TuiApp {
    TuiApp::new(TuiArgs { minimal_render, highlight_string: "->".to_string(), enable_module, no_glow: true })
}

#[test]
fn title_text() {
    assert_eq!(title(false, 0, None), "Todos (0)");
    assert_eq!(title(true, 5, None), "Todos (5)*");
    assert_eq!(title(true, 12, Some("groceries")), "Todos (12)* groceries");
    assert_eq!(title(false, 3, Some("work")), "Todos (3) work");
}

#[test]
fn help_entries() {
    let entries = get_default_help_page(&create_normal_keymaps());
    assert_eq!(entries.len(), 64);
    assert_eq!(entries[0], ("?".to_string(), "Toggle help window".to_string()));
    assert_eq!(entries[2], ("Ctrl+z".to_string(), "Suspend application (Unix)".to_string()));
    assert!(entries.contains(&("Home".to_string(), "Go to top".to_string())));
    assert!(entries.contains(&("Enter".to_string(), "Traverse down".to_string())));
}

#[test]
fn help_window_is_centred() {
    let r = help_window(Rect { x: 0, y: 0, width: 80, height: 25 });
    assert_eq!(r, Rect { x: 20, y: 6, width: 40, height: 12 });
}

#[test]
fn rows_inside_border() {
    assert_eq!(dependency_rows(2), 0);
    assert_eq!(dependency_rows(10), 8);
}

#[test]
fn widget_kind() {
    assert_eq!(todo_widget_kind(&vec![]), TodoWidgetKind::Placeholder);
    assert_eq!(todo_widget_kind(&vec!["a".to_string()]), TodoWidgetKind::List);
}

#[test]
fn displayed_range_minimal() {
    let s = state(true, false);
    assert_eq!(s.displayed_range(3, 100, 12), Some((3, 13)));
    assert_eq!(s.displayed_range(3, 5, 12), Some((3, 5)));
    assert_eq!(s.displayed_range(0, 5, 2), Some((0, 0)));
    assert_eq!(state(false, false).displayed_range(3, 100, 12), None);
}

#[test]
fn dependency_and_wait() {
    let s = state(false, true);
    assert!(s.is_dependency_enabled(Some(true), true));
    assert!(!s.is_dependency_enabled(Some(true), false));
    assert!(!s.is_dependency_enabled(Some(false), true));
    assert!(!s.is_dependency_enabled(None, true));
    assert_eq!(s.input_wait(250), Some(250));
    assert_eq!(state(false, false).input_wait(250), None);
    assert_eq!(s.highlight_string(), "->");
}

#[test]
fn screen_areas_without_module() {
    let s = state(false, false);
    let screen = Rect { x: 0, y: 0, width: 100, height: 40 };
    let a = s.screen_areas(screen, false);
    assert_eq!(a.module, None);
    assert!(a.select_current);
    assert_eq!(a.input.height, 0);
    assert_eq!(a.todos, Rect { x: 0, y: 0, width: 100, height: 40 });
    assert_eq!(a.dependency.width, 0);
}

#[test]
fn screen_areas_with_module_dependency_and_prompt() {
    let mut s = state(true, true);
    s.prepend_prompt();
    assert_eq!(s.mode, Mode::Editing);
    let screen = Rect { x: 0, y: 0, width: 100, height: 40 };
    let a = s.screen_areas(screen, true);
    assert_eq!(a.module, Some(Rect { x: 0, y: 0, width: 100, height: 5 }));
    assert!(!a.select_current);
    assert_eq!(a.input, Rect { x: 0, y: 5, width: 60, height: 3 });
    assert_eq!(a.todos, Rect { x: 0, y: 8, width: 60, height: 32 });
    assert_eq!(a.dependency, Rect { x: 60, y: 5, width: 40, height: 35 });
}

#[test]
fn note_rendering() {
    assert_eq!(rendered_note(b"# Title  \r\nline two\t\n\nend"), "# Title\nline two\n\nend\n");
    assert_eq!(rendered_note(b""), "");
    assert_eq!(rendered_note(&[0xff, 0xfe, b'a']), "");
    assert_eq!(rendered_note("caf\u{e9} \u{3000}\n".as_bytes()), "caf\u{e9}\n");
}

#[test]
fn trim_end_examples() {
    assert_eq!(trim_end("a b  "), "a b");
    assert_eq!(trim_end("   "), "");
    assert_eq!(trim_end(""), "");
    assert_eq!(trim_end(" x"), " x");
}

#[test]
fn note_rendering_line_endings() {
    // a bare carriage return is no line ending, and is white space at the end
    assert_eq!(rendered_note(b"x\r"), "x\n");
    assert_eq!(rendered_note(b"a\rb"), "a\rb\n");
    // an empty line in the middle stays, the final line ending is optional
    assert_eq!(rendered_note(b"a\n\n"), "a\n\n");
    assert_eq!(rendered_note(b"a\r\nb"), "a\nb\n");
    assert_eq!(rendered_note(b"\n"), "\n");
}

#[test]
fn displayed_range_small_area_without_minimal_render() {
    let s = state(false, false);
    assert_eq!(s.displayed_range(0, 5, 0), None);
    assert_eq!(s.displayed_range(0, 5, 1), None);
}

#[test]
fn layout_constraints_and_area_assignment() {
    assert_eq!(main_layout_constraints(true), vec![Constraint::Length(5), Constraint::Min(0)]);
    assert_eq!(main_layout_constraints(false), vec![Constraint::Min(0)]);
    assert_eq!(column_layout_constraints(true), vec![Constraint::Percentage(60), Constraint::Percentage(40)]);
    assert_eq!(column_layout_constraints(false), vec![Constraint::Percentage(100), Constraint::Percentage(0)]);
    assert_eq!(row_layout_constraints(Mode::Editing), vec![Constraint::Length(3), Constraint::Min(0)]);
    assert_eq!(row_layout_constraints(Mode::Normal), vec![Constraint::Length(0), Constraint::Min(0)]);
    let r = |x: u16| Rect { x, y: 0, width: 1, height: 1 };
    let s = state(true, true);
    let a = s.areas_from_splits(&vec![r(1), r(2)], &vec![r(3), r(4)], &vec![r(5), r(6)]);
    assert_eq!(a.module, Some(r(1)));
    assert_eq!(a.input, r(5));
    assert_eq!(a.todos, r(6));
    assert_eq!(a.dependency, r(4));
    assert!(!a.select_current);
    let a = state(false, false).areas_from_splits(&vec![r(1)], &vec![r(3), r(4)], &vec![r(5), r(6)]);
    assert_eq!(a.module, None);
    assert!(a.select_current);
}

#[test]
fn screen_areas_lie_inside_the_screen() {
    let screen = Rect { x: 2, y: 1, width: 50, height: 20 };
    for module in [false, true] {
        for dep in [false, true] {
            let a = state(false, module).screen_areas(screen, dep);
            for r in [a.input, a.todos, a.dependency].into_iter().chain(a.module) {
                assert!(r.x >= screen.x && r.x + r.width <= screen.x + screen.width);
                assert!(r.y >= screen.y && r.y + r.height <= screen.y + screen.height);
            }
        }
    }
}

#[test]
fn screen_areas_span_across_their_splits() {
    let screen = Rect { x: 3, y: 2, width: 70, height: 30 };
    let mut s = state(false, true);
    s.prepend_prompt();
    let a = s.screen_areas(screen, true);
    let m = a.module.unwrap();
    assert_eq!((m.x, m.width), (screen.x, screen.width));
    assert_eq!((a.input.x, a.input.width), (a.todos.x, a.todos.width));
    assert!(a.dependency.y <= a.input.y && a.todos.y + a.todos.height <= a.dependency.y + a.dependency.height);
}
