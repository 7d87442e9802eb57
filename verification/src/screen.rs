//! The numbers and texts behind what the screen shows: the title of the list,
//! the help entries, the layout, the part of the list that is drawn.
use vstd::prelude::*;
use vstd::string::*;
use crate::keymap::{KeymapManager, bindings_view};
use crate::keys::{key_event_text, key_event_to_string};
use crate::text::{decimal_text, lines_of, text_lines, trim_end, trimmed_end, u64_text, utf8_text};
use crate::tui::{Mode, TuiApp};
use crate::layout::{Constraint, Direction, Rect, across, split_area, within};

verus! {

/// The title of the list: its size, a star when it has unsaved changes, and
/// the message of the parent todo when there is one.
pub open spec fn title_text(changed: bool, size: nat, parent: Option<Seq<char>>) -> Seq<char> {
    let todos = "Todos ("@ + decimal_text(size) + ")"@ + if changed {
        "*"@
    } else {
        ""@
    };
    match parent {
        Some(message) => todos + " "@ + message,
        None => todos,
    }
}

/// The title of the list.
pub fn title(list_changed: bool, size: usize, parent_message: Option<&str>) -> (r: String)
    ensures
        r@ == title_text(
            list_changed,
            size as nat,
            match parent_message {
                Some(m) => Some(m@),
                None => None,
            },
        ),
{
    let mut r = String::from_str("Todos (");
    let digits = u64_text(size as u64);
    r.append(digits.as_str());
    r.append(")");
    if list_changed {
        r.append("*");
    } else {
        r.append("");
    }
    match parent_message {
        Some(message) => {
            r.append(" ");
            r.append(message);
        },
        None => {},
    }
    r
}

/// The help entries of a set of bindings: for each binding, in order, the
/// name of its key and its description.
pub fn get_default_help_page(keymap: &KeymapManager) -> (r: Vec<(String, String)>)
    ensures
        r@.len() == keymap@.len(),
        forall|i: int|
            0 <= i < r@.len() ==> (#[trigger] r@[i]).0@ == key_event_text(keymap@[i].0) && r@[i].1@
                == keymap@[i].1.description,
{
    let all = keymap.get_all();
    let mut r: Vec<(String, String)> = Vec::new();
    let mut i: usize = 0;
    while i < all.len()
        invariant
            bindings_view(all@) == keymap@,
            i <= all@.len(),
            r@.len() == i,
            forall|j: int|
                0 <= j < i ==> (#[trigger] r@[j]).0@ == key_event_text(keymap@[j].0) && r@[j].1@
                    == keymap@[j].1.description,
        decreases all@.len() - i,
    {
        assert(keymap@[i as int] == (all@[i as int].0, all@[i as int].1@));
        let key = key_event_to_string(&all[i].0);
        let description = all[i].1.description.clone();
        r.push((key, description));
        i = i + 1;
    }
    r
}

/// What is drawn of the current list.
#[derive(Clone, Copy, Debug, PartialEq, Eq)]
pub enum TodoWidgetKind {
    /// "No todo." in place of an empty list.
    Placeholder,
    /// The todos as a list.
    List,
}

/// The placeholder for an empty list, a list otherwise.
pub fn todo_widget_kind(display_list: &Vec<String>) -> (r: TodoWidgetKind)
    ensures
        r is Placeholder <==> display_list@.len() == 0,
{
    if display_list.len() == 0 {
        TodoWidgetKind::Placeholder
    } else {
        TodoWidgetKind::List
    }
}

/// The floating help window: half the width and height of the screen, centred.
pub fn help_window(screen: Rect) -> (r: Rect)
    ensures
        r == (Rect { x: screen.width / 4, y: screen.height / 4, width: screen.width / 2, height: screen.height / 2 }),
{
    Rect { x: screen.width / 4, y: screen.height / 4, width: screen.width / 2, height: screen.height / 2 }
}

/// The rows of a panel inside its border.
pub fn dependency_rows(height: u16) -> (r: usize)
    requires
        height >= 2,
    ensures
        r == height - 2,
{
    height as usize - 2
}

/// Where things are drawn.
#[derive(Clone, Copy, Debug, PartialEq, Eq)]
pub struct ScreenAreas {
    /// The module, when it is shown.
    pub module: Option<Rect>,
    /// The text field (of no height outside editing mode).
    pub input: Rect,
    /// The current list.
    pub todos: Rect,
    /// The dependency panel (of no width when it is not shown).
    pub dependency: Rect,
    /// Whether the list marks its current todo as selected.
    pub select_current: bool,
}

/// The share of the width, in percent, of the dependency panel.
pub open spec fn dependency_width(dependency_enabled: bool) -> u16 {
    if dependency_enabled {
        40
    } else {
        0
    }
}

/// The parts asked for at the top level: the module's five rows above the
/// rest when the module is shown, otherwise the whole screen.
pub open spec fn main_constraints(enable_module: bool) -> Seq<Constraint> {
    if enable_module {
        seq![Constraint::Length(5), Constraint::Min(0)]
    } else {
        seq![Constraint::Min(0)]
    }
}

/// The columns: the list and the dependency panel, by percentage of the width.
pub open spec fn column_constraints(dependency_enabled: bool) -> Seq<Constraint> {
    let w = dependency_width(dependency_enabled);
    seq![Constraint::Percentage((100 - w) as u16), Constraint::Percentage(w)]
}

/// The rows of the list column: three rows of text field in editing mode
/// (none otherwise) above the list.
pub open spec fn row_constraints(mode: Mode) -> Seq<Constraint> {
    let input_height: u16 = if mode == Mode::Editing { 3 } else { 0 };
    seq![Constraint::Length(input_height), Constraint::Min(0)]
}

/// The area of the top-level split that holds the list and the dependency
/// panel: below the module when it is shown.
pub open spec fn list_column_area(enable_module: bool, main: Seq<Rect>) -> Rect {
    if enable_module {
        main[1]
    } else {
        main[0]
    }
}

/// `parts` is a possible outcome of splitting `area` in `direction` under
/// `constraints`: one part for each constraint, each inside the area and
/// spanning it across the direction of the split.
pub open spec fn split_outcome(direction: Direction, constraints: Seq<Constraint>, area: Rect, parts: Seq<Rect>) -> bool {
    &&& parts.len() == constraints.len()
    &&& forall|i: int| 0 <= i < parts.len() ==> within(#[trigger] parts[i], area)
    &&& forall|i: int| 0 <= i < parts.len() ==> across(direction, #[trigger] parts[i], area)
}

/// The areas of the screen, given the three splits: the module is the first
/// top-level part when it is shown; the text field and the list are the rows
/// of the first column, and the dependency panel is the second column.
pub open spec fn areas_of(s: TuiApp, main: Seq<Rect>, columns: Seq<Rect>, rows: Seq<Rect>) -> ScreenAreas {
    ScreenAreas {
        module: if s.args.enable_module { Some(main[0]) } else { None },
        input: rows[0],
        todos: rows[1],
        dependency: columns[1],
        select_current: !s.args.minimal_render,
    }
}

/// The parts asked for at the top level.
pub fn main_layout_constraints(enable_module: bool) -> (r: Vec<Constraint>)
    ensures
        r@ == main_constraints(enable_module),
{
    let mut r: Vec<Constraint> = Vec::new();
    if enable_module {
        r.push(Constraint::Length(5));
    }
    r.push(Constraint::Min(0));
    assert(r@ =~= main_constraints(enable_module));
    r
}

/// The columns of the list and the dependency panel.
pub fn column_layout_constraints(dependency_enabled: bool) -> (r: Vec<Constraint>)
    ensures
        r@ == column_constraints(dependency_enabled),
{
    let w: u16 = if dependency_enabled { 40 } else { 0 };
    let mut r: Vec<Constraint> = Vec::new();
    r.push(Constraint::Percentage(100 - w));
    r.push(Constraint::Percentage(w));
    assert(r@ =~= column_constraints(dependency_enabled));
    r
}

/// The rows of the list column.
pub fn row_layout_constraints(mode: Mode) -> (r: Vec<Constraint>)
    ensures
        r@ == row_constraints(mode),
{
    let input_height: u16 = match mode {
        Mode::Editing => 3,
        Mode::Normal => 0,
    };
    let mut r: Vec<Constraint> = Vec::new();
    r.push(Constraint::Length(input_height));
    r.push(Constraint::Min(0));
    assert(r@ =~= row_constraints(mode));
    r
}

impl TuiApp {
    /// Which part of each split becomes which area of the screen.
    pub fn areas_from_splits(&self, main: &Vec<Rect>, columns: &Vec<Rect>, rows: &Vec<Rect>) -> (r: ScreenAreas)
        requires
            main@.len() == main_constraints(self.args.enable_module).len(),
            columns@.len() == 2,
            rows@.len() == 2,
        ensures
            r == areas_of(*self, main@, columns@, rows@),
    {
        ScreenAreas {
            module: if self.args.enable_module { Some(main[0]) } else { None },
            input: rows[0],
            todos: rows[1],
            dependency: columns[1],
            select_current: !self.args.minimal_render,
        }
    }

    /// The areas of the screen for the current state: the screen is split
    /// from top to bottom under the top-level constraints, the list column
    /// (below the module, when it is shown) from left to right under the
    /// column constraints, and the first column from top to bottom under the
    /// row constraints.
    pub fn screen_areas(&self, screen: Rect, dependency_enabled: bool) -> (r: ScreenAreas)
        ensures
            exists|main: Seq<Rect>, columns: Seq<Rect>, rows: Seq<Rect>|
                #![trigger areas_of(*self, main, columns, rows)]
                {
                    &&& split_outcome(Direction::Vertical, main_constraints(self.args.enable_module), screen, main)
                    &&& split_outcome(
                        Direction::Horizontal,
                        column_constraints(dependency_enabled),
                        list_column_area(self.args.enable_module, main),
                        columns,
                    )
                    &&& split_outcome(Direction::Vertical, row_constraints(self.mode), columns[0], rows)
                    &&& r == areas_of(*self, main, columns, rows)
                },
            r.module is Some <==> self.args.enable_module,
            r.module matches Some(m) ==> within(m, screen) && across(Direction::Vertical, m, screen),
            within(r.input, screen),
            within(r.todos, screen),
            within(r.dependency, screen),
            r.input.x == r.todos.x && r.input.width == r.todos.width,
            r.dependency.y <= r.input.y,
            r.input.y + r.input.height <= r.dependency.y + r.dependency.height,
            r.dependency.y <= r.todos.y,
            r.todos.y + r.todos.height <= r.dependency.y + r.dependency.height,
            r.select_current == !self.args.minimal_render,
    {
        let main_constraints = main_layout_constraints(self.args.enable_module);
        let main = split_area(Direction::Vertical, &main_constraints, screen);
        let main_area = if self.args.enable_module { main[1] } else { main[0] };
        let column_constraints = column_layout_constraints(dependency_enabled);
        let columns = split_area(Direction::Horizontal, &column_constraints, main_area);
        let row_constraints = row_layout_constraints(self.mode);
        let rows = split_area(Direction::Vertical, &row_constraints, columns[0]);
        let r = self.areas_from_splits(&main, &columns, &rows);
        assert(r == areas_of(*self, main@, columns@, rows@));
        r
    }

    /// The text in front of the highlighted todo.
    pub fn highlight_string(&self) -> (r: &str)
        ensures
            r@ == self.args.highlight_string@,
    {
        self.args.highlight_string.as_str()
    }

    /// Whether the dependency panel is shown: the right panel is on, the
    /// list is a tree, and there is a current todo with a dependency.
    /// `current_has_dependency` is `None` when there is no current todo.
    pub fn is_dependency_enabled(&self, current_has_dependency: Option<bool>, is_tree: bool) -> (r: bool)
        ensures
            r == match current_has_dependency {
                Some(d) => self.show_right && d && is_tree,
                None => false,
            },
    {
        match current_has_dependency {
            Some(d) => self.show_right && d && is_tree,
            None => false,
        }
    }

    /// How long to wait for a key: with the module shown, at most its update
    /// time in milliseconds; otherwise until a key comes (`None`).
    pub fn input_wait(&self, update_time_ms: u64) -> (r: Option<u64>)
        ensures
            r == if self.args.enable_module {
                Some(update_time_ms)
            } else {
                None::<u64>
            },
    {
        if self.args.enable_module {
            Some(update_time_ms)
        } else {
            None
        }
    }

    /// The part of the current list that is drawn: with minimal rendering,
    /// from the current todo to as many as fit in a panel of `height` rows
    /// (borders excluded) or to the end; otherwise the whole list (`None`).
    pub fn displayed_range(&self, index: usize, len: usize, height: u16) -> (r: Option<(usize, usize)>)
        requires
            self.args.minimal_render ==> index + height >= 2,
            self.args.minimal_render ==> index + height <= usize::MAX,
        ensures
            r == if self.args.minimal_render {
                Some((index, if len <= height + index - 2 { len } else { (height + index - 2) as usize }))
            } else {
                None::<(usize, usize)>
            },
    {
        if self.args.minimal_render {
            let fit = height as usize + index - 2;
            let last = if len <= fit { len } else { fit };
            Some((index, last))
        } else {
            None
        }
    }
}

/// The lines of a note, each without the white space at its end and followed
/// by a line break.
pub open spec fn note_lines_text(lines: Seq<Seq<char>>) -> Seq<char>
    decreases lines.len(),
{
    if lines.len() == 0 {
        Seq::empty()
    } else {
        note_lines_text(lines.drop_last()) + trimmed_end(lines.last()) + "\n"@
    }
}

/// The note as the renderer printed it: its output read as UTF-8 (nothing
/// when it is not), then line by line.
pub open spec fn rendered_note_text(output: Seq<u8>) -> Seq<char> {
    let text = if vstd::utf8::valid_utf8(output) {
        vstd::utf8::decode_utf8(output)
    } else {
        Seq::empty()
    };
    note_lines_text(lines_of(text))
}

/// The text shown for a note that an external renderer printed as `output`.
pub fn rendered_note(output: &[u8]) -> (r: String)
    ensures
        r@ == rendered_note_text(output@),
{
    let text = match utf8_text(output) {
        Some(t) => t,
        None => String::new(),
    };
    let lines = text_lines(text.as_str());
    let ghost ls = lines@.map_values(|l: String| l@);
    let mut r = String::new();
    let mut i: usize = 0;
    while i < lines.len()
        invariant
            ls == lines@.map_values(|l: String| l@),
            ls == lines_of(text@),
            i <= lines@.len(),
            r@ == note_lines_text(ls.take(i as int)),
        decreases lines@.len() - i,
    {
        assert(ls.take(i + 1).drop_last() =~= ls.take(i as int));
        let line = trim_end(lines[i].as_str());
        r.append(line.as_str());
        r.append("\n");
        i = i + 1;
    }
    assert(ls.take(lines@.len() as int) =~= ls);
    r
}

} // verus!
