//! The key bindings of normal mode.
use vstd::prelude::*;
use vstd::string::*;
use crate::keys::{KeyCode, KeyEvent, KeyEventKind, KeyModifiers, key_event_text, normalized, press, same_key};
use crate::keymap::{Action, Command, Keymap, KeymapManager, KeymapView, bindings_view, keys_distinct, lemma_collected_identity, lemma_lookup_at, lookup, has_key};
use crate::tui::HandlerOperation;

verus! {

/// The binding of `code` with modifier bits `bits`.
pub open spec fn entry(code: KeyCode, bits: u8, description: Seq<char>, command: Command, operation: HandlerOperation) -> (KeyEvent, KeymapView) {
    (press(code, KeyModifiers { bits }), KeymapView { description, action: Action { command, operation } })
}

/// The number of bindings of normal mode.
pub open spec fn table_len() -> nat {
    64
}

/// The bindings of normal mode, in the order they are registered: key,
/// description and action of entry `i`.
pub open spec fn table_entry(i: int) -> (KeyEvent, KeymapView) {
    if i == 0 {
        entry(KeyCode::Char('?'), 0, "Toggle help window"@, Command::ToggleHelp, HandlerOperation::Nothing)
    } else if i == 1 {
        entry(KeyCode::Char('a'), 0, "Prepend todo"@, Command::PrependPrompt, HandlerOperation::Nothing)
    } else if i == 2 {
        entry(KeyCode::Char('z'), 2, "Suspend application (Unix)"@, Command::Suspend, HandlerOperation::Restart)
    } else if i == 3 {
        entry(KeyCode::Char('o'), 2, "Open file browser"@, Command::OpenFileBrowser, HandlerOperation::Restart)
    } else if i == 4 {
        entry(KeyCode::Char('x'), 0, "Remove todo and yank"@, Command::RemoveTodoAndYank, HandlerOperation::Nothing)
    } else if i == 5 {
        entry(KeyCode::Char('d'), 0, "Toggle daily"@, Command::ToggleDaily, HandlerOperation::Nothing)
    } else if i == 6 {
        entry(KeyCode::Char('W'), 0, "Toggle weekly"@, Command::ToggleWeekly, HandlerOperation::Nothing)
    } else if i == 7 {
        entry(KeyCode::Char('S'), 0, "Schedule prompt"@, Command::SchedulePrompt, HandlerOperation::Nothing)
    } else if i == 8 {
        entry(KeyCode::Char('m'), 0, "Reminder prompt"@, Command::ReminderPrompt, HandlerOperation::Nothing)
    } else if i == 9 {
        entry(KeyCode::Char('M'), 0, "Toggle schedule"@, Command::ToggleSchedule, HandlerOperation::Nothing)
    } else if i == 10 {
        entry(KeyCode::Char('!'), 0, "Toggle show done"@, Command::ToggleShowDone, HandlerOperation::Nothing)
    } else if i == 11 {
        entry(KeyCode::Char('@'), 0, "Priority prompt"@, Command::PriorityPrompt, HandlerOperation::Nothing)
    } else if i == 12 {
        entry(KeyCode::Char('%'), 0, "Schedule restriction prompt"@, Command::ScheduleRestrictionPrompt, HandlerOperation::Nothing)
    } else if i == 13 {
        entry(KeyCode::Char('y'), 0, "Yank todo"@, Command::YankTodo, HandlerOperation::Nothing)
    } else if i == 14 {
        entry(KeyCode::Char('p'), 0, "Paste todo"@, Command::PasteTodo, HandlerOperation::Nothing)
    } else if i == 15 {
        entry(KeyCode::Char('i'), 0, "Increase day by 1"@, Command::IncreaseDayBy(1i64), HandlerOperation::Nothing)
    } else if i == 16 {
        entry(KeyCode::Char('I'), 0, "Increase day by -1"@, Command::IncreaseDayBy(-1i64), HandlerOperation::Nothing)
    } else if i == 17 {
        entry(KeyCode::Char('o'), 0, "Append todo"@, Command::AppendFromFiles, HandlerOperation::Restart)
    } else if i == 18 {
        entry(KeyCode::Char('O'), 0, "Output todo"@, Command::OutputToFiles, HandlerOperation::Restart)
    } else if i == 19 {
        entry(KeyCode::Down, 0, "Move down"@, Command::GoDown, HandlerOperation::Nothing)
    } else if i == 20 {
        entry(KeyCode::Char('j'), 0, "Move down"@, Command::GoDown, HandlerOperation::Nothing)
    } else if i == 21 {
        entry(KeyCode::Up, 0, "Move up"@, Command::GoUp, HandlerOperation::Nothing)
    } else if i == 22 {
        entry(KeyCode::Char('k'), 0, "Move up"@, Command::GoUp, HandlerOperation::Nothing)
    } else if i == 23 {
        entry(KeyCode::Right, 0, "Move right"@, Command::AddDependencyTraverseDown, HandlerOperation::Nothing)
    } else if i == 24 {
        entry(KeyCode::Char('l'), 0, "Move right"@, Command::AddDependencyTraverseDown, HandlerOperation::Nothing)
    } else if i == 25 {
        entry(KeyCode::Enter, 0, "Traverse down"@, Command::TraverseDown, HandlerOperation::Nothing)
    } else if i == 26 {
        entry(KeyCode::Left, 0, "Move left"@, Command::TraverseUp, HandlerOperation::Nothing)
    } else if i == 27 {
        entry(KeyCode::Char('h'), 0, "Move left"@, Command::TraverseUp, HandlerOperation::Nothing)
    } else if i == 28 {
        entry(KeyCode::Home, 0, "Go to top"@, Command::GoTop, HandlerOperation::Nothing)
    } else if i == 29 {
        entry(KeyCode::Char('g'), 0, "Go to top"@, Command::GoTop, HandlerOperation::Nothing)
    } else if i == 30 {
        entry(KeyCode::End, 0, "Go to bottom"@, Command::GoBottom, HandlerOperation::Nothing)
    } else if i == 31 {
        entry(KeyCode::Char('G'), 0, "Go to bottom"@, Command::GoBottom, HandlerOperation::Nothing)
    } else if i == 32 {
        entry(KeyCode::Char('w'), 0, "Write"@, Command::Write, HandlerOperation::Nothing)
    } else if i == 33 {
        entry(KeyCode::Char('J'), 0, "Move current down"@, Command::MoveCurrentDown, HandlerOperation::Nothing)
    } else if i == 34 {
        entry(KeyCode::Char('K'), 0, "Move current up"@, Command::MoveCurrentUp, HandlerOperation::Nothing)
    } else if i == 35 {
        entry(KeyCode::Char(']'), 0, "Toggle right panel"@, Command::ToggleRightPanel, HandlerOperation::Nothing)
    } else if i == 36 {
        entry(KeyCode::Char('P'), 0, "Toggle module"@, Command::ToggleModule, HandlerOperation::Nothing)
    } else if i == 37 {
        entry(KeyCode::Char('>'), 0, "Edit or add note"@, Command::EditOrAddNote, HandlerOperation::Restart)
    } else if i == 38 {
        entry(KeyCode::Char('t'), 0, "Add dependency"@, Command::AddDependency, HandlerOperation::Nothing)
    } else if i == 39 {
        entry(KeyCode::Char('D'), 0, "Remove todo"@, Command::RemoveTodo, HandlerOperation::Nothing)
    } else if i == 40 {
        entry(KeyCode::Char('R'), 0, "Read"@, Command::Read, HandlerOperation::Nothing)
    } else if i == 41 {
        entry(KeyCode::Char('T'), 0, "Remove current dependent"@, Command::RemoveCurrentDependent, HandlerOperation::Nothing)
    } else if i == 42 {
        entry(KeyCode::Char(' '), 0, "Toggle current done"@, Command::ToggleCurrentDone, HandlerOperation::Nothing)
    } else if i == 43 {
        entry(KeyCode::Char('n'), 0, "Next search result"@, Command::NextSearchResult, HandlerOperation::Nothing)
    } else if i == 44 {
        entry(KeyCode::Char('/'), 0, "Search prompt"@, Command::SearchPrompt, HandlerOperation::Nothing)
    } else if i == 45 {
        entry(KeyCode::Char('\''), 0, "Tree search prompt"@, Command::TreeSearchPrompt, HandlerOperation::Nothing)
    } else if i == 46 {
        entry(KeyCode::Char('A'), 0, "Append todo at first"@, Command::AppendPrompt, HandlerOperation::Nothing)
    } else if i == 47 {
        entry(KeyCode::Char('e'), 0, "Edit todo"@, Command::EditPrompt(false), HandlerOperation::Nothing)
    } else if i == 48 {
        entry(KeyCode::Char('E'), 0, "Edit todo (start)"@, Command::EditPrompt(true), HandlerOperation::Nothing)
    } else if i == 49 {
        entry(KeyCode::Char('r'), 2, "Batch edit messages"@, Command::BatchEditMessages, HandlerOperation::Nothing)
    } else if i == 50 {
        entry(KeyCode::Char('~'), 0, "Go to root"@, Command::GoRoot, HandlerOperation::Nothing)
    } else if i == 51 {
        entry(KeyCode::Char('q'), 0, "Quit and save prompt"@, Command::QuitSavePrompt, HandlerOperation::Nothing)
    } else if i == 52 {
        entry(KeyCode::Char('r'), 0, "Batch edit messages"@, Command::BatchEditMessages, HandlerOperation::Restart)
    } else if i == 53 {
        entry(KeyCode::Char('s'), 0, "Skip potato module"@, Command::PotatoSkip, HandlerOperation::Nothing)
    } else if i == 54 {
        entry(KeyCode::Char('H'), 0, "Increase potato timer"@, Command::PotatoIncreaseTimer, HandlerOperation::Nothing)
    } else if i == 55 {
        entry(KeyCode::Char('c'), 0, "Toggle potato pause"@, Command::PotatoTogglePause, HandlerOperation::Nothing)
    } else if i == 56 {
        entry(KeyCode::Char('C'), 0, "Quit potato module"@, Command::PotatoQuit, HandlerOperation::Nothing)
    } else if i == 57 {
        entry(KeyCode::Char('L'), 0, "Decrease potato timer"@, Command::PotatoDecreaseTimer, HandlerOperation::Nothing)
    } else if i == 58 {
        entry(KeyCode::Char('f'), 0, "Restart potato module"@, Command::PotatoRestart, HandlerOperation::Nothing)
    } else if i == 59 {
        entry(KeyCode::Char('F'), 0, "FZF search"@, Command::FzfSearch, HandlerOperation::Restart)
    } else if i == 60 {
        entry(KeyCode::Char('+'), 0, "Increase pomodoro"@, Command::PotatoIncreasePomodoro, HandlerOperation::Restart)
    } else if i == 61 {
        entry(KeyCode::Char('-'), 0, "Decrease pomodoro"@, Command::PotatoDecreasePomodoro, HandlerOperation::Restart)
    } else if i == 62 {
        entry(KeyCode::Char('.'), 0, "Next potato module"@, Command::PotatoNext, HandlerOperation::Restart)
    } else if i == 63 {
        entry(KeyCode::Char(','), 0, "Previous potato module"@, Command::PotatoPrev, HandlerOperation::Restart)
    } else {
        entry(KeyCode::Null, 0, ""@, Command::ToggleHelp, HandlerOperation::Nothing)
    }
}

/// The position in the table of the binding whose normalized key is `e`,
/// or -1 where no binding has that key.
pub open spec fn table_rank(e: KeyEvent) -> int {
    if e.kind != KeyEventKind::Press || e.state != 0 {
        -1
    } else if e.code == KeyCode::Char('?') && e.modifiers.bits == 0 {
        0
    } else if e.code == KeyCode::Char('a') && e.modifiers.bits == 0 {
        1
    } else if e.code == KeyCode::Char('z') && e.modifiers.bits == 2 {
        2
    } else if e.code == KeyCode::Char('o') && e.modifiers.bits == 2 {
        3
    } else if e.code == KeyCode::Char('x') && e.modifiers.bits == 0 {
        4
    } else if e.code == KeyCode::Char('d') && e.modifiers.bits == 0 {
        5
    } else if e.code == KeyCode::Char('W') && e.modifiers.bits == 1 {
        6
    } else if e.code == KeyCode::Char('S') && e.modifiers.bits == 1 {
        7
    } else if e.code == KeyCode::Char('m') && e.modifiers.bits == 0 {
        8
    } else if e.code == KeyCode::Char('M') && e.modifiers.bits == 1 {
        9
    } else if e.code == KeyCode::Char('!') && e.modifiers.bits == 0 {
        10
    } else if e.code == KeyCode::Char('@') && e.modifiers.bits == 0 {
        11
    } else if e.code == KeyCode::Char('%') && e.modifiers.bits == 0 {
        12
    } else if e.code == KeyCode::Char('y') && e.modifiers.bits == 0 {
        13
    } else if e.code == KeyCode::Char('p') && e.modifiers.bits == 0 {
        14
    } else if e.code == KeyCode::Char('i') && e.modifiers.bits == 0 {
        15
    } else if e.code == KeyCode::Char('I') && e.modifiers.bits == 1 {
        16
    } else if e.code == KeyCode::Char('o') && e.modifiers.bits == 0 {
        17
    } else if e.code == KeyCode::Char('O') && e.modifiers.bits == 1 {
        18
    } else if e.code == KeyCode::Down && e.modifiers.bits == 0 {
        19
    } else if e.code == KeyCode::Char('j') && e.modifiers.bits == 0 {
        20
    } else if e.code == KeyCode::Up && e.modifiers.bits == 0 {
        21
    } else if e.code == KeyCode::Char('k') && e.modifiers.bits == 0 {
        22
    } else if e.code == KeyCode::Right && e.modifiers.bits == 0 {
        23
    } else if e.code == KeyCode::Char('l') && e.modifiers.bits == 0 {
        24
    } else if e.code == KeyCode::Enter && e.modifiers.bits == 0 {
        25
    } else if e.code == KeyCode::Left && e.modifiers.bits == 0 {
        26
    } else if e.code == KeyCode::Char('h') && e.modifiers.bits == 0 {
        27
    } else if e.code == KeyCode::Home && e.modifiers.bits == 0 {
        28
    } else if e.code == KeyCode::Char('g') && e.modifiers.bits == 0 {
        29
    } else if e.code == KeyCode::End && e.modifiers.bits == 0 {
        30
    } else if e.code == KeyCode::Char('G') && e.modifiers.bits == 1 {
        31
    } else if e.code == KeyCode::Char('w') && e.modifiers.bits == 0 {
        32
    } else if e.code == KeyCode::Char('J') && e.modifiers.bits == 1 {
        33
    } else if e.code == KeyCode::Char('K') && e.modifiers.bits == 1 {
        34
    } else if e.code == KeyCode::Char(']') && e.modifiers.bits == 0 {
        35
    } else if e.code == KeyCode::Char('P') && e.modifiers.bits == 1 {
        36
    } else if e.code == KeyCode::Char('>') && e.modifiers.bits == 0 {
        37
    } else if e.code == KeyCode::Char('t') && e.modifiers.bits == 0 {
        38
    } else if e.code == KeyCode::Char('D') && e.modifiers.bits == 1 {
        39
    } else if e.code == KeyCode::Char('R') && e.modifiers.bits == 1 {
        40
    } else if e.code == KeyCode::Char('T') && e.modifiers.bits == 1 {
        41
    } else if e.code == KeyCode::Char(' ') && e.modifiers.bits == 0 {
        42
    } else if e.code == KeyCode::Char('n') && e.modifiers.bits == 0 {
        43
    } else if e.code == KeyCode::Char('/') && e.modifiers.bits == 0 {
        44
    } else if e.code == KeyCode::Char('\'') && e.modifiers.bits == 0 {
        45
    } else if e.code == KeyCode::Char('A') && e.modifiers.bits == 1 {
        46
    } else if e.code == KeyCode::Char('e') && e.modifiers.bits == 0 {
        47
    } else if e.code == KeyCode::Char('E') && e.modifiers.bits == 1 {
        48
    } else if e.code == KeyCode::Char('r') && e.modifiers.bits == 2 {
        49
    } else if e.code == KeyCode::Char('~') && e.modifiers.bits == 0 {
        50
    } else if e.code == KeyCode::Char('q') && e.modifiers.bits == 0 {
        51
    } else if e.code == KeyCode::Char('r') && e.modifiers.bits == 0 {
        52
    } else if e.code == KeyCode::Char('s') && e.modifiers.bits == 0 {
        53
    } else if e.code == KeyCode::Char('H') && e.modifiers.bits == 1 {
        54
    } else if e.code == KeyCode::Char('c') && e.modifiers.bits == 0 {
        55
    } else if e.code == KeyCode::Char('C') && e.modifiers.bits == 1 {
        56
    } else if e.code == KeyCode::Char('L') && e.modifiers.bits == 1 {
        57
    } else if e.code == KeyCode::Char('f') && e.modifiers.bits == 0 {
        58
    } else if e.code == KeyCode::Char('F') && e.modifiers.bits == 1 {
        59
    } else if e.code == KeyCode::Char('+') && e.modifiers.bits == 0 {
        60
    } else if e.code == KeyCode::Char('-') && e.modifiers.bits == 0 {
        61
    } else if e.code == KeyCode::Char('.') && e.modifiers.bits == 0 {
        62
    } else if e.code == KeyCode::Char(',') && e.modifiers.bits == 0 {
        63
    } else {
        -1
    }
}
/// The bindings of normal mode, in the order they are registered.
pub open spec fn normal_keymap_table() -> Seq<(KeyEvent, KeymapView)> {
    Seq::new(table_len(), |i: int| table_entry(i))
}

proof fn lemma_table_rank(i: int)
    requires
        0 <= i < table_len(),
    ensures
        table_rank(normalized(table_entry(i).0)) == i,
{
}

/// No two bindings of normal mode are for the same key.
pub proof fn lemma_table_keys_distinct()
    ensures
        keys_distinct(normal_keymap_table()),
{
    let t = normal_keymap_table();
    assert forall|i: int, j: int|
        0 <= i < t.len() && 0 <= j < t.len() && i != j implies !same_key(#[trigger] t[i].0, #[trigger] t[j].0) by {
        lemma_table_rank(i);
        lemma_table_rank(j);
    }
}

/// Pressing a key of the table of normal mode finds the binding the table
/// gives for it, and a key that the table does not name finds none.
pub proof fn lemma_normal_keymaps_lookup(k: KeyEvent)
    ensures
        lookup(normal_keymap_table(), k) == if 0 <= table_rank(normalized(k)) {
            Some(table_entry(table_rank(normalized(k))).1)
        } else {
            None
        },
{
    let t = normal_keymap_table();
    lemma_table_keys_distinct();
    let r = table_rank(normalized(k));
    if 0 <= r {
        assert(0 <= r < table_len()) by {
            assert(r < 64);
        }
        lemma_table_rank(r);
        assert(t[r] == table_entry(r));
        assert(same_key(t[r].0, k));
        lemma_lookup_at(t, r, k);
    } else {
        if has_key(t, k) {
            let j = choose|j: int| 0 <= j < t.len() && same_key(#[trigger] t[j].0, k);
            lemma_table_rank(j);
        }
    }
}

/// Every binding of the table is found under its own key.
pub proof fn lemma_table_entry_found(i: int)
    requires
        0 <= i < table_len(),
    ensures
        lookup(normal_keymap_table(), table_entry(i).0) == Some(table_entry(i).1),
{
    lemma_table_rank(i);
    lemma_normal_keymaps_lookup(table_entry(i).0);
}

fn push_binding(
    bindings: &mut Vec<(KeyEvent, Keymap)>,
    Ghost(i): Ghost<int>,
    key: KeyEvent,
    description: &str,
    command: Command,
    operation: HandlerOperation,
)
    requires
        0 <= i < table_len(),
        bindings_view(old(bindings)@) =~= normal_keymap_table().take(i),
        (key, KeymapView { description: description@, action: Action { command, operation } }) == table_entry(i),
    ensures
        bindings_view(final(bindings)@) =~= normal_keymap_table().take(i + 1),
{
    let ghost before = bindings@;
    assert(bindings_view(before).len() == before.len());
    assert(before.len() == i);
    bindings.push((key, Keymap { description: String::from_str(description), action: Action { command, operation } }));
    assert forall|j: int| 0 <= j < i + 1 implies #[trigger] bindings_view(bindings@)[j] == normal_keymap_table().take(i + 1)[j] by {
        assert(bindings_view(bindings@).len() == bindings@.len());
        if j < i {
            assert(bindings@[j] == before[j]);
            assert(bindings_view(before)[j] == normal_keymap_table().take(i)[j]);
        }
    }
}

/// The bindings of normal mode.
pub fn create_normal_keymaps() -> (r: KeymapManager)
    ensures
        r@ == normal_keymap_table(),
{
    let mut bindings: Vec<(KeyEvent, Keymap)> = Vec::new();
    assert(bindings_view(bindings@) =~= normal_keymap_table().take(0));
    push_binding(&mut bindings, Ghost(0), KeyEvent::new(KeyCode::Char('?'), KeyModifiers::none()), "Toggle help window", Command::ToggleHelp, HandlerOperation::Nothing);
    push_binding(&mut bindings, Ghost(1), KeyEvent::new(KeyCode::Char('a'), KeyModifiers::none()), "Prepend todo", Command::PrependPrompt, HandlerOperation::Nothing);
    push_binding(&mut bindings, Ghost(2), KeyEvent::new(KeyCode::Char('z'), KeyModifiers::control()), "Suspend application (Unix)", Command::Suspend, HandlerOperation::Restart);
    push_binding(&mut bindings, Ghost(3), KeyEvent::new(KeyCode::Char('o'), KeyModifiers::control()), "Open file browser", Command::OpenFileBrowser, HandlerOperation::Restart);
    push_binding(&mut bindings, Ghost(4), KeyEvent::new(KeyCode::Char('x'), KeyModifiers::none()), "Remove todo and yank", Command::RemoveTodoAndYank, HandlerOperation::Nothing);
    push_binding(&mut bindings, Ghost(5), KeyEvent::new(KeyCode::Char('d'), KeyModifiers::none()), "Toggle daily", Command::ToggleDaily, HandlerOperation::Nothing);
    push_binding(&mut bindings, Ghost(6), KeyEvent::new(KeyCode::Char('W'), KeyModifiers::none()), "Toggle weekly", Command::ToggleWeekly, HandlerOperation::Nothing);
    push_binding(&mut bindings, Ghost(7), KeyEvent::new(KeyCode::Char('S'), KeyModifiers::none()), "Schedule prompt", Command::SchedulePrompt, HandlerOperation::Nothing);
    push_binding(&mut bindings, Ghost(8), KeyEvent::new(KeyCode::Char('m'), KeyModifiers::none()), "Reminder prompt", Command::ReminderPrompt, HandlerOperation::Nothing);
    push_binding(&mut bindings, Ghost(9), KeyEvent::new(KeyCode::Char('M'), KeyModifiers::none()), "Toggle schedule", Command::ToggleSchedule, HandlerOperation::Nothing);
    push_binding(&mut bindings, Ghost(10), KeyEvent::new(KeyCode::Char('!'), KeyModifiers::none()), "Toggle show done", Command::ToggleShowDone, HandlerOperation::Nothing);
    push_binding(&mut bindings, Ghost(11), KeyEvent::new(KeyCode::Char('@'), KeyModifiers::none()), "Priority prompt", Command::PriorityPrompt, HandlerOperation::Nothing);
    push_binding(&mut bindings, Ghost(12), KeyEvent::new(KeyCode::Char('%'), KeyModifiers::none()), "Schedule restriction prompt", Command::ScheduleRestrictionPrompt, HandlerOperation::Nothing);
    push_binding(&mut bindings, Ghost(13), KeyEvent::new(KeyCode::Char('y'), KeyModifiers::none()), "Yank todo", Command::YankTodo, HandlerOperation::Nothing);
    push_binding(&mut bindings, Ghost(14), KeyEvent::new(KeyCode::Char('p'), KeyModifiers::none()), "Paste todo", Command::PasteTodo, HandlerOperation::Nothing);
    push_binding(&mut bindings, Ghost(15), KeyEvent::new(KeyCode::Char('i'), KeyModifiers::none()), "Increase day by 1", Command::IncreaseDayBy(1), HandlerOperation::Nothing);
    push_binding(&mut bindings, Ghost(16), KeyEvent::new(KeyCode::Char('I'), KeyModifiers::none()), "Increase day by -1", Command::IncreaseDayBy(-1), HandlerOperation::Nothing);
    push_binding(&mut bindings, Ghost(17), KeyEvent::new(KeyCode::Char('o'), KeyModifiers::none()), "Append todo", Command::AppendFromFiles, HandlerOperation::Restart);
    push_binding(&mut bindings, Ghost(18), KeyEvent::new(KeyCode::Char('O'), KeyModifiers::none()), "Output todo", Command::OutputToFiles, HandlerOperation::Restart);
    push_binding(&mut bindings, Ghost(19), KeyEvent::new(KeyCode::Down, KeyModifiers::none()), "Move down", Command::GoDown, HandlerOperation::Nothing);
    push_binding(&mut bindings, Ghost(20), KeyEvent::new(KeyCode::Char('j'), KeyModifiers::none()), "Move down", Command::GoDown, HandlerOperation::Nothing);
    push_binding(&mut bindings, Ghost(21), KeyEvent::new(KeyCode::Up, KeyModifiers::none()), "Move up", Command::GoUp, HandlerOperation::Nothing);
    push_binding(&mut bindings, Ghost(22), KeyEvent::new(KeyCode::Char('k'), KeyModifiers::none()), "Move up", Command::GoUp, HandlerOperation::Nothing);
    push_binding(&mut bindings, Ghost(23), KeyEvent::new(KeyCode::Right, KeyModifiers::none()), "Move right", Command::AddDependencyTraverseDown, HandlerOperation::Nothing);
    push_binding(&mut bindings, Ghost(24), KeyEvent::new(KeyCode::Char('l'), KeyModifiers::none()), "Move right", Command::AddDependencyTraverseDown, HandlerOperation::Nothing);
    push_binding(&mut bindings, Ghost(25), KeyEvent::new(KeyCode::Enter, KeyModifiers::none()), "Traverse down", Command::TraverseDown, HandlerOperation::Nothing);
    push_binding(&mut bindings, Ghost(26), KeyEvent::new(KeyCode::Left, KeyModifiers::none()), "Move left", Command::TraverseUp, HandlerOperation::Nothing);
    push_binding(&mut bindings, Ghost(27), KeyEvent::new(KeyCode::Char('h'), KeyModifiers::none()), "Move left", Command::TraverseUp, HandlerOperation::Nothing);
    push_binding(&mut bindings, Ghost(28), KeyEvent::new(KeyCode::Home, KeyModifiers::none()), "Go to top", Command::GoTop, HandlerOperation::Nothing);
    push_binding(&mut bindings, Ghost(29), KeyEvent::new(KeyCode::Char('g'), KeyModifiers::none()), "Go to top", Command::GoTop, HandlerOperation::Nothing);
    push_binding(&mut bindings, Ghost(30), KeyEvent::new(KeyCode::End, KeyModifiers::none()), "Go to bottom", Command::GoBottom, HandlerOperation::Nothing);
    push_binding(&mut bindings, Ghost(31), KeyEvent::new(KeyCode::Char('G'), KeyModifiers::none()), "Go to bottom", Command::GoBottom, HandlerOperation::Nothing);
    push_binding(&mut bindings, Ghost(32), KeyEvent::new(KeyCode::Char('w'), KeyModifiers::none()), "Write", Command::Write, HandlerOperation::Nothing);
    push_binding(&mut bindings, Ghost(33), KeyEvent::new(KeyCode::Char('J'), KeyModifiers::none()), "Move current down", Command::MoveCurrentDown, HandlerOperation::Nothing);
    push_binding(&mut bindings, Ghost(34), KeyEvent::new(KeyCode::Char('K'), KeyModifiers::none()), "Move current up", Command::MoveCurrentUp, HandlerOperation::Nothing);
    push_binding(&mut bindings, Ghost(35), KeyEvent::new(KeyCode::Char(']'), KeyModifiers::none()), "Toggle right panel", Command::ToggleRightPanel, HandlerOperation::Nothing);
    push_binding(&mut bindings, Ghost(36), KeyEvent::new(KeyCode::Char('P'), KeyModifiers::none()), "Toggle module", Command::ToggleModule, HandlerOperation::Nothing);
    push_binding(&mut bindings, Ghost(37), KeyEvent::new(KeyCode::Char('>'), KeyModifiers::none()), "Edit or add note", Command::EditOrAddNote, HandlerOperation::Restart);
    push_binding(&mut bindings, Ghost(38), KeyEvent::new(KeyCode::Char('t'), KeyModifiers::none()), "Add dependency", Command::AddDependency, HandlerOperation::Nothing);
    push_binding(&mut bindings, Ghost(39), KeyEvent::new(KeyCode::Char('D'), KeyModifiers::none()), "Remove todo", Command::RemoveTodo, HandlerOperation::Nothing);
    push_binding(&mut bindings, Ghost(40), KeyEvent::new(KeyCode::Char('R'), KeyModifiers::none()), "Read", Command::Read, HandlerOperation::Nothing);
    push_binding(&mut bindings, Ghost(41), KeyEvent::new(KeyCode::Char('T'), KeyModifiers::none()), "Remove current dependent", Command::RemoveCurrentDependent, HandlerOperation::Nothing);
    push_binding(&mut bindings, Ghost(42), KeyEvent::new(KeyCode::Char(' '), KeyModifiers::none()), "Toggle current done", Command::ToggleCurrentDone, HandlerOperation::Nothing);
    push_binding(&mut bindings, Ghost(43), KeyEvent::new(KeyCode::Char('n'), KeyModifiers::none()), "Next search result", Command::NextSearchResult, HandlerOperation::Nothing);
    push_binding(&mut bindings, Ghost(44), KeyEvent::new(KeyCode::Char('/'), KeyModifiers::none()), "Search prompt", Command::SearchPrompt, HandlerOperation::Nothing);
    push_binding(&mut bindings, Ghost(45), KeyEvent::new(KeyCode::Char('\''), KeyModifiers::none()), "Tree search prompt", Command::TreeSearchPrompt, HandlerOperation::Nothing);
    push_binding(&mut bindings, Ghost(46), KeyEvent::new(KeyCode::Char('A'), KeyModifiers::none()), "Append todo at first", Command::AppendPrompt, HandlerOperation::Nothing);
    push_binding(&mut bindings, Ghost(47), KeyEvent::new(KeyCode::Char('e'), KeyModifiers::none()), "Edit todo", Command::EditPrompt(false), HandlerOperation::Nothing);
    push_binding(&mut bindings, Ghost(48), KeyEvent::new(KeyCode::Char('E'), KeyModifiers::none()), "Edit todo (start)", Command::EditPrompt(true), HandlerOperation::Nothing);
    push_binding(&mut bindings, Ghost(49), KeyEvent::new(KeyCode::Char('r'), KeyModifiers::control()), "Batch edit messages", Command::BatchEditMessages, HandlerOperation::Nothing);
    push_binding(&mut bindings, Ghost(50), KeyEvent::new(KeyCode::Char('~'), KeyModifiers::none()), "Go to root", Command::GoRoot, HandlerOperation::Nothing);
    push_binding(&mut bindings, Ghost(51), KeyEvent::new(KeyCode::Char('q'), KeyModifiers::none()), "Quit and save prompt", Command::QuitSavePrompt, HandlerOperation::Nothing);
    push_binding(&mut bindings, Ghost(52), KeyEvent::new(KeyCode::Char('r'), KeyModifiers::none()), "Batch edit messages", Command::BatchEditMessages, HandlerOperation::Restart);
    push_binding(&mut bindings, Ghost(53), KeyEvent::new(KeyCode::Char('s'), KeyModifiers::none()), "Skip potato module", Command::PotatoSkip, HandlerOperation::Nothing);
    push_binding(&mut bindings, Ghost(54), KeyEvent::new(KeyCode::Char('H'), KeyModifiers::none()), "Increase potato timer", Command::PotatoIncreaseTimer, HandlerOperation::Nothing);
    push_binding(&mut bindings, Ghost(55), KeyEvent::new(KeyCode::Char('c'), KeyModifiers::none()), "Toggle potato pause", Command::PotatoTogglePause, HandlerOperation::Nothing);
    push_binding(&mut bindings, Ghost(56), KeyEvent::new(KeyCode::Char('C'), KeyModifiers::none()), "Quit potato module", Command::PotatoQuit, HandlerOperation::Nothing);
    push_binding(&mut bindings, Ghost(57), KeyEvent::new(KeyCode::Char('L'), KeyModifiers::none()), "Decrease potato timer", Command::PotatoDecreaseTimer, HandlerOperation::Nothing);
    push_binding(&mut bindings, Ghost(58), KeyEvent::new(KeyCode::Char('f'), KeyModifiers::none()), "Restart potato module", Command::PotatoRestart, HandlerOperation::Nothing);
    push_binding(&mut bindings, Ghost(59), KeyEvent::new(KeyCode::Char('F'), KeyModifiers::none()), "FZF search", Command::FzfSearch, HandlerOperation::Restart);
    push_binding(&mut bindings, Ghost(60), KeyEvent::new(KeyCode::Char('+'), KeyModifiers::none()), "Increase pomodoro", Command::PotatoIncreasePomodoro, HandlerOperation::Restart);
    push_binding(&mut bindings, Ghost(61), KeyEvent::new(KeyCode::Char('-'), KeyModifiers::none()), "Decrease pomodoro", Command::PotatoDecreasePomodoro, HandlerOperation::Restart);
    push_binding(&mut bindings, Ghost(62), KeyEvent::new(KeyCode::Char('.'), KeyModifiers::none()), "Next potato module", Command::PotatoNext, HandlerOperation::Restart);
    push_binding(&mut bindings, Ghost(63), KeyEvent::new(KeyCode::Char(','), KeyModifiers::none()), "Previous potato module", Command::PotatoPrev, HandlerOperation::Restart);
    assert(normal_keymap_table().take(64) =~= normal_keymap_table());
    proof {
        lemma_table_keys_distinct();
        lemma_collected_identity(normal_keymap_table());
    }
    KeymapManager::from(bindings)
}

} // verus!

verus! {

/// A number that tells apart the help labels of the table: the label's
/// length, first character and last character.
pub open spec fn label_key(s: Seq<char>) -> int {
    s.len() * 4398046511104 + (s[0] as int) * 2097152 + (s[s.len() - 1] as int)
}

/// The position in the table of the binding whose help label has the key
/// `k` (see `label_key`), or -1.
pub open spec fn label_rank(k: int) -> int {
    if k == 4398178631743 {
        0
    } else if k == 4398249934945 {
        1
    } else if k == 26388419575930 {
        2
    } else if k == 26388419575919 {
        3
    } else if k == 4398298169464 {
        4
    } else if k == 4398256226404 {
        5
    } else if k == 4398228963415 {
        6
    } else if k == 4398220574803 {
        7
    } else if k == 4398275100781 {
        8
    } else if k == 4398207991885 {
        9
    } else if k == 4398115717153 {
        10
    } else if k == 4398180728896 {
        11
    } else if k == 4398124105765 {
        12
    } else if k == 4398300266617 {
        13
    } else if k == 4398281392240 {
        14
    } else if k == 4398266712169 {
        15
    } else if k == 4398199603273 {
        16
    } else if k == 4398279295087 {
        17
    } else if k == 4398212186191 {
        18
    } else if k == 17592328650862 {
        19
    } else if k == 4398268809322 {
        20
    } else if k == 8796271280240 {
        21
    } else if k == 4398270906475 {
        22
    } else if k == 21990404522100 {
        23
    } else if k == 4398273003628 {
        24
    } else if k == 21990377259122 {
        25
    } else if k == 17592345428084 {
        26
    } else if k == 4398264615016 {
        27
    } else if k == 17592337039461 {
        28
    } else if k == 4398262517863 {
        29
    } else if k == 13194284236900 {
        30
    } else if k == 4398195408967 {
        31
    } else if k == 4398296072311 {
        32
    } else if k == 4398201700426 {
        33
    } else if k == 4398203797579 {
        34
    } else if k == 4398241546333 {
        35
    } else if k == 4398214283344 {
        36
    } else if k == 4398176534590 {
        37
    } else if k == 4398289780852 {
        38
    } else if k == 4398189117508 {
        39
    } else if k == 4398218477650 {
        40
    } else if k == 4398222671956 {
        41
    } else if k == 4398113620000 {
        42
    } else if k == 4398277197934 {
        43
    } else if k == 4398145077295 {
        44
    } else if k == 4398128300071 {
        45
    } else if k == 4398182826049 {
        46
    } else if k == 4398258323557 {
        47
    } else if k == 4398191214661 {
        48
    } else if k == 26388419575922 {
        49
    } else if k == 4398310752382 {
        50
    } else if k == 4398283489393 {
        51
    } else if k == 4398285586546 {
        52
    } else if k == 4398287683699 {
        53
    } else if k == 4398197506120 {
        54
    } else if k == 4398254129251 {
        55
    } else if k == 4398187020355 {
        56
    } else if k == 4398205894732 {
        57
    } else if k == 4398260420710 {
        58
    } else if k == 4398193311814 {
        59
    } else if k == 4398136688683 {
        60
    } else if k == 4398140882989 {
        61
    } else if k == 4398142980142 {
        62
    } else if k == 4398138785836 {
        63
    } else {
        -1
    }
}
proof fn lemma_label_rank(i: int)
    requires
        0 <= i < table_len(),
    ensures
        label_rank(label_key(key_event_text(table_entry(i).0))) == i,
{
    reveal_strlit("");
    reveal_strlit("Ctrl+");
    reveal_strlit("Down");
    reveal_strlit("Up");
    reveal_strlit("Right");
    reveal_strlit("Left");
    reveal_strlit("Enter");
    reveal_strlit("Home");
    reveal_strlit("End");
}

/// The help labels of the bindings of normal mode are pairwise distinct, so
/// the help page names every binding by a label of its own.
pub proof fn lemma_help_labels_distinct()
    ensures
        forall|i: int, j: int|
            0 <= i < table_len() && 0 <= j < table_len() && i != j ==> key_event_text(
                #[trigger] normal_keymap_table()[i].0,
            ) != key_event_text(#[trigger] normal_keymap_table()[j].0),
{
    assert forall|i: int, j: int|
        0 <= i < table_len() && 0 <= j < table_len() && i != j implies key_event_text(
            #[trigger] normal_keymap_table()[i].0,
        ) != key_event_text(#[trigger] normal_keymap_table()[j].0) by {
        lemma_label_rank(i);
        lemma_label_rank(j);
    }
}

} // verus!
