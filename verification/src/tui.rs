//! The state of the terminal front end: the mode, the prompt that is open and
//! the handlers of its text, and how keys and text change them. The work on
//! the todo list, the text field and the terminal is returned as effects for
//! the caller to carry out, in order.
use vstd::prelude::*;
use vstd::string::*;
use crate::bindings::{create_normal_keymaps, normal_keymap_table};
use crate::keymap::{Command, KeymapManager, lookup};
use crate::keys::{KeyCode, KeyEvent, control_modifier};
use crate::text::{lowercase_of, parse_i64, parse_u64, parse_u8, parsed_signed, parsed_unsigned, starts_with_char, text_starts_with, to_lowercase};

verus! {

/// What the main loop does after a key was handled.
#[derive(Clone, Copy, Debug, PartialEq, Eq, Structural)]
pub enum HandlerOperation {
    Nothing,
    Restart,
}

/// Whether keys move through the list or go into the text field.
#[derive(Clone, Copy, Debug, PartialEq, Eq, Structural)]
pub enum Mode {
    Normal,
    Editing,
}

/// What the text field reports after a key.
#[derive(Clone, Debug, PartialEq, Eq)]
pub enum EditorOperation {
    Cancel,
    Submit,
    Input,
    /// Text was deleted; the text before the deletion.
    Delete(String),
}

/// What a key does in the text field.
#[derive(Clone, Copy, Debug, PartialEq, Eq, Structural)]
pub enum EditorKey {
    /// Escape: close the prompt.
    Cancel,
    /// Enter: hand the text to the prompt and close it.
    Submit,
    /// Control-u: delete from the cursor to the head of the line.
    DeleteToHead,
    /// Backspace: delete the character before the cursor.
    DeleteChar,
    /// Any other event: the text field handles it.
    Other,
}

/// What is done with the text of a prompt, on submit or on each input.
#[derive(Clone, Copy, Debug, PartialEq, Eq, Structural)]
pub enum TextHandler {
    Search,
    TreeSearch,
    Schedule,
    Reminder,
    EditTodo,
    AppendTodo,
    PrependTodo,
    PriorityPrompt,
    SchedulePrompt,
    SavePrompt,
}

/// What is done when text of a prompt is deleted.
#[derive(Clone, Copy, Debug, PartialEq, Eq, Structural)]
pub enum DeleteHandler {
    Search,
    Priority,
}

/// A prompt: the title and placeholder of the text field.
#[derive(Clone, Debug, PartialEq, Eq)]
pub enum Prompt {
    Search,
    TreeSearch,
    Schedule,
    Reminder,
    /// Editing a todo; its message is the placeholder.
    Edit(String),
    AddTodo,
    Priority,
    ScheduleRestriction,
    AddTodoFirst,
    SaveChanges,
}

/// The title of a prompt.
pub open spec fn prompt_title(p: Prompt) -> Seq<char> {
    match p {
        Prompt::Search => "Search todo"@,
        Prompt::TreeSearch => "Search the whole tree for todo"@,
        Prompt::Schedule => "Change schedule day"@,
        Prompt::Reminder => "Date reminder"@,
        Prompt::Edit(_) => "Edit todo"@,
        Prompt::AddTodo => "Add todo"@,
        Prompt::Priority => "Limit priority"@,
        Prompt::ScheduleRestriction => "Limit schedule"@,
        Prompt::AddTodoFirst => "Add todo at first"@,
        Prompt::SaveChanges => "You have done changes. You wanna save? [n: no, y: yes, c: cancel] (default: n)"@,
    }
}

/// The placeholder of a prompt.
pub open spec fn prompt_placeholder(p: Prompt) -> Seq<char> {
    match p {
        Prompt::Search => "Enter search query"@,
        Prompt::TreeSearch => "Enter search query"@,
        Prompt::Schedule => ""@,
        Prompt::Reminder => ""@,
        Prompt::Edit(message) => message@,
        Prompt::AddTodo => "Enter the todo message"@,
        Prompt::Priority => "Enter priority to show"@,
        Prompt::ScheduleRestriction => "Enter schedule to show"@,
        Prompt::AddTodoFirst => "Enter the todo message"@,
        Prompt::SaveChanges => "N/y/c"@,
    }
}

impl Prompt {
    /// The title of the prompt.
    pub fn title(&self) -> (r: &'static str)
        ensures
            r@ == prompt_title(*self),
    {
        match self {
            Prompt::Search => "Search todo",
            Prompt::TreeSearch => "Search the whole tree for todo",
            Prompt::Schedule => "Change schedule day",
            Prompt::Reminder => "Date reminder",
            Prompt::Edit(_) => "Edit todo",
            Prompt::AddTodo => "Add todo",
            Prompt::Priority => "Limit priority",
            Prompt::ScheduleRestriction => "Limit schedule",
            Prompt::AddTodoFirst => "Add todo at first",
            Prompt::SaveChanges => "You have done changes. You wanna save? [n: no, y: yes, c: cancel] (default: n)",
        }
    }

    /// The placeholder of the prompt.
    pub fn placeholder(&self) -> (r: &str)
        ensures
            r@ == prompt_placeholder(*self),
    {
        match self {
            Prompt::Search => "Enter search query",
            Prompt::TreeSearch => "Enter search query",
            Prompt::Schedule => "",
            Prompt::Reminder => "",
            Prompt::Edit(message) => message.as_str(),
            Prompt::AddTodo => "Enter the todo message",
            Prompt::Priority => "Enter priority to show",
            Prompt::ScheduleRestriction => "Enter schedule to show",
            Prompt::AddTodoFirst => "Enter the todo message",
            Prompt::SaveChanges => "N/y/c",
        }
    }
}

/// Work for the caller: on the todo list, on the text field, on the module
/// or on the terminal.
#[derive(Clone, Debug, PartialEq, Eq)]
pub enum Effect {
    /// A command of a key binding whose work lies outside this state.
    Perform(Command),
    /// Open the text field with this prompt's title and placeholder.
    OpenPrompt(Prompt),
    /// Put this text into the text field at the cursor.
    InsertInput(String),
    /// Move the cursor of the text field to the head of the line.
    InputCursorToHead,
    /// Delete the line of the text field.
    ClearInput,
    /// Keep the list's current restriction as the last one.
    SaveRestriction,
    /// Give the list back the last restriction.
    RestoreRestriction,
    /// Restrict the list by whether done todos are shown.
    ShowDoneRestriction,
    /// Show the todos that match the query (on top of the last restriction).
    SearchRestriction(String),
    /// Show the todos of this priority (on top of the last restriction).
    PriorityRestriction(u8),
    /// Show the todos scheduled every this many days (on top of the last restriction).
    ScheduleRestriction(i64),
    /// Search the whole tree for the query.
    TreeSearch(String),
    /// Schedule the current todo every this many days.
    EnableDay(i64),
    /// Read a date from the text and make it the current todo's reminder.
    SetReminder(String),
    /// Add a todo with this message.
    AppendTodo(String),
    /// Add a todo with this message at the top.
    PrependTodo(String),
    /// Change the message of the current todo.
    SetMessage(String),
    /// Write the todo lists.
    WriteTodos,
    /// Leave the program.
    Quit,
}

/// The options of the front end.
#[derive(Clone, Debug, PartialEq, Eq)]
pub struct TuiArgs {
    /// Render only the todos that fit.
    pub minimal_render: bool,
    /// Text in front of the highlighted todo.
    pub highlight_string: String,
    /// Show the module at the top.
    pub enable_module: bool,
    /// Show notes without piping them through `glow`.
    pub no_glow: bool,
}

/// What the caller knows of the todo list when a key is pressed.
pub struct ActionContext {
    /// The message of the current todo, if there is one.
    pub current_message: Option<String>,
    /// Whether the current list or the app has changes that were not written.
    pub unsaved_changes: bool,
}

impl ActionContext {
    /// The context of a key: the current todo's message, and whether the
    /// current list or the app has unsaved changes.
    pub fn new(current_message: Option<String>, list_changed: bool, app_changed: bool) -> (r: ActionContext)
        ensures
            r.current_message == current_message,
            r.unsaved_changes == (list_changed || app_changed),
    {
        ActionContext { current_message, unsaved_changes: list_changed || app_changed }
    }
}

/// The state of the front end.
pub struct TuiApp {
    pub show_right: bool,
    pub show_help: bool,
    pub mode: Mode,
    pub on_submit: Option<TextHandler>,
    pub on_input: Option<TextHandler>,
    pub on_delete: Option<DeleteHandler>,
    /// Whether a last restriction was kept.
    pub restriction_saved: bool,
    pub args: TuiArgs,
    pub normal_keymaps: KeymapManager,
}

/// `s` with a prompt open whose text goes to `h` on submit.
pub open spec fn text_mode(s: TuiApp, h: TextHandler) -> TuiApp {
    TuiApp { on_input: None, on_delete: None, on_submit: Some(h), mode: Mode::Editing, ..s }
}

/// `s` with a prompt open whose text goes to `h` on every input.
pub open spec fn responsive_mode(s: TuiApp, h: TextHandler) -> TuiApp {
    TuiApp { on_input: Some(h), mode: Mode::Editing, ..s }
}

/// `s` with the prompt closed.
pub open spec fn closed_mode(s: TuiApp) -> TuiApp {
    TuiApp { mode: Mode::Normal, ..s }
}

/// `s` with the current restriction kept as the last one.
pub open spec fn restriction_kept(s: TuiApp) -> TuiApp {
    TuiApp { restriction_saved: true, ..s }
}

/// A prompt opened whose text goes to `h` on submit.
pub open spec fn text_prompt_step(s: TuiApp, h: TextHandler, p: Prompt) -> (TuiApp, Seq<Effect>) {
    (text_mode(s, h), seq![Effect::OpenPrompt(p)])
}

/// The search prompt: the restriction is kept, and the text goes to the
/// search on every input and on deletion, and nowhere on submit.
pub open spec fn search_prompt_step(s: TuiApp) -> (TuiApp, Seq<Effect>) {
    (
        TuiApp {
            on_delete: Some(DeleteHandler::Search),
            ..responsive_mode(TuiApp { on_submit: None, ..restriction_kept(s) }, TextHandler::Search)
        },
        seq![Effect::SaveRestriction, Effect::OpenPrompt(Prompt::Search)],
    )
}

/// A restricting prompt (priority or schedule): the restriction is kept, the
/// text goes to `h` on submit and on every input, and deletions may give the
/// last restriction back.
pub open spec fn restriction_prompt_step(s: TuiApp, h: TextHandler, p: Prompt) -> (TuiApp, Seq<Effect>) {
    (
        TuiApp {
            on_delete: Some(DeleteHandler::Priority),
            ..responsive_mode(text_mode(restriction_kept(s), h), h)
        },
        seq![Effect::SaveRestriction, Effect::OpenPrompt(p), Effect::OpenPrompt(p)],
    )
}

/// The edit prompt: with a current todo, its message is the placeholder and
/// the text; `start` puts the cursor at the head. Without one nothing happens.
pub open spec fn edit_prompt_step(s: TuiApp, start: bool, current_message: Option<String>) -> (TuiApp, Seq<Effect>) {
    match current_message {
        Some(message) => (
            text_mode(s, TextHandler::EditTodo),
            seq![Effect::OpenPrompt(Prompt::Edit(message)), Effect::InsertInput(message)] + if start {
                seq![Effect::InputCursorToHead]
            } else {
                Seq::empty()
            },
        ),
        None => (s, seq![]),
    }
}

/// Quitting: with unsaved changes the save prompt opens, otherwise the
/// program leaves.
pub open spec fn quit_save_prompt_step(s: TuiApp, unsaved_changes: bool) -> (TuiApp, Seq<Effect>) {
    if unsaved_changes {
        text_prompt_step(s, TextHandler::SavePrompt, Prompt::SaveChanges)
    } else {
        (s, seq![Effect::Quit])
    }
}

/// What a key binding's command does to the state, and the work it leaves.
pub open spec fn command_step(s: TuiApp, cmd: Command, ctx: ActionContext) -> (TuiApp, Seq<Effect>) {
    match cmd {
        Command::ToggleHelp => (TuiApp { show_help: !s.show_help, ..s }, seq![]),
        Command::ToggleRightPanel => (TuiApp { show_right: !s.show_right, ..s }, seq![]),
        Command::ToggleModule => (
            TuiApp { args: TuiArgs { enable_module: !s.args.enable_module, ..s.args }, ..s },
            seq![],
        ),
        Command::PrependPrompt => text_prompt_step(s, TextHandler::AppendTodo, Prompt::AddTodo),
        Command::SchedulePrompt => text_prompt_step(s, TextHandler::Schedule, Prompt::Schedule),
        Command::ReminderPrompt => text_prompt_step(s, TextHandler::Reminder, Prompt::Reminder),
        Command::TreeSearchPrompt => text_prompt_step(s, TextHandler::TreeSearch, Prompt::TreeSearch),
        Command::AppendPrompt => text_prompt_step(s, TextHandler::PrependTodo, Prompt::AddTodoFirst),
        Command::SearchPrompt => search_prompt_step(s),
        Command::PriorityPrompt => restriction_prompt_step(s, TextHandler::PriorityPrompt, Prompt::Priority),
        Command::ScheduleRestrictionPrompt => restriction_prompt_step(
            s,
            TextHandler::SchedulePrompt,
            Prompt::ScheduleRestriction,
        ),
        Command::EditPrompt(start) => edit_prompt_step(s, start, ctx.current_message),
        Command::QuitSavePrompt => quit_save_prompt_step(s, ctx.unsaved_changes),
        _ => (s, seq![Effect::Perform(cmd)]),
    }
}

/// The work a handler makes of the text of its prompt. `current_todo_matches`
/// says whether there is a current todo and it matches the text.
pub open spec fn handler_effects(h: TextHandler, text: String, current_todo_matches: bool) -> Seq<Effect> {
    match h {
        TextHandler::Search => seq![Effect::SearchRestriction(text)],
        TextHandler::TreeSearch => seq![Effect::TreeSearch(text)] + if current_todo_matches {
            Seq::empty()
        } else {
            seq![Effect::Perform(Command::NextSearchResult)]
        },
        TextHandler::Schedule => match parsed_unsigned(text@, u64::MAX as nat) {
            Some(day) => seq![Effect::EnableDay((day as u64) as i64)],
            None => seq![],
        },
        TextHandler::Reminder => seq![Effect::SetReminder(text)],
        TextHandler::EditTodo => if text@.len() == 0 {
            seq![]
        } else {
            seq![Effect::SetMessage(text)]
        },
        TextHandler::AppendTodo => seq![Effect::AppendTodo(text)],
        TextHandler::PrependTodo => seq![Effect::PrependTodo(text)],
        TextHandler::PriorityPrompt => if text@.len() == 0 {
            seq![Effect::ShowDoneRestriction]
        } else {
            match parsed_unsigned(text@, u8::MAX as nat) {
                Some(p) => seq![Effect::PriorityRestriction(p as u8)],
                None => seq![],
            }
        },
        TextHandler::SchedulePrompt => if text@.len() == 0 {
            seq![Effect::ShowDoneRestriction]
        } else {
            match parsed_signed(text@, i64::MIN as int, i64::MAX as int) {
                Some(d) => seq![Effect::ScheduleRestriction(d as i64)],
                None => seq![],
            }
        },
        TextHandler::SavePrompt => save_effects(lowercase_of(text@)),
    }
}

/// The answer to the save prompt, already lower-cased: `y…` writes and
/// leaves, `c…` goes back, anything else leaves without writing.
pub open spec fn save_effects(lower: Seq<char>) -> Seq<Effect> {
    if starts_with_char(lower, 'y') {
        seq![Effect::WriteTodos, Effect::Quit]
    } else if starts_with_char(lower, 'c') {
        seq![]
    } else {
        seq![Effect::Quit]
    }
}

/// The work of a delete handler, given the text after and before the deletion.
pub open spec fn delete_effects(d: DeleteHandler, text: String, before: String, restriction_saved: bool) -> Seq<Effect> {
    match d {
        DeleteHandler::Search => if before@.len() == 0 {
            seq![Effect::ShowDoneRestriction]
        } else {
            seq![Effect::SearchRestriction(text)]
        },
        DeleteHandler::Priority => (if text@.len() == 0 && restriction_saved {
            seq![Effect::RestoreRestriction]
        } else {
            Seq::empty()
        }) + (if before@.len() == 0 {
            seq![Effect::ShowDoneRestriction]
        } else {
            Seq::empty()
        }),
    }
}

/// What an operation of the text field does to the state, and the work it
/// leaves; `text` is the line of the text field after the key.
pub open spec fn text_input_step(s: TuiApp, op: EditorOperation, text: String, current_todo_matches: bool) -> (TuiApp, Seq<Effect>) {
    match op {
        EditorOperation::Input => (s, match s.on_input {
            Some(h) => handler_effects(h, text, current_todo_matches),
            None => seq![],
        }),
        EditorOperation::Submit => (closed_mode(s), match s.on_submit {
            Some(h) => handler_effects(h, text, current_todo_matches),
            None => seq![],
        } + seq![Effect::ClearInput]),
        EditorOperation::Cancel => (closed_mode(s), seq![Effect::ClearInput]),
        EditorOperation::Delete(before) => (s, match s.on_delete {
            Some(d) => delete_effects(d, text, before, s.restriction_saved),
            None => seq![],
        }),
    }
}

/// What a key does in the text field.
pub open spec fn editor_key_of(event: Option<KeyEvent>) -> EditorKey {
    match event {
        Some(key) => match key.code {
            KeyCode::Esc => EditorKey::Cancel,
            KeyCode::Enter => EditorKey::Submit,
            KeyCode::Char(c) => if c == 'u' && key.modifiers == control_modifier() {
                EditorKey::DeleteToHead
            } else {
                EditorKey::Other
            },
            KeyCode::Backspace => EditorKey::DeleteChar,
            _ => EditorKey::Other,
        },
        None => EditorKey::Other,
    }
}

/// What a key does in the text field; `None` stands for an event that is no key.
pub fn editor_key(event: Option<KeyEvent>) -> (r: EditorKey)
    ensures
        r == editor_key_of(event),
{
    match event {
        Some(key) => match key.code {
            KeyCode::Esc => EditorKey::Cancel,
            KeyCode::Enter => EditorKey::Submit,
            KeyCode::Char(c) => if c == 'u' && key.modifiers.bits == 2 {
                EditorKey::DeleteToHead
            } else {
                EditorKey::Other
            },
            KeyCode::Backspace => EditorKey::DeleteChar,
            _ => EditorKey::Other,
        },
        None => EditorKey::Other,
    }
}

/// The operation the text field reports for a key; `before` is its line
/// before the key.
pub fn editor_operation(key: EditorKey, before: String) -> (r: EditorOperation)
    ensures
        r == match key {
            EditorKey::Cancel => EditorOperation::Cancel,
            EditorKey::Submit => EditorOperation::Submit,
            EditorKey::DeleteToHead => EditorOperation::Delete(before),
            EditorKey::DeleteChar => EditorOperation::Delete(before),
            EditorKey::Other => EditorOperation::Input,
        },
{
    match key {
        EditorKey::Cancel => EditorOperation::Cancel,
        EditorKey::Submit => EditorOperation::Submit,
        EditorKey::DeleteToHead => EditorOperation::Delete(before),
        EditorKey::DeleteChar => EditorOperation::Delete(before),
        EditorKey::Other => EditorOperation::Input,
    }
}

impl TuiApp {
    /// The state at start: normal mode, right panel shown, help hidden, no
    /// prompt handlers, no kept restriction, and the bindings of normal mode.
    pub fn new(args: TuiArgs) -> (r: TuiApp)
        ensures
            r.show_right,
            !r.show_help,
            r.mode == Mode::Normal,
            r.on_submit is None,
            r.on_input is None,
            r.on_delete is None,
            !r.restriction_saved,
            r.args == args,
            r.normal_keymaps@ == normal_keymap_table(),
    {
        TuiApp {
            show_right: true,
            show_help: false,
            mode: Mode::Normal,
            on_submit: None,
            on_input: None,
            on_delete: None,
            restriction_saved: false,
            args,
            normal_keymaps: create_normal_keymaps(),
        }
    }

    fn turn_on_text_mode(&mut self, prompt: Prompt, effects: &mut Vec<Effect>)
        ensures
            *final(self) == (TuiApp { mode: Mode::Editing, ..*old(self) }),
            final(effects)@ == old(effects)@.push(Effect::OpenPrompt(prompt)),
    {
        effects.push(Effect::OpenPrompt(prompt));
        self.mode = Mode::Editing;
    }

    fn turn_off_text_mode(&mut self, effects: &mut Vec<Effect>)
        ensures
            *final(self) == closed_mode(*old(self)),
            final(effects)@ == old(effects)@.push(Effect::ClearInput),
    {
        effects.push(Effect::ClearInput);
        self.mode = Mode::Normal;
    }

    /// Opens a prompt whose text goes to `on_submit` when it is submitted.
    pub fn set_text_mode(&mut self, on_submit: TextHandler, prompt: Prompt) -> (effects: Vec<Effect>)
        ensures
            (*final(self), effects@) == text_prompt_step(*old(self), on_submit, prompt),
    {
        let mut effects = Vec::new();
        self.on_input = None;
        self.on_delete = None;
        self.on_submit = Some(on_submit);
        self.turn_on_text_mode(prompt, &mut effects);
        effects
    }

    /// Opens a prompt whose text goes to `on_input` on every input.
    pub fn set_responsive_text_mode(&mut self, on_input: TextHandler, prompt: Prompt) -> (effects: Vec<Effect>)
        ensures
            *final(self) == responsive_mode(*old(self), on_input),
            effects@ == seq![Effect::OpenPrompt(prompt)],
    {
        let mut effects = Vec::new();
        self.on_input = Some(on_input);
        self.turn_on_text_mode(prompt, &mut effects);
        effects
    }

    /// The search prompt.
    pub fn search_prompt(&mut self) -> (effects: Vec<Effect>)
        ensures
            (*final(self), effects@) == search_prompt_step(*old(self)),
    {
        let mut effects = Vec::new();
        effects.push(Effect::SaveRestriction);
        self.restriction_saved = true;
        self.on_submit = None;
        let mut opened = self.set_responsive_text_mode(TextHandler::Search, Prompt::Search);
        effects.append(&mut opened);
        self.on_delete = Some(DeleteHandler::Search);
        effects
    }

    /// The prompt that searches the whole tree.
    pub fn tree_search_prompt(&mut self) -> (effects: Vec<Effect>)
        ensures
            (*final(self), effects@) == text_prompt_step(*old(self), TextHandler::TreeSearch, Prompt::TreeSearch),
    {
        self.set_text_mode(TextHandler::TreeSearch, Prompt::TreeSearch)
    }

    /// The prompt for the schedule day of the current todo.
    pub fn schedule_prompt(&mut self) -> (effects: Vec<Effect>)
        ensures
            (*final(self), effects@) == text_prompt_step(*old(self), TextHandler::Schedule, Prompt::Schedule),
    {
        self.set_text_mode(TextHandler::Schedule, Prompt::Schedule)
    }

    /// The prompt for a reminder date of the current todo.
    pub fn reminder_prompt(&mut self) -> (effects: Vec<Effect>)
        ensures
            (*final(self), effects@) == text_prompt_step(*old(self), TextHandler::Reminder, Prompt::Reminder),
    {
        self.set_text_mode(TextHandler::Reminder, Prompt::Reminder)
    }

    /// The prompt that edits the current todo's message, given that message.
    pub fn edit_prompt(&mut self, start: bool, current_message: Option<String>) -> (effects: Vec<Effect>)
        ensures
            (*final(self), effects@) == edit_prompt_step(*old(self), start, current_message),
    {
        match current_message {
            Some(message) => {
                let placeholder = message.clone();
                let mut effects = self.set_text_mode(TextHandler::EditTodo, Prompt::Edit(placeholder));
                effects.push(Effect::InsertInput(message));
                if start {
                    effects.push(Effect::InputCursorToHead);
                }
                effects
            },
            None => Vec::new(),
        }
    }

    /// The prompt that adds a todo.
    pub fn prepend_prompt(&mut self) -> (effects: Vec<Effect>)
        ensures
            (*final(self), effects@) == text_prompt_step(*old(self), TextHandler::AppendTodo, Prompt::AddTodo),
    {
        self.set_text_mode(TextHandler::AppendTodo, Prompt::AddTodo)
    }

    /// The prompt that restricts the list to a priority.
    pub fn priority_prompt(&mut self) -> (effects: Vec<Effect>)
        ensures
            (*final(self), effects@) == restriction_prompt_step(*old(self), TextHandler::PriorityPrompt, Prompt::Priority),
    {
        let mut effects = Vec::new();
        effects.push(Effect::SaveRestriction);
        self.restriction_saved = true;
        let mut opened = self.set_text_mode(TextHandler::PriorityPrompt, Prompt::Priority);
        effects.append(&mut opened);
        let mut opened = self.set_responsive_text_mode(TextHandler::PriorityPrompt, Prompt::Priority);
        effects.append(&mut opened);
        self.on_delete = Some(DeleteHandler::Priority);
        effects
    }

    /// The prompt that restricts the list to a schedule.
    pub fn schedule_restriction_prompt(&mut self) -> (effects: Vec<Effect>)
        ensures
            (*final(self), effects@) == restriction_prompt_step(
                *old(self),
                TextHandler::SchedulePrompt,
                Prompt::ScheduleRestriction,
            ),
    {
        let mut effects = Vec::new();
        effects.push(Effect::SaveRestriction);
        self.restriction_saved = true;
        let mut opened = self.set_text_mode(TextHandler::SchedulePrompt, Prompt::ScheduleRestriction);
        effects.append(&mut opened);
        let mut opened = self.set_responsive_text_mode(TextHandler::SchedulePrompt, Prompt::ScheduleRestriction);
        effects.append(&mut opened);
        self.on_delete = Some(DeleteHandler::Priority);
        effects
    }

    /// The prompt that adds a todo at the top.
    pub fn append_prompt(&mut self) -> (effects: Vec<Effect>)
        ensures
            (*final(self), effects@) == text_prompt_step(*old(self), TextHandler::PrependTodo, Prompt::AddTodoFirst),
    {
        self.set_text_mode(TextHandler::PrependTodo, Prompt::AddTodoFirst)
    }

    /// Quitting: asks whether to save when there are unsaved changes.
    pub fn quit_save_prompt(&mut self, unsaved_changes: bool) -> (effects: Vec<Effect>)
        ensures
            (*final(self), effects@) == quit_save_prompt_step(*old(self), unsaved_changes),
    {
        if unsaved_changes {
            self.set_text_mode(TextHandler::SavePrompt, Prompt::SaveChanges)
        } else {
            let mut effects = Vec::new();
            effects.push(Effect::Quit);
            effects
        }
    }

    /// Carries out a key binding's command.
    pub fn apply_command(&mut self, cmd: Command, ctx: ActionContext) -> (effects: Vec<Effect>)
        ensures
            (*final(self), effects@) == command_step(*old(self), cmd, ctx),
    {
        match cmd {
            Command::ToggleHelp => {
                self.show_help = !self.show_help;
                Vec::new()
            },
            Command::ToggleRightPanel => {
                self.show_right = !self.show_right;
                Vec::new()
            },
            Command::ToggleModule => {
                self.args.enable_module = !self.args.enable_module;
                Vec::new()
            },
            Command::PrependPrompt => self.prepend_prompt(),
            Command::SchedulePrompt => self.schedule_prompt(),
            Command::ReminderPrompt => self.reminder_prompt(),
            Command::TreeSearchPrompt => self.tree_search_prompt(),
            Command::AppendPrompt => self.append_prompt(),
            Command::SearchPrompt => self.search_prompt(),
            Command::PriorityPrompt => self.priority_prompt(),
            Command::ScheduleRestrictionPrompt => self.schedule_restriction_prompt(),
            Command::EditPrompt(start) => self.edit_prompt(start, ctx.current_message),
            Command::QuitSavePrompt => self.quit_save_prompt(ctx.unsaved_changes),
            _ => {
                let mut effects = Vec::new();
                effects.push(Effect::Perform(cmd));
                effects
            },
        }
    }

    /// Handles a key in normal mode: the bound action, if any, is carried out.
    pub fn handle_normal_input(&mut self, key: KeyEvent, ctx: ActionContext) -> (r: (Vec<Effect>, HandlerOperation))
        ensures
            match lookup(old(self).normal_keymaps@, key) {
                Some(m) => (*final(self), r.0@) == command_step(*old(self), m.action.command, ctx)
                    && r.1 == m.action.operation,
                None => *final(self) == *old(self) && r.0@ == Seq::<Effect>::empty()
                    && r.1 == HandlerOperation::Nothing,
            },
    {
        match self.normal_keymaps.get_action(key) {
            Some(action) => {
                let effects = self.apply_command(action.command, ctx);
                (effects, action.operation)
            },
            None => (Vec::new(), HandlerOperation::Nothing),
        }
    }
}

/// Restricts the list to the todos matching the query.
pub fn on_search(query: String) -> (effects: Vec<Effect>)
    ensures
        effects@ == handler_effects(TextHandler::Search, query, false),
{
    let mut effects = Vec::new();
    effects.push(Effect::SearchRestriction(query));
    effects
}

/// Searches the tree for the query, and moves to the first result unless the
/// current todo matches it.
pub fn on_tree_search(query: String, current_todo_matches: bool) -> (effects: Vec<Effect>)
    ensures
        effects@ == handler_effects(TextHandler::TreeSearch, query, current_todo_matches),
{
    let mut effects = Vec::new();
    effects.push(Effect::TreeSearch(query));
    if !current_todo_matches {
        effects.push(Effect::Perform(Command::NextSearchResult));
    }
    effects
}

/// Schedules the current todo every so many days, when the text is a day count.
pub fn on_schedule(text: String) -> (effects: Vec<Effect>)
    ensures
        effects@ == handler_effects(TextHandler::Schedule, text, false),
{
    let mut effects = Vec::new();
    match parse_u64(text.as_str()) {
        Some(day) => effects.push(Effect::EnableDay(day as i64)),
        None => {},
    }
    effects
}

/// Makes the date in the text the current todo's reminder.
pub fn on_reminder(text: String) -> (effects: Vec<Effect>)
    ensures
        effects@ == handler_effects(TextHandler::Reminder, text, false),
{
    let mut effects = Vec::new();
    effects.push(Effect::SetReminder(text));
    effects
}

/// Changes the current todo's message, unless the text is empty.
pub fn on_edit_todo(text: String) -> (effects: Vec<Effect>)
    ensures
        effects@ == handler_effects(TextHandler::EditTodo, text, false),
{
    let mut effects = Vec::new();
    if !text.as_str().is_empty() {
        effects.push(Effect::SetMessage(text));
    }
    effects
}

/// Adds a todo with the text.
pub fn on_append_todo(text: String) -> (effects: Vec<Effect>)
    ensures
        effects@ == handler_effects(TextHandler::AppendTodo, text, false),
{
    let mut effects = Vec::new();
    effects.push(Effect::AppendTodo(text));
    effects
}

/// Adds a todo with the text at the top.
pub fn on_prepend_todo(text: String) -> (effects: Vec<Effect>)
    ensures
        effects@ == handler_effects(TextHandler::PrependTodo, text, false),
{
    let mut effects = Vec::new();
    effects.push(Effect::PrependTodo(text));
    effects
}

/// Restricts the list to a priority; an empty text shows by done state only.
pub fn on_priority_prompt(text: String) -> (effects: Vec<Effect>)
    ensures
        effects@ == handler_effects(TextHandler::PriorityPrompt, text, false),
{
    let mut effects = Vec::new();
    if text.as_str().is_empty() {
        effects.push(Effect::ShowDoneRestriction);
    } else {
        match parse_u8(text.as_str()) {
            Some(priority) => effects.push(Effect::PriorityRestriction(priority)),
            None => {},
        }
    }
    effects
}

/// Restricts the list to a schedule; an empty text shows by done state only.
pub fn on_schedule_prompt(text: String) -> (effects: Vec<Effect>)
    ensures
        effects@ == handler_effects(TextHandler::SchedulePrompt, text, false),
{
    let mut effects = Vec::new();
    if text.as_str().is_empty() {
        effects.push(Effect::ShowDoneRestriction);
    } else {
        match parse_i64(text.as_str()) {
            Some(days) => effects.push(Effect::ScheduleRestriction(days)),
            None => {},
        }
    }
    effects
}

/// The answer to the save prompt, given its lower-cased text.
pub fn save_prompt_effects(lower: &str) -> (effects: Vec<Effect>)
    ensures
        effects@ == save_effects(lower@),
{
    let mut effects = Vec::new();
    if text_starts_with(lower, 'y') {
        effects.push(Effect::WriteTodos);
        effects.push(Effect::Quit);
    } else if text_starts_with(lower, 'c') {
    } else {
        effects.push(Effect::Quit);
    }
    effects
}

/// The answer to the save prompt.
pub fn on_save_prompt(text: String) -> (effects: Vec<Effect>)
    ensures
        effects@ == handler_effects(TextHandler::SavePrompt, text, false),
{
    let lower = to_lowercase(text.as_str());
    save_prompt_effects(lower.as_str())
}

/// A deletion in the search prompt: emptying it shows by done state only,
/// otherwise the search follows the text.
pub fn on_search_delete(text: String, before: String) -> (effects: Vec<Effect>)
    ensures
        effects@ == delete_effects(DeleteHandler::Search, text, before, false),
{
    if before.as_str().is_empty() {
        let mut effects = Vec::new();
        effects.push(Effect::ShowDoneRestriction);
        effects
    } else {
        on_search(text)
    }
}

/// A deletion in a restricting prompt: an emptied text gives the kept
/// restriction back, and a deletion from an empty text shows by done state.
pub fn on_priority_delete(text: String, before: String, restriction_saved: bool) -> (effects: Vec<Effect>)
    ensures
        effects@ == delete_effects(DeleteHandler::Priority, text, before, restriction_saved),
{
    let mut effects = Vec::new();
    if text.as_str().is_empty() && restriction_saved {
        effects.push(Effect::RestoreRestriction);
    }
    if before.as_str().is_empty() {
        effects.push(Effect::ShowDoneRestriction);
    }
    effects
}

/// The work of a text handler.
pub fn run_text_handler(h: TextHandler, text: String, current_todo_matches: bool) -> (effects: Vec<Effect>)
    ensures
        effects@ == handler_effects(h, text, current_todo_matches),
{
    match h {
        TextHandler::Search => on_search(text),
        TextHandler::TreeSearch => on_tree_search(text, current_todo_matches),
        TextHandler::Schedule => on_schedule(text),
        TextHandler::Reminder => on_reminder(text),
        TextHandler::EditTodo => on_edit_todo(text),
        TextHandler::AppendTodo => on_append_todo(text),
        TextHandler::PrependTodo => on_prepend_todo(text),
        TextHandler::PriorityPrompt => on_priority_prompt(text),
        TextHandler::SchedulePrompt => on_schedule_prompt(text),
        TextHandler::SavePrompt => on_save_prompt(text),
    }
}

impl TuiApp {
    /// Handles what the text field reports: the handler of the prompt gets
    /// the text, and submitting or cancelling closes the prompt.
    pub fn handle_text_input(&mut self, op: EditorOperation, text: String, current_todo_matches: bool) -> (r: (Vec<Effect>, HandlerOperation))
        ensures
            (*final(self), r.0@) == text_input_step(*old(self), op, text, current_todo_matches),
            r.1 == HandlerOperation::Nothing,
    {
        let mut effects = Vec::new();
        match op {
            EditorOperation::Input => {
                if let Some(on_input) = self.on_input {
                    effects = run_text_handler(on_input, text, current_todo_matches);
                }
            },
            EditorOperation::Submit => {
                if let Some(on_submit) = self.on_submit {
                    effects = run_text_handler(on_submit, text, current_todo_matches);
                }
                self.turn_off_text_mode(&mut effects);
            },
            EditorOperation::Cancel => {
                self.turn_off_text_mode(&mut effects);
            },
            EditorOperation::Delete(before) => {
                if let Some(on_delete) = self.on_delete {
                    effects = match on_delete {
                        DeleteHandler::Search => on_search_delete(text, before),
                        DeleteHandler::Priority => on_priority_delete(text, before, self.restriction_saved),
                    };
                }
            },
        }
        (effects, HandlerOperation::Nothing)
    }
}

/// The day count of a todo as the schedule restriction compares it: none
/// (0) without a schedule or for a reminder, otherwise the schedule's days.
pub open spec fn schedule_day_of(has_schedule: bool, is_reminder: bool, days: i64) -> i64 {
    if has_schedule && !is_reminder {
        days
    } else {
        0
    }
}

/// The day count of a todo as the schedule restriction compares it.
pub fn schedule_day(has_schedule: bool, is_reminder: bool, days: i64) -> (r: i64)
    ensures
        r == schedule_day_of(has_schedule, is_reminder, days),
{
    if has_schedule && !is_reminder {
        days
    } else {
        0
    }
}

/// Whether a todo passes the schedule restriction to `wanted` days: its day
/// count (see `schedule_day`) equals `wanted`.
pub fn matches_schedule_restriction(has_schedule: bool, is_reminder: bool, days: i64, wanted: i64) -> (r: bool)
    ensures
        r == (schedule_day_of(has_schedule, is_reminder, days) == wanted),
{
    schedule_day(has_schedule, is_reminder, days) == wanted
}

} // verus!
