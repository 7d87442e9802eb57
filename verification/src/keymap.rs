//! Key bindings: what each key of normal mode does, and the table that maps
//! keys to their bindings.
use vstd::prelude::*;
use vstd::string::*;
use crate::keys::{KeyEvent, keys_match, same_key};
use crate::tui::{ActionContext, Effect, HandlerOperation, TuiApp, command_step};

verus! {

/// What a key binding does.
#[derive(Clone, Copy, Debug, PartialEq, Eq, Structural)]
pub enum Command {
    ToggleHelp,
    PrependPrompt,
    Suspend,
    OpenFileBrowser,
    RemoveTodoAndYank,
    ToggleDaily,
    ToggleWeekly,
    SchedulePrompt,
    ReminderPrompt,
    ToggleSchedule,
    ToggleShowDone,
    PriorityPrompt,
    ScheduleRestrictionPrompt,
    YankTodo,
    PasteTodo,
    IncreaseDayBy(i64),
    AppendFromFiles,
    OutputToFiles,
    GoDown,
    GoUp,
    AddDependencyTraverseDown,
    TraverseDown,
    TraverseUp,
    GoTop,
    GoBottom,
    Write,
    MoveCurrentDown,
    MoveCurrentUp,
    ToggleRightPanel,
    ToggleModule,
    EditOrAddNote,
    AddDependency,
    RemoveTodo,
    Read,
    RemoveCurrentDependent,
    ToggleCurrentDone,
    NextSearchResult,
    SearchPrompt,
    TreeSearchPrompt,
    AppendPrompt,
    EditPrompt(bool),
    BatchEditMessages,
    GoRoot,
    QuitSavePrompt,
    PotatoSkip,
    PotatoIncreaseTimer,
    PotatoTogglePause,
    PotatoQuit,
    PotatoDecreaseTimer,
    PotatoRestart,
    FzfSearch,
    PotatoIncreasePomodoro,
    PotatoDecreasePomodoro,
    PotatoNext,
    PotatoPrev,
}

/// The action of a binding: what it does, and what the main loop does after.
#[derive(Clone, Copy, Debug, PartialEq, Eq, Structural)]
pub struct Action {
    pub command: Command,
    pub operation: HandlerOperation,
}

/// A key binding: its description for the help page and its action.
#[derive(Clone, Debug, PartialEq, Eq)]
pub struct Keymap {
    pub description: String,
    pub action: Action,
}

/// A binding as the contracts see it.
pub struct KeymapView {
    pub description: Seq<char>,
    pub action: Action,
}

impl View for Keymap {
    type V = KeymapView;

    open spec fn view(&self) -> KeymapView {
        KeymapView { description: self.description@, action: self.action }
    }
}

/// The bindings as the contracts see them.
pub open spec fn bindings_view(s: Seq<(KeyEvent, Keymap)>) -> Seq<(KeyEvent, KeymapView)> {
    s.map_values(|e: (KeyEvent, Keymap)| (e.0, e.1@))
}

/// Some binding of `s` is for the key `k`.
pub open spec fn has_key(s: Seq<(KeyEvent, KeymapView)>, k: KeyEvent) -> bool {
    exists|i: int| 0 <= i < s.len() && same_key(#[trigger] s[i].0, k)
}

/// The position of a binding of `s` for the key `k`.
pub open spec fn key_position(s: Seq<(KeyEvent, KeymapView)>, k: KeyEvent) -> int {
    choose|i: int| 0 <= i < s.len() && same_key(#[trigger] s[i].0, k)
}

/// No two bindings of `s` are for the same key.
pub open spec fn keys_distinct(s: Seq<(KeyEvent, KeymapView)>) -> bool {
    forall|i: int, j: int|
        0 <= i < s.len() && 0 <= j < s.len() && i != j ==> !same_key(#[trigger] s[i].0, #[trigger] s[j].0)
}

/// The binding of `s` for the key `k`, if there is one.
pub open spec fn lookup(s: Seq<(KeyEvent, KeymapView)>, k: KeyEvent) -> Option<KeymapView> {
    if has_key(s, k) {
        Some(s[key_position(s, k)].1)
    } else {
        None
    }
}

/// `s` with the binding `m` for `k`: a binding for the same key keeps its key
/// and gets `m`; otherwise the binding is added at the end.
pub open spec fn inserted(s: Seq<(KeyEvent, KeymapView)>, k: KeyEvent, m: KeymapView) -> Seq<(KeyEvent, KeymapView)> {
    if has_key(s, k) {
        let i = key_position(s, k);
        s.update(i, (s[i].0, m))
    } else {
        s.push((k, m))
    }
}

/// The bindings made by inserting those of `v` one after the other, so that a
/// later binding for a key replaces an earlier one.
pub open spec fn collected(v: Seq<(KeyEvent, KeymapView)>) -> Seq<(KeyEvent, KeymapView)>
    decreases v.len(),
{
    if v.len() == 0 {
        Seq::empty()
    } else {
        inserted(collected(v.drop_last()), v.last().0, v.last().1)
    }
}

/// In a table without repeated keys, the binding for a key is the one at
/// the position of a binding for the same key.
pub proof fn lemma_lookup_at(s: Seq<(KeyEvent, KeymapView)>, i: int, k: KeyEvent)
    requires
        keys_distinct(s),
        0 <= i < s.len(),
        same_key(s[i].0, k),
    ensures
        has_key(s, k),
        key_position(s, k) == i,
        lookup(s, k) == Some(s[i].1),
{
    assert(has_key(s, k));
    let j = key_position(s, k);
    if j != i {
        assert(!same_key(s[i].0, s[j].0));
    }
}

/// Inserting keeps keys distinct.
pub proof fn lemma_inserted_distinct(s: Seq<(KeyEvent, KeymapView)>, k: KeyEvent, m: KeymapView)
    requires
        keys_distinct(s),
    ensures
        keys_distinct(inserted(s, k, m)),
{
    let r = inserted(s, k, m);
    if has_key(s, k) {
        let p = key_position(s, k);
        assert forall|i: int, j: int|
            0 <= i < r.len() && 0 <= j < r.len() && i != j implies !same_key(#[trigger] r[i].0, #[trigger] r[j].0) by {
            assert(r[i].0 == s[i].0);
            assert(r[j].0 == s[j].0);
        }
    } else {
        assert forall|i: int, j: int|
            0 <= i < r.len() && 0 <= j < r.len() && i != j implies !same_key(#[trigger] r[i].0, #[trigger] r[j].0) by {
            if i < s.len() && j < s.len() {
                assert(r[i].0 == s[i].0);
                assert(r[j].0 == s[j].0);
            } else if i == s.len() {
                assert(r[j].0 == s[j].0);
                if same_key(r[i].0, r[j].0) {
                    assert(same_key(s[j].0, k));
                }
            } else {
                assert(r[i].0 == s[i].0);
                if same_key(r[i].0, r[j].0) {
                    assert(same_key(s[i].0, k));
                }
            }
        }
    }
}

/// Collecting always gives distinct keys.
pub proof fn lemma_collected_distinct(v: Seq<(KeyEvent, KeymapView)>)
    ensures
        keys_distinct(collected(v)),
    decreases v.len(),
{
    if v.len() > 0 {
        lemma_collected_distinct(v.drop_last());
        lemma_inserted_distinct(collected(v.drop_last()), v.last().0, v.last().1);
    }
}

/// After a binding for `k` is inserted, looking up a key gives that binding
/// when the key is the same as `k`, and what it gave before otherwise.
pub proof fn lemma_lookup_inserted(s: Seq<(KeyEvent, KeymapView)>, k: KeyEvent, m: KeymapView, q: KeyEvent)
    requires
        keys_distinct(s),
    ensures
        lookup(inserted(s, k, m), q) == if same_key(k, q) { Some(m) } else { lookup(s, q) },
{
    let r = inserted(s, k, m);
    lemma_inserted_distinct(s, k, m);
    if has_key(s, k) {
        let p = key_position(s, k);
        assert(same_key(s[p].0, k));
        if same_key(k, q) {
            lemma_lookup_at(r, p, q);
        } else if has_key(s, q) {
            let j = key_position(s, q);
            assert(j != p);
            lemma_lookup_at(r, j, q);
        } else {
            if has_key(r, q) {
                let j = key_position(r, q);
                assert(same_key(s[j].0, q));
            }
        }
    } else {
        if same_key(k, q) {
            lemma_lookup_at(r, s.len() as int, q);
        } else if has_key(s, q) {
            let j = key_position(s, q);
            lemma_lookup_at(r, j, q);
        } else {
            if has_key(r, q) {
                let j = key_position(r, q);
                if j < s.len() {
                    assert(same_key(s[j].0, q));
                }
            }
        }
    }
}

/// Collecting bindings whose keys are already distinct keeps them as they are.
pub proof fn lemma_collected_identity(v: Seq<(KeyEvent, KeymapView)>)
    requires
        keys_distinct(v),
    ensures
        collected(v) == v,
    decreases v.len(),
{
    if v.len() > 0 {
        let init = v.drop_last();
        assert(keys_distinct(init)) by {
            assert forall|i: int, j: int|
                0 <= i < init.len() && 0 <= j < init.len() && i != j implies !same_key(#[trigger] init[i].0, #[trigger] init[j].0) by {
                assert(init[i] == v[i]);
                assert(init[j] == v[j]);
            }
        }
        lemma_collected_identity(init);
        if has_key(init, v.last().0) {
            let j = key_position(init, v.last().0);
            assert(v[j] == init[j]);
            assert(!same_key(v[j].0, v[v.len() - 1].0));
        }
        assert(init.push(v.last()) =~= v);
    }
}

/// The key bindings of a mode: for each key at most one binding, in the order
/// in which their keys were first bound.
pub struct KeymapManager {
    keymaps: Vec<(KeyEvent, Keymap)>,
}

impl View for KeymapManager {
    type V = Seq<(KeyEvent, KeymapView)>;

    closed spec fn view(&self) -> Seq<(KeyEvent, KeymapView)> {
        bindings_view(self.keymaps@)
    }
}

impl KeymapManager {
    #[verifier::type_invariant]
    spec fn well_formed(self) -> bool {
        keys_distinct(bindings_view(self.keymaps@))
    }

    /// No bindings.
    pub fn new() -> (r: KeymapManager)
        ensures
            r@ == Seq::<(KeyEvent, KeymapView)>::empty(),
    {
        let r = KeymapManager { keymaps: Vec::new() };
        assert(r@ =~= Seq::<(KeyEvent, KeymapView)>::empty());
        r
    }

    fn position(keymaps: &Vec<(KeyEvent, Keymap)>, key: &KeyEvent) -> (r: Option<usize>)
        requires
            keys_distinct(bindings_view(keymaps@)),
        ensures
            match r {
                Some(i) => i < keymaps@.len() && has_key(bindings_view(keymaps@), *key)
                    && key_position(bindings_view(keymaps@), *key) == i,
                None => !has_key(bindings_view(keymaps@), *key),
            },
    {
        let ghost s = bindings_view(keymaps@);
        let mut i: usize = 0;
        while i < keymaps.len()
            invariant
                s == bindings_view(keymaps@),
                keys_distinct(s),
                i <= keymaps@.len(),
                forall|j: int| 0 <= j < i ==> !same_key(#[trigger] s[j].0, *key),
            decreases keymaps@.len() - i,
        {
            assert(s[i as int].0 == keymaps@[i as int].0);
            if keys_match(&keymaps[i].0, key) {
                proof {
                    lemma_lookup_at(s, i as int, *key);
                }
                return Some(i);
            }
            i = i + 1;
        }
        None
    }

    /// Binds `key` to `keymap`. A binding for the same key keeps its key and
    /// gets the new description and action; otherwise the binding is added.
    pub fn add(&mut self, key: KeyEvent, keymap: Keymap)
        ensures
            final(self)@ == inserted(old(self)@, key, keymap@),
    {
        proof {
            use_type_invariant(&*self);
        }
        let mut keymaps: Vec<(KeyEvent, Keymap)> = Vec::new();
        std::mem::swap(&mut keymaps, &mut self.keymaps);
        let ghost s = bindings_view(keymaps@);
        let ghost m = keymap@;
        match Self::position(&keymaps, &key) {
            Some(i) => {
                let k = keymaps[i].0;
                keymaps.set(i, (k, keymap));
                assert(bindings_view(keymaps@) =~= inserted(s, key, m));
            },
            None => {
                keymaps.push((key, keymap));
                assert(bindings_view(keymaps@) =~= inserted(s, key, m));
            },
        }
        proof {
            lemma_inserted_distinct(s, key, m);
        }
        self.keymaps = keymaps;
    }

    /// All bindings, each with the key it was first bound under.
    pub fn get_all(&self) -> (r: &Vec<(KeyEvent, Keymap)>)
        ensures
            bindings_view(r@) == self@,
    {
        &self.keymaps
    }

    /// The action bound to `key`, if any.
    pub fn get_action(&self, key: KeyEvent) -> (r: Option<Action>)
        ensures
            r == match lookup(self@, key) {
                Some(m) => Some(m.action),
                None => None::<Action>,
            },
    {
        proof {
            use_type_invariant(self);
        }
        match Self::position(&self.keymaps, &key) {
            Some(i) => {
                assert(bindings_view(self.keymaps@)[i as int].1 == self.keymaps@[i as int].1@);
                Some(self.keymaps[i].1.action)
            },
            None => None,
        }
    }

    /// The manager holding the bindings of `value`, a later binding for a key
    /// replacing an earlier one.
    pub fn from(value: Vec<(KeyEvent, Keymap)>) -> (r: KeymapManager)
        ensures
            r@ == collected(bindings_view(value@)),
    {
        let mut r = KeymapManager::new();
        let mut value = value;
        let ghost v = bindings_view(value@);
        let ghost k: int = 0;
        while value.len() > 0
            invariant
                0 <= k <= v.len(),
                bindings_view(value@) == v.skip(k),
                r@ == collected(v.take(k)),
            decreases value@.len(),
        {
            let ghost before = value@;
            let e = value.remove(0);
            proof {
                assert(bindings_view(before).len() == before.len());
                assert(k < v.len());
                assert(e == before[0]);
                assert(bindings_view(before)[0] == (before[0].0, before[0].1@));
                assert(v.skip(k)[0] == v[k]);
                assert(v[k] == (e.0, e.1@));
                assert(v.take(k + 1).drop_last() =~= v.take(k));
                assert(bindings_view(value@) =~= v.skip(k + 1)) by {
                    assert(value@ =~= before.subrange(1, before.len() as int));
                    assert forall|i: int| 0 <= i < value@.len() implies #[trigger] bindings_view(value@)[i] == v.skip(k + 1)[i] by {
                        assert(value@[i] == before[i + 1]);
                        assert(bindings_view(before)[i + 1] == v.skip(k)[i + 1]);
                    }
                }
            }
            r.add(e.0, e.1);
            proof {
                k = k + 1;
            }
        }
        assert(v.take(k) =~= v);
        r
    }
}

} // verus!

verus! {

impl KeymapManager {
    /// Carries out the action bound to `key`, if any, on `tui_app`.
    pub fn do_action(&self, key: KeyEvent, tui_app: &mut TuiApp, ctx: ActionContext) -> (effects: Vec<Effect>)
        ensures
            match lookup(self@, key) {
                Some(m) => (*final(tui_app), effects@) == command_step(*old(tui_app), m.action.command, ctx),
                None => *final(tui_app) == *old(tui_app) && effects@ == Seq::<Effect>::empty(),
            },
    {
        match self.get_action(key) {
            Some(action) => tui_app.apply_command(action.command, ctx),
            None => Vec::new(),
        }
    }
}

} // verus!
