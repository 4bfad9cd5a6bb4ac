//! The actions the interactive context understands, their key bindings, and
//! contextual action sets with a verified no-two-actions-share-a-key
//! construction check.

use vstd::prelude::*;

use crate::key::Key;

verus! {

/// Everything a key press can mean.
#[derive(Debug, Clone, Copy, PartialEq, Eq, Structural)]
pub enum Action {
    Quit,
    IncrementDelay,
    DecrementDelay,
    BackToPreviours,
    StepInto,
    MoveUp,
    MoveDown,
    Save,
}

/// The fixed key bindings of each action.
pub open spec fn spec_action_keys(a: Action) -> Seq<Key> {
    match a {
        Action::Quit => seq![Key::Ctrl('c'), Key::Char('q')],
        Action::IncrementDelay => seq![Key::Char('+')],
        Action::DecrementDelay => seq![Key::Char('-')],
        Action::BackToPreviours => seq![Key::Char('h'), Key::Esc],
        Action::StepInto => seq![Key::Enter, Key::Char('l')],
        Action::MoveUp => seq![Key::Up, Key::Char('k')],
        Action::MoveDown => seq![Key::Down, Key::Char('j')],
        Action::Save => seq![Key::Char('s')],
    }
}

/// Every action, in the fixed order lookups scan them.
pub open spec fn spec_all_actions() -> Seq<Action> {
    seq![
        Action::Quit,
        Action::IncrementDelay,
        Action::DecrementDelay,
        Action::BackToPreviours,
        Action::StepInto,
        Action::MoveUp,
        Action::MoveDown,
        Action::Save,
    ]
}

/// The display label of each action.
pub open spec fn spec_action_label(a: Action) -> Seq<char> {
    match a {
        Action::Quit => "Quit"@,
        Action::IncrementDelay => "Increment delay"@,
        Action::DecrementDelay => "Decrement delay"@,
        Action::BackToPreviours => "Back to previous"@,
        Action::StepInto => "Step into"@,
        Action::MoveUp => "Move up"@,
        Action::MoveDown => "Move down"@,
        Action::Save => "Save"@,
    }
}

impl Action {
    /// All available actions, in scan order.
    pub fn iterator() -> (r: Vec<Action>)
        ensures
            r@ == spec_all_actions(),
    {
        let r = vec![
            Action::Quit,
            Action::IncrementDelay,
            Action::DecrementDelay,
            Action::BackToPreviours,
            Action::StepInto,
            Action::MoveUp,
            Action::MoveDown,
            Action::Save,
        ];
        proof {
            assert(r@ =~= spec_all_actions());
        }
        r
    }

    /// The keys bound to this action.
    pub fn keys(&self) -> (r: Vec<Key>)
        ensures
            r@ == spec_action_keys(*self),
    {
        let r = match self {
            Action::Quit => vec![Key::Ctrl('c'), Key::Char('q')],
            Action::IncrementDelay => vec![Key::Char('+')],
            Action::DecrementDelay => vec![Key::Char('-')],
            Action::BackToPreviours => vec![Key::Char('h'), Key::Esc],
            Action::StepInto => vec![Key::Enter, Key::Char('l')],
            Action::MoveUp => vec![Key::Up, Key::Char('k')],
            Action::MoveDown => vec![Key::Down, Key::Char('j')],
            Action::Save => vec![Key::Char('s')],
        };
        proof {
            assert(r@ =~= spec_action_keys(*self));
        }
        r
    }

    /// A short human-readable description of the action.
    pub fn label(&self) -> (r: &'static str)
        ensures
            r@ == spec_action_label(*self),
    {
        match self {
            Action::Quit => "Quit",
            Action::IncrementDelay => "Increment delay",
            Action::DecrementDelay => "Decrement delay",
            Action::BackToPreviours => "Back to previous",
            Action::StepInto => "Step into",
            Action::MoveUp => "Move up",
            Action::MoveDown => "Move down",
            Action::Save => "Save",
        }
    }
}

/// Two actions share at least one key.
pub open spec fn spec_share_key(a: Action, b: Action) -> bool {
    exists|k: Key| spec_action_keys(a).contains(k) && spec_action_keys(b).contains(k)
}

/// Some two actions of `s` (at distinct positions) share a key.
pub open spec fn spec_has_conflict(s: Seq<Action>) -> bool {
    exists|i: int, j: int| 0 <= i < j < s.len() && spec_share_key(s[i], s[j])
}

fn keys_contain(v: &Vec<Key>, k: Key) -> (r: bool)
    ensures
        r == v@.contains(k),
{
    let mut i: usize = 0;
    while i < v.len()
        invariant
            i <= v@.len(),
            forall|x: int| 0 <= x < i ==> v@[x] != k,
        decreases v@.len() - i,
    {
        if v[i] == k {
            return true;
        }
        i = i + 1;
    }
    false
}

fn actions_contain(v: &Vec<Action>, a: Action) -> (r: bool)
    ensures
        r == v@.contains(a),
{
    let mut i: usize = 0;
    while i < v.len()
        invariant
            i <= v@.len(),
            forall|x: int| 0 <= x < i ==> v@[x] != a,
        decreases v@.len() - i,
    {
        if v[i] == a {
            return true;
        }
        i = i + 1;
    }
    false
}

/// Decides [`spec_share_key`].
fn share_key(a: Action, b: Action) -> (r: bool)
    ensures
        r == spec_share_key(a, b),
{
    let ka = a.keys();
    let kb = b.keys();
    let mut i: usize = 0;
    while i < ka.len()
        invariant
            i <= ka@.len(),
            ka@ == spec_action_keys(a),
            kb@ == spec_action_keys(b),
            forall|x: int| 0 <= x < i ==> !kb@.contains(#[trigger] ka@[x]),
        decreases ka@.len() - i,
    {
        if keys_contain(&kb, ka[i]) {
            proof {
                assert(spec_action_keys(a).contains(ka@[i as int]));
            }
            return true;
        }
        i = i + 1;
    }
    proof {
        if spec_share_key(a, b) {
            let k = choose|k: Key|
                spec_action_keys(a).contains(k) && spec_action_keys(b).contains(k);
            let x = choose|x: int| 0 <= x < ka@.len() && ka@[x] == k;
            assert(!kb@.contains(ka@[x]));
        }
    }
    false
}

/// The contextual set of actions currently in effect.
#[derive(Debug)]
pub struct Actions(Vec<Action>);

impl View for Actions {
    type V = Seq<Action>;

    closed spec fn view(&self) -> Seq<Action> {
        self.0@
    }
}

impl Default for Actions {
    /// The empty contextual set: no action is in effect.
    fn default() -> (r: Self)
        ensures
            r@ == Seq::<Action>::empty(),
    {
        let r = Actions(Vec::new());
        proof {
            assert(r@ =~= Seq::<Action>::empty());
        }
        r
    }
}

impl Actions {
    /// Builds a contextual action set, refusing one in which two actions
    /// (at distinct positions) share a key: an invalid key-binding table
    /// must fail at construction, before a binding can be shadowed. On
    /// refusal the offending pair is returned.
    pub fn build(actions: Vec<Action>) -> (r: Result<Actions, (Action, Action)>)
        ensures
            r is Ok <==> !spec_has_conflict(actions@),
            r matches Ok(a) ==> a@ == actions@,
            r matches Err((x, y)) ==> actions@.contains(x) && actions@.contains(y)
                && spec_share_key(x, y),
    {
        let n = actions.len();
        let mut i: usize = 0;
        while i < n
            invariant
                i <= n,
                n == actions@.len(),
                forall|p: int, q: int|
                    0 <= p < q < n && p < i ==> !spec_share_key(
                        #[trigger] actions@[p],
                        #[trigger] actions@[q],
                    ),
            decreases n - i,
        {
            let mut j: usize = i + 1;
            while j < n
                invariant
                    i < j <= n,
                    n == actions@.len(),
                    forall|q: int| i < q < j ==> !spec_share_key(actions@[i as int], #[trigger] actions@[q]),
                decreases n - j,
            {
                if share_key(actions[i], actions[j]) {
                    proof {
                        assert(spec_has_conflict(actions@));
                    }
                    return Err((actions[i], actions[j]));
                }
                j = j + 1;
            }
            i = i + 1;
        }
        proof {
            if spec_has_conflict(actions@) {
                let (p, q) = choose|p: int, q: int|
                    0 <= p < q < actions@.len() && spec_share_key(actions@[p], actions@[q]);
                assert(!spec_share_key(actions@[p], actions@[q]));
            }
        }
        Ok(Actions(actions))
    }

    /// The first action, in the fixed scan order, that is part of `ctx` and
    /// has `key` among its bindings.
    pub open spec fn spec_find(ctx: Seq<Action>, candidates: Seq<Action>, key: Key) -> Option<
        Action,
    >
        decreases candidates.len(),
    {
        if candidates.len() == 0 {
            None
        } else if ctx.contains(candidates[0]) && spec_action_keys(candidates[0]).contains(key) {
            Some(candidates[0])
        } else {
            Self::spec_find(ctx, candidates.drop_first(), key)
        }
    }

    /// Given a key, finds the action it triggers in this contextual set.
    pub fn find(&self, key: Key) -> (r: Option<Action>)
        ensures
            r == Self::spec_find(self@, spec_all_actions(), key),
    {
        let all = Action::iterator();
        let n = all.len();
        let mut i: usize = 0;
        proof {
            assert(spec_all_actions().skip(0) =~= spec_all_actions());
        }
        while i < n
            invariant
                i <= n,
                n == all@.len(),
                all@ == spec_all_actions(),
                Self::spec_find(self@, spec_all_actions(), key) == Self::spec_find(
                    self@,
                    spec_all_actions().skip(i as int),
                    key,
                ),
            decreases n - i,
        {
            let a = all[i];
            proof {
                assert(spec_all_actions().skip(i as int)[0] == all@[i as int]);
                assert(spec_all_actions().skip(i as int).drop_first() =~= spec_all_actions().skip(
                    i + 1,
                ));
            }
            if actions_contain(&self.0, a) {
                let ks = a.keys();
                if keys_contain(&ks, key) {
                    return Some(a);
                }
            }
            i = i + 1;
        }
        proof {
            assert(spec_all_actions().skip(n as int) =~= Seq::<Action>::empty());
        }
        None
    }

    /// The actions of this contextual set, for building a help view.
    pub fn actions(&self) -> (r: &[Action])
        ensures
            r@ == self@,
    {
        self.0.as_slice()
    }
}

} // verus!
