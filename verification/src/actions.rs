use vstd::prelude::*;

use crate::key::Key;

verus! {

/// A command the operator can trigger from the keyboard.
#[derive(Clone, Copy, Debug, PartialEq, Eq, Structural)]
pub enum Action {
    /// Fetch and cache the current symbol list.
    ListSymbols,
    /// Open the live data stream.
    StartStream,
    /// Leave the interactive session.
    Quit,
}

/// The fixed trigger keys of each action.
pub open spec fn spec_keys(a: Action) -> Seq<Key> {
    match a {
        Action::Quit => seq![Key::Ctrl('c'), Key::Char('q')],
        Action::ListSymbols => seq![Key::Char('1')],
        Action::StartStream => seq![Key::Char('2')],
    }
}

/// Key `k` triggers action `a`.
pub open spec fn binds(a: Action, k: Key) -> bool {
    spec_keys(a).contains(k)
}

/// Every action, in the fixed presentation order.
pub open spec fn all_actions() -> Seq<Action> {
    seq![Action::Quit, Action::ListSymbols, Action::StartStream]
}

/// The display label of each action.
pub open spec fn spec_label(a: Action) -> Seq<char> {
    match a {
        Action::Quit => "Quit"@,
        Action::ListSymbols => "List symbols"@,
        Action::StartStream => "Start stream"@,
    }
}

impl Action {
    /// All available actions, in presentation order.
    pub fn iterator() -> (r: Vec<Action>)
        ensures
            r@ == all_actions(),
    {
        let r = vec![Action::Quit, Action::ListSymbols, Action::StartStream];
        proof {
            assert(r@ =~= all_actions());
        }
        r
    }

    /// The list of keys bound to this action.
    pub fn keys(&self) -> (r: Vec<Key>)
        ensures
            r@ == spec_keys(*self),
    {
        match self {
            Action::Quit => {
                let r = vec![Key::Ctrl('c'), Key::Char('q')];
                proof {
                    assert(r@ =~= spec_keys(Action::Quit));
                }
                r
            },
            Action::ListSymbols => {
                let r = vec![Key::Char('1')];
                proof {
                    assert(r@ =~= spec_keys(Action::ListSymbols));
                }
                r
            },
            Action::StartStream => {
                let r = vec![Key::Char('2')];
                proof {
                    assert(r@ =~= spec_keys(Action::StartStream));
                }
                r
            },
        }
    }

    /// Whether key `k` triggers this action.
    pub fn has_key(&self, k: Key) -> (r: bool)
        ensures
            r == binds(*self, k),
    {
        let ks = self.keys();
        let mut i: usize = 0;
        while i < ks.len()
            invariant
                i <= ks@.len(),
                ks@ == spec_keys(*self),
                forall|m: int| 0 <= m < i ==> ks@[m] != k,
            decreases ks@.len() - i,
        {
            if ks[i] == k {
                return true;
            }
            i += 1;
        }
        false
    }

    /// A short human-readable description of the action.
    pub fn label(&self) -> (r: String)
        ensures
            r@ == spec_label(*self),
    {
        match self {
            Action::Quit => "Quit".to_owned(),
            Action::ListSymbols => "List symbols".to_owned(),
            Action::StartStream => "Start stream".to_owned(),
        }
    }
}

/// The actions of `s` that key `k` triggers, in list order.
pub open spec fn owners_of(s: Seq<Action>, k: Key) -> Seq<Action>
    decreases s.len(),
{
    if s.len() == 0 {
        Seq::empty()
    } else if binds(s.last(), k) {
        owners_of(s.drop_last(), k).push(s.last())
    } else {
        owners_of(s.drop_last(), k)
    }
}

/// Key `k` triggers more than one entry of `s`.
pub open spec fn conflicted(s: Seq<Action>, k: Key) -> bool {
    owners_of(s, k).len() >= 2
}

/// No key triggers two entries of `s`.
pub open spec fn conflict_free(s: Seq<Action>) -> bool {
    forall|k: Key| !(#[trigger] conflicted(s, k))
}

proof fn lemma_binder_counted(s: Seq<Action>, i: int, k: Key)
    requires
        0 <= i < s.len(),
        binds(s[i], k),
    ensures
        owners_of(s, k).len() >= 1,
    decreases s.len(),
{
    if i < s.len() - 1 {
        lemma_binder_counted(s.drop_last(), i, k);
    }
}

proof fn lemma_two_binders(s: Seq<Action>, i: int, j: int, k: Key)
    requires
        0 <= i < j < s.len(),
        binds(s[i], k),
        binds(s[j], k),
    ensures
        conflicted(s, k),
    decreases s.len(),
{
    if j == s.len() - 1 {
        lemma_binder_counted(s.drop_last(), i, k);
    } else {
        lemma_two_binders(s.drop_last(), i, j, k);
    }
}

proof fn lemma_owner_witness(s: Seq<Action>, k: Key)
    requires
        owners_of(s, k).len() >= 1,
    ensures
        exists|i: int| 0 <= i < s.len() && binds(#[trigger] s[i], k),
    decreases s.len(),
{
    if binds(s.last(), k) {
        assert(binds(s[s.len() - 1], k));
    } else {
        lemma_owner_witness(s.drop_last(), k);
        let i = choose|i: int| 0 <= i < s.drop_last().len() && binds(#[trigger] s.drop_last()[i], k);
        assert(binds(s[i], k));
    }
}

proof fn lemma_conflicted_witnesses(s: Seq<Action>, k: Key)
    requires
        conflicted(s, k),
    ensures
        exists|i: int, j: int|
            0 <= i < j < s.len() && binds(#[trigger] s[i], k) && binds(#[trigger] s[j], k),
    decreases s.len(),
{
    if binds(s.last(), k) {
        lemma_owner_witness(s.drop_last(), k);
        let i = choose|i: int| 0 <= i < s.drop_last().len() && binds(#[trigger] s.drop_last()[i], k);
        assert(binds(s[i], k) && binds(s[s.len() - 1], k));
    } else {
        lemma_conflicted_witnesses(s.drop_last(), k);
        let (i, j) = choose|i: int, j: int|
            0 <= i < j < s.drop_last().len() && binds(#[trigger] s.drop_last()[i], k) && binds(
                #[trigger] s.drop_last()[j],
                k,
            );
        assert(binds(s[i], k) && binds(s[j], k));
    }
}

/// Law: if two entries of an action list share one trigger key, the list
/// is conflicted, so registry construction refuses it.
pub proof fn lemma_shared_key_conflicts(s: Seq<Action>, i: int, j: int, k: Key)
    requires
        0 <= i < j < s.len(),
        binds(s[i], k),
        binds(s[j], k),
    ensures
        !conflict_free(s),
{
    lemma_two_binders(s, i, j, k);
}

/// Law: an action list whose entries have pairwise-disjoint key sets is
/// conflict-free, so registry construction accepts it and keeps its order.
pub proof fn lemma_disjoint_keys_conflict_free(s: Seq<Action>)
    requires
        forall|i: int, j: int, k: Key|
            #![trigger binds(s[i], k), binds(s[j], k)]
            0 <= i < j < s.len() ==> !(binds(s[i], k) && binds(s[j], k)),
    ensures
        conflict_free(s),
{
    assert forall|k: Key| !(#[trigger] conflicted(s, k)) by {
        if conflicted(s, k) {
            lemma_conflicted_witnesses(s, k);
        }
    }
}

/// A key bound to more than one action, reported with every action that
/// binds it, in list order.
#[derive(Debug)]
pub struct KeyConflict {
    /// The shared trigger key.
    pub key: Key,
    /// Every action of the offered list bound to that key.
    pub actions: Vec<Action>,
}

/// The validated, conflict-free, ordered set of actions active in the
/// current context. Built once; immutable afterwards.
#[derive(Clone)]
pub struct Actions(Vec<Action>);

impl View for Actions {
    type V = Seq<Action>;

    closed spec fn view(&self) -> Seq<Action> {
        self.0@
    }
}

fn seen_contains(v: &Vec<Key>, k: Key) -> (r: bool)
    ensures
        r == v@.contains(k),
{
    let mut i: usize = 0;
    while i < v.len()
        invariant
            i <= v@.len(),
            forall|m: int| 0 <= m < i ==> v@[m] != k,
        decreases v@.len() - i,
    {
        if v[i] == k {
            return true;
        }
        i += 1;
    }
    false
}

impl Actions {
    /// The registry holds no key bound to two of its actions.
    pub open spec fn wf(self) -> bool {
        conflict_free(self@)
    }

    /// Build a registry from an ordered action list.
    ///
    /// Succeeds exactly when no key is bound by two entries of the list,
    /// and then keeps the list as given. Otherwise it reports, for every
    /// conflicted key, that key together with every action bound to it.
    #[verifier::loop_isolation(false)]
    pub fn new(actions: Vec<Action>) -> (r: Result<Actions, Vec<KeyConflict>>)
        ensures
            r is Ok <==> conflict_free(actions@),
            r matches Ok(reg) ==> reg@ == actions@ && reg.wf(),
            r matches Err(cs) ==> cs@.len() >= 1 && (forall|n: int|
                0 <= n < cs@.len() ==> conflicted(actions@, (#[trigger] cs@[n]).key)
                    && cs@[n].actions@ == owners_of(actions@, cs@[n].key)) && (forall|k: Key|
                conflicted(actions@, k) ==> exists|n: int|
                    0 <= n < cs@.len() && (#[trigger] cs@[n]).key == k),
    {
        let ghost full: Seq<Action> = actions@;
        let mut conflicts: Vec<KeyConflict> = Vec::new();
        let mut seen: Vec<Key> = Vec::new();
        let mut i: usize = 0;
        while i < actions.len()
            invariant
                i <= full.len(),
                forall|n: int|
                    0 <= n < conflicts@.len() ==> conflicted(full, (#[trigger] conflicts@[n]).key)
                        && conflicts@[n].actions@ == owners_of(full, conflicts@[n].key),
                forall|k: Key|
                    seen@.contains(k) && conflicted(full, k) ==> exists|n: int|
                        0 <= n < conflicts@.len() && (#[trigger] conflicts@[n]).key == k,
                forall|ii: int, t: int|
                    0 <= ii < i && 0 <= t < spec_keys(full[ii]).len() ==> seen@.contains(
                        #[trigger] spec_keys(full[ii])[t],
                    ),
            decreases full.len() - i,
        {
            let ks = actions[i].keys();
            let mut t: usize = 0;
            while t < ks.len()
                invariant
                    t <= ks@.len(),
                    forall|n: int|
                        0 <= n < conflicts@.len() ==> conflicted(
                            full,
                            (#[trigger] conflicts@[n]).key,
                        ) && conflicts@[n].actions@ == owners_of(full, conflicts@[n].key),
                    forall|k: Key|
                        seen@.contains(k) && conflicted(full, k) ==> exists|n: int|
                            0 <= n < conflicts@.len() && (#[trigger] conflicts@[n]).key == k,
                    forall|ii: int, tt: int|
                        0 <= ii < i && 0 <= tt < spec_keys(full[ii]).len() ==> seen@.contains(
                            #[trigger] spec_keys(full[ii])[tt],
                        ),
                    forall|tt: int| 0 <= tt < t ==> seen@.contains(#[trigger] ks@[tt]),
                decreases ks@.len() - t,
            {
                let k = ks[t];
                if !seen_contains(&seen, k) {
                    let ghost seen0 = seen@;
                    let ghost conflicts0 = conflicts@;
                    seen.push(k);
                    let mut owners: Vec<Action> = Vec::new();
                    let mut j: usize = 0;
                    while j < actions.len()
                        invariant
                            j <= full.len(),
                            owners@ == owners_of(full.take(j as int), k),
                        decreases full.len() - j,
                    {
                        if actions[j].has_key(k) {
                            owners.push(actions[j]);
                        }
                        proof {
                            assert(full.take(j + 1).drop_last() =~= full.take(j as int));
                            assert(full.take(j + 1).last() == full[j as int]);
                        }
                        j += 1;
                    }
                    proof {
                        assert(full.take(full.len() as int) =~= full);
                        assert(owners@ == owners_of(full, k));
                    }
                    if owners.len() >= 2 {
                        conflicts.push(KeyConflict { key: k, actions: owners });
                    }
                    proof {
                        assert(seen@ == seen0.push(k));
                        assert forall|k2: Key| seen0.contains(k2) implies seen@.contains(k2) by {
                            let m = choose|m: int| 0 <= m < seen0.len() && seen0[m] == k2;
                            assert(seen@[m] == k2);
                        }
                        assert(seen@[seen0.len() as int] == k);
                        assert(seen@.contains(k));
                        assert forall|n: int| 0 <= n < conflicts0.len() implies conflicts@[n]
                            == conflicts0[n] by {}
                        if conflicted(full, k) {
                            assert(owners_of(full, k).len() >= 2);
                            assert((#[trigger] conflicts@[conflicts@.len() - 1]).key == k);
                        }
                        assert forall|k2: Key|
                            seen@.contains(k2) && conflicted(full, k2) implies exists|n: int|
                            0 <= n < conflicts@.len() && (#[trigger] conflicts@[n]).key == k2 by {
                            let m = choose|m: int| 0 <= m < seen@.len() && seen@[m] == k2;
                            if m < seen0.len() {
                                assert(seen0.contains(k2)) by {
                                    assert(seen0[m] == k2);
                                }
                                let n0 = choose|n0: int|
                                    0 <= n0 < conflicts0.len() && (#[trigger] conflicts0[n0]).key
                                        == k2;
                                assert((#[trigger] conflicts@[n0]).key == k2);
                            } else {
                                assert(k2 == k);
                            }
                        }
                    }
                }
                t += 1;
            }
            i += 1;
        }
        proof {
            assert forall|k: Key| conflicted(full, k) implies exists|n: int|
                0 <= n < conflicts@.len() && (#[trigger] conflicts@[n]).key == k by {
                lemma_conflicted_witnesses(full, k);
                let (wi, wj) = choose|wi: int, wj: int|
                    0 <= wi < wj < full.len() && binds(#[trigger] full[wi], k) && binds(
                        #[trigger] full[wj],
                        k,
                    );
                let wt = choose|wt: int|
                    0 <= wt < spec_keys(full[wi]).len() && spec_keys(full[wi])[wt] == k;
                assert(seen@.contains(#[trigger] spec_keys(full[wi])[wt]));
            }
        }
        if conflicts.len() == 0 {
            proof {
                assert forall|k: Key| !(#[trigger] conflicted(full, k)) by {
                    if conflicted(full, k) {
                        let n = choose|n: int|
                            0 <= n < conflicts@.len() && (#[trigger] conflicts@[n]).key == k;
                        assert(false);
                    }
                }
            }
            Ok(Actions(actions))
        } else {
            proof {
                assert(conflicted(full, conflicts@[0].key));
            }
            Err(conflicts)
        }
    }

    /// Resolve a key to the action it triggers in this registry.
    ///
    /// Returns an action exactly when the registry holds one bound to the
    /// key; on a well-formed registry that action is unique, and every
    /// bound (action, key) pair resolves back to its action.
    pub fn find(&self, key: Key) -> (r: Option<Action>)
        ensures
            r matches Some(a) ==> self@.contains(a) && binds(a, key),
            r is None ==> forall|a: Action| self@.contains(a) ==> !binds(a, key),
            self.wf() ==> forall|a: Action|
                self@.contains(a) && binds(a, key) ==> r == Some(a),
    {
        let n = self.0.len();
        let mut i: usize = 0;
        while i < n
            invariant
                n == self.0@.len(),
                i <= n,
                forall|m: int| 0 <= m < i ==> !binds(self.0@[m], key),
            decreases n - i,
        {
            if self.0[i].has_key(key) {
                let found = self.0[i];
                proof {
                    assert(self@.contains(found)) by {
                        assert(self@[i as int] == found);
                    }
                    if self.wf() {
                        assert forall|a: Action| self@.contains(a) && binds(a, key) implies a
                            == found by {
                            let m = choose|m: int| 0 <= m < self@.len() && self@[m] == a;
                            if m != i {
                                if m < i {
                                    lemma_two_binders(self@, m, i as int, key);
                                } else {
                                    lemma_two_binders(self@, i as int, m, key);
                                }
                            }
                        }
                    }
                }
                return Some(found);
            }
            i += 1;
        }
        proof {
            assert forall|a: Action| self@.contains(a) implies !binds(a, key) by {
                let m = choose|m: int| 0 <= m < self@.len() && self@[m] == a;
            }
        }
        None
    }

    /// The ordered action list of this registry, read-only.
    pub fn actions(&self) -> (r: &Vec<Action>)
        ensures
            r@ == self@,
    {
        &self.0
    }
}

impl Default for Actions {
    /// An empty registry; trivially conflict-free.
    fn default() -> (r: Self)
        ensures
            r@ == Seq::<Action>::empty(),
            r.wf(),
    {
        let r = Actions(Vec::new());
        proof {
            assert forall|k: Key| !(#[trigger] conflicted(r@, k)) by {
                assert(owners_of(r@, k).len() == 0);
            }
        }
        r
    }
}

} // verus!
