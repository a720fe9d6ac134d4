use vstd::prelude::*;
use vstd::pervasive::unreached;
use vstd::string::StringExecFns;

use crate::actions::{
    conflict_free, binds, lemma_disjoint_keys_conflict_free, spec_keys, Action, Actions,
};
use crate::binance::Binance;
use crate::key::Key;
use crate::state::AppState;

verus! {

/// Whether the dispatch loop keeps running after one event.
#[derive(Clone, Copy, Debug, PartialEq, Eq, Structural)]
pub enum AppReturn {
    /// Leave the loop: the session is over.
    Exit,
    /// Stay in the loop and wait for the next event.
    Continue,
}

/// The collaborator operation one dispatched key asks for. The library
/// decides which; the driver around it performs the call and hands the
/// outcome back.
#[derive(Clone, Copy, Debug, PartialEq, Eq, Structural)]
pub enum Effect {
    /// No outside work.
    Nothing,
    /// Fetch the symbol-list snapshot.
    FetchSymbols,
    /// Open the live stream subscription.
    OpenStream,
}

/// The action list every interactive session starts with.
pub open spec fn default_actions() -> Seq<Action> {
    seq![Action::ListSymbols, Action::StartStream, Action::Quit]
}

/// The parts joined with the separator between each adjacent pair.
pub open spec fn join_seq(parts: Seq<Seq<char>>, sep: Seq<char>) -> Seq<char>
    decreases parts.len(),
{
    if parts.len() == 0 {
        Seq::empty()
    } else if parts.len() == 1 {
        parts[0]
    } else {
        join_seq(parts.drop_last(), sep) + sep + parts.last()
    }
}

/// Join the strings with the separator between each adjacent pair.
pub fn join_strings(parts: &Vec<String>, sep: &str) -> (r: String)
    ensures
        r@ == join_seq(parts@.map_values(|s: String| s@), sep@),
{
    let ghost m = parts@.map_values(|s: String| s@);
    let mut r = String::new();
    let mut i: usize = 0;
    while i < parts.len()
        invariant
            i <= parts@.len(),
            m == parts@.map_values(|s: String| s@),
            r@ == join_seq(m.take(i as int), sep@),
        decreases parts@.len() - i,
    {
        if i > 0 {
            r.append(sep);
        }
        r.append(parts[i].as_str());
        proof {
            assert(m.take(i + 1).drop_last() =~= m.take(i as int));
            assert(m.take(i + 1).last() == m[i as int]);
        }
        i += 1;
    }
    proof {
        assert(m.take(parts@.len() as int) =~= m);
    }
    r
}

proof fn lemma_default_actions_conflict_free()
    ensures
        conflict_free(default_actions()),
{
    let s = default_actions();
    assert forall|i: int, j: int, k: Key|
        #![trigger binds(s[i], k), binds(s[j], k)]
        0 <= i < j < s.len() implies !(binds(s[i], k) && binds(s[j], k)) by {
        if binds(s[i], k) && binds(s[j], k) {
            assert(spec_keys(s[i]).contains(k));
            assert(spec_keys(s[j]).contains(k));
        }
    }
    lemma_disjoint_keys_conflict_free(s);
}

/// The mutable store of one interactive session: the validated action
/// registry, the tick counter, the exchange endpoints, and the cached
/// display text of the most recent symbol-list result. Owned and
/// mutated by the dispatch loop alone.
pub struct App {
    /// The contextual actions, validated at construction.
    pub actions: Actions,
    /// The operational counters.
    pub state: AppState,
    /// The exchange endpoints.
    pub binance: Binance,
    /// The most recent symbol-list result, already joined for display;
    /// absent until the first successful fetch.
    pub content_symbols: Option<String>,
    /// The separator put between symbols in the display text.
    pub line_separator: String,
}

impl App {
    /// A fresh session over the given exchange endpoints: the default
    /// registry, no tick observed, nothing cached yet.
    pub fn new(binance: Binance) -> (r: App)
        ensures
            r.actions@ == default_actions(),
            r.actions.wf(),
            r.state.ticks == 0,
            r.content_symbols is None,
            r.line_separator@ == "|"@,
            r.binance == binance,
    {
        let list = vec![Action::ListSymbols, Action::StartStream, Action::Quit];
        proof {
            assert(list@ =~= default_actions());
            lemma_default_actions_conflict_free();
        }
        let actions = match Actions::new(list) {
            Ok(a) => a,
            Err(_) => unreached(),
        };
        App {
            actions,
            state: AppState::initialized(),
            binance,
            content_symbols: None,
            line_separator: "|".to_owned(),
        }
    }

    /// Decide what one key asks for: resolve it in the registry and name
    /// the collaborator operation, without performing any outside work.
    ///
    /// A key bound to no action of the registry changes nothing and the
    /// loop continues; on a well-formed registry the quit binding, and
    /// only the quit binding, ends the loop.
    pub fn do_action(&self, key: Key) -> (r: (AppReturn, Effect))
        ensures
            (forall|a: Action| self.actions@.contains(a) ==> !binds(a, key)) ==> r == (
                AppReturn::Continue,
                Effect::Nothing,
            ),
            self.actions.wf() && self.actions@.contains(Action::Quit) && binds(Action::Quit, key)
                ==> r == (AppReturn::Exit, Effect::Nothing),
            self.actions.wf() && self.actions@.contains(Action::ListSymbols) && binds(
                Action::ListSymbols,
                key,
            ) ==> r == (AppReturn::Continue, Effect::FetchSymbols),
            self.actions.wf() && self.actions@.contains(Action::StartStream) && binds(
                Action::StartStream,
                key,
            ) ==> r == (AppReturn::Continue, Effect::OpenStream),
            r.0 is Exit ==> self.actions@.contains(Action::Quit) && binds(Action::Quit, key),
    {
        match self.actions.find(key) {
            Some(Action::Quit) => (AppReturn::Exit, Effect::Nothing),
            Some(Action::ListSymbols) => (AppReturn::Continue, Effect::FetchSymbols),
            Some(Action::StartStream) => (AppReturn::Continue, Effect::OpenStream),
            None => (AppReturn::Continue, Effect::Nothing),
        }
    }

    /// Store the outcome of one symbol-list fetch. A successful fetch
    /// overwrites the cached display text with the symbols joined by the
    /// separator; a failed fetch (`None`) leaves the whole session state
    /// exactly as it was. Either way the loop continues.
    pub fn apply_symbols_result(&mut self, outcome: Option<Vec<String>>) -> (r: AppReturn)
        ensures
            r == AppReturn::Continue,
            outcome matches Some(symbols) ==> (final(self).content_symbols matches Some(c)
                && c@ == join_seq(
                symbols@.map_values(|s: String| s@),
                old(self).line_separator@,
            )),
            outcome is None ==> *final(self) == *old(self),
            final(self).actions == old(self).actions,
            final(self).state == old(self).state,
            final(self).binance == old(self).binance,
            final(self).line_separator == old(self).line_separator,
    {
        match outcome {
            Some(symbols) => {
                let joined = join_strings(&symbols, self.line_separator.as_str());
                self.content_symbols = Some(joined);
                AppReturn::Continue
            },
            None => AppReturn::Continue,
        }
    }

    /// The cached symbol-list display text; empty before the first
    /// successful fetch.
    pub fn request_content(&self) -> (r: String)
        ensures
            r@ == match self.content_symbols {
                Some(c) => c@,
                None => Seq::<char>::empty(),
            },
    {
        match &self.content_symbols {
            Some(c) => c.clone(),
            None => String::new(),
        }
    }

    /// The separator put between symbols in the display text.
    pub fn line_separator(&self) -> (r: String)
        ensures
            r@ == self.line_separator@,
    {
        self.line_separator.clone()
    }

    /// Count one idle tick; the loop always continues on a tick.
    pub fn update_on_tick(&mut self) -> (r: AppReturn)
        requires
            old(self).state.ticks < u64::MAX,
        ensures
            r == AppReturn::Continue,
            final(self).state.ticks == old(self).state.ticks + 1,
            final(self).actions == old(self).actions,
            final(self).binance == old(self).binance,
            final(self).content_symbols == old(self).content_symbols,
            final(self).line_separator == old(self).line_separator,
    {
        self.state.incr_tick();
        AppReturn::Continue
    }

    /// The contextual actions, read-only.
    pub fn actions(&self) -> (r: &Actions)
        ensures
            r == self.actions,
    {
        &self.actions
    }

    /// The operational counters, read-only.
    pub fn state(&self) -> (r: &AppState)
        ensures
            r == self.state,
    {
        &self.state
    }
}

} // verus!
