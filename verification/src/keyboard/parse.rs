//! Reading keys, actions, triggers, rules and profiles from their text.
//!
//! The text forms are:
//! - a key: its name, e.g. `ENTER`;
//! - an action: a key and a transition, `↓` or `*` for down, `↑` or `^` for up;
//!   `↓↑` or `*^` (or no transition at all) stands for both, down then up;
//! - a sequence: actions separated by `→` or `>`;
//! - a trigger: an action, with its modifiers in brackets in front, e.g. `[LEFT_SHIFT] A↓`;
//!   without brackets the trigger takes any modifiers;
//! - a rule: triggers separated by `,`, then `:`, then a sequence;
//! - a list of rules: one rule on each line;
//! - a profile: a title on the first line, then a list of rules.
use vstd::prelude::*;
use crate::key_transition::KeyTransition;
use crate::keyboard::key::{key_by_name, key_name_error, Key};
use crate::keyboard::key_action::{KeyAction, KeyActionSequence};
use crate::keyboard::key_modifiers::{modifiers_error, parse_trigger_modifiers, TriggerModifiers};
use crate::keyboard::key_trigger::KeyTrigger;
use crate::keyboard::transform_rules::{KeyTransformProfile, KeyTransformRule, KeyTransformRules};
use crate::text::{
    chars_of, ends_with, ends_with2, lines, slice, split, split_chars, string_of, trim, trim_chars,
    trimmed_lines,
};

verus! {

/// What reading a text gives: a value, a refusal with the text of its error, or a panic of
/// the reader, which the readers below rule out by their `requires`.
pub enum ParseOutcome<T> {
    Parsed(T),
    Rejected(Seq<char>),
    Panics,
}

// ---------------------------------------------------------------------------
// Actions and sequences
// ---------------------------------------------------------------------------

/// The key down then up, if there is a key.
pub open spec fn down_up(k: Option<Key>) -> Option<Seq<KeyAction>> {
    match k {
        Some(k) => Some(
            seq![
                KeyAction { key: k, transition: KeyTransition::Down },
                KeyAction { key: k, transition: KeyTransition::Up },
            ],
        ),
        None => None,
    }
}

/// The key going `t`, if there is a key.
pub open spec fn one_action(k: Option<Key>, t: KeyTransition) -> Option<Seq<KeyAction>> {
    match k {
        Some(k) => Some(seq![KeyAction { key: k, transition: t }]),
        None => None,
    }
}

/// What reading a text as an action gives, with both transitions where it names both (or
/// none): one or two actions, or nothing when the key is unknown.
pub open spec fn expand_action(s: Seq<char>) -> Option<Seq<KeyAction>> {
    let ts = trim(s);
    let n = ts.len();
    if n >= 2 && ts[n - 2] == '*' && ts[n - 1] == '^' {
        down_up(key_by_name(ts.take(n - 2)))
    } else if n >= 2 && ts[n - 2] == '↓' && ts[n - 1] == '↑' {
        down_up(key_by_name(ts.take(n - 2)))
    } else if n >= 1 && ts[n - 1] == '*' {
        one_action(key_by_name(ts.take(n - 1)), KeyTransition::Down)
    } else if n >= 1 && ts[n - 1] == '↓' {
        one_action(key_by_name(ts.take(n - 1)), KeyTransition::Down)
    } else if n >= 1 && ts[n - 1] == '^' {
        one_action(key_by_name(ts.take(n - 1)), KeyTransition::Up)
    } else if n >= 1 && ts[n - 1] == '↑' {
        one_action(key_by_name(ts.take(n - 1)), KeyTransition::Up)
    } else {
        down_up(key_by_name(ts))
    }
}

/// What reading a text as one action gives: the first of [`expand_action`].
pub open spec fn parse_action(s: Seq<char>) -> Option<KeyAction> {
    match expand_action(s) {
        Some(v) => Some(v[0]),
        None => None,
    }
}

/// The actions of each part, or nothing when one part is not an action.
pub open spec fn expand_actions(parts: Seq<Seq<char>>) -> Option<Seq<Seq<KeyAction>>>
    decreases parts.len(),
{
    if parts.len() == 0 {
        Some(Seq::empty())
    } else {
        match expand_actions(parts.drop_last()) {
            None => None,
            Some(xs) => match expand_action(parts.last()) {
                None => None,
                Some(a) => Some(xs.push(a)),
            },
        }
    }
}

/// The first action of each part.
pub open spec fn downs(xs: Seq<Seq<KeyAction>>) -> Seq<KeyAction> {
    xs.map_values(|a: Seq<KeyAction>| a[0])
}

/// The last action of each part.
pub open spec fn ups(xs: Seq<Seq<KeyAction>>) -> Seq<KeyAction> {
    xs.map_values(
        |a: Seq<KeyAction>|
            if a.len() == 1 {
                a[0]
            } else {
                a[1]
            },
    )
}

/// Whether some part named both transitions.
pub open spec fn any_expanded(xs: Seq<Seq<KeyAction>>) -> bool {
    exists|i: int| 0 <= i < xs.len() && (#[trigger] xs[i]).len() != 1
}

/// What reading a text as sequences gives: the sequence of the first actions of its parts,
/// then, when some part named both transitions, the sequence of their last actions.
pub open spec fn parse_sequences(s: Seq<char>) -> Option<Seq<Seq<KeyAction>>> {
    match expand_actions(split(s, '→', '>')) {
        None => None,
        Some(xs) => Some(
            if any_expanded(xs) {
                seq![downs(xs), ups(xs)]
            } else {
                seq![downs(xs)]
            },
        ),
    }
}

/// What reading a text as one sequence gives: the first of [`parse_sequences`].
pub open spec fn parse_sequence(s: Seq<char>) -> Option<Seq<KeyAction>> {
    match parse_sequences(s) {
        Some(v) => Some(v[0]),
        None => None,
    }
}

/// The text that an action names its key with: the text trimmed, without its transition
/// marks.
pub open spec fn action_key_text(s: Seq<char>) -> Seq<char> {
    let ts = trim(s);
    let n = ts.len();
    if n >= 2 && ((ts[n - 2] == '*' && ts[n - 1] == '^') || (ts[n - 2] == '↓' && ts[n - 1]
        == '↑')) {
        ts.take(n - 2)
    } else if n >= 1 && (ts[n - 1] == '*' || ts[n - 1] == '↓' || ts[n - 1] == '^' || ts[n - 1]
        == '↑') {
        ts.take(n - 1)
    } else {
        ts
    }
}

/// The error of a text that is not an action: that of its key name; see [`key_name_error`].
pub open spec fn action_error(s: Seq<char>) -> Seq<char> {
    key_name_error(action_key_text(s))
}

/// The error of parts that are not all actions: that of the first part that is not one.
pub open spec fn actions_error(parts: Seq<Seq<char>>) -> Seq<char>
    decreases parts.len(),
{
    if parts.len() == 0 {
        Seq::empty()
    } else if expand_actions(parts.drop_last()) is None {
        actions_error(parts.drop_last())
    } else {
        action_error(parts.last())
    }
}

/// The error of a text that is not a sequence: that of its first part that is not an action.
pub open spec fn sequences_error(s: Seq<char>) -> Seq<char> {
    actions_error(split(s, '→', '>'))
}

// ---------------------------------------------------------------------------
// Triggers
// ---------------------------------------------------------------------------

/// The actions, each with the modifiers `m`.
pub open spec fn with_modifiers(acts: Seq<KeyAction>, m: TriggerModifiers) -> Seq<KeyTrigger> {
    acts.map_values(|a: KeyAction| KeyTrigger { action: a, modifiers: m })
}

/// What reading a text as triggers gives, with both transitions where it names both.
/// A text in brackets whose modifiers read well but that has no closing bracket panics.
pub open spec fn expand_trigger(s: Seq<char>) -> ParseOutcome<Seq<KeyTrigger>> {
    let ts = trim(s);
    if ts.len() > 0 && ts[0] == '[' {
        let parts = split(ts.drop_first(), ']', ']');
        match parse_trigger_modifiers(parts[0]) {
            None => ParseOutcome::Rejected(modifiers_error(parts[0])),
            Some(m) => if parts.len() < 2 {
                ParseOutcome::Panics
            } else {
                match expand_action(parts[1]) {
                    None => ParseOutcome::Rejected(action_error(parts[1])),
                    Some(acts) => ParseOutcome::Parsed(with_modifiers(acts, m)),
                }
            },
        }
    } else {
        match expand_action(ts) {
            None => ParseOutcome::Rejected(action_error(ts)),
            Some(acts) => ParseOutcome::Parsed(with_modifiers(acts, TriggerModifiers::Any)),
        }
    }
}

/// What reading a text as one trigger gives: the first of [`expand_trigger`].
pub open spec fn parse_trigger(s: Seq<char>) -> ParseOutcome<KeyTrigger> {
    match expand_trigger(s) {
        ParseOutcome::Parsed(v) => ParseOutcome::Parsed(v[0]),
        ParseOutcome::Rejected(e) => ParseOutcome::Rejected(e),
        ParseOutcome::Panics => ParseOutcome::Panics,
    }
}

/// The triggers of each part, read in order: the first part that is not read well decides.
pub open spec fn expand_triggers(parts: Seq<Seq<char>>) -> ParseOutcome<Seq<Seq<KeyTrigger>>>
    decreases parts.len(),
{
    if parts.len() == 0 {
        ParseOutcome::Parsed(Seq::empty())
    } else {
        match expand_triggers(parts.drop_last()) {
            ParseOutcome::Parsed(xs) => match expand_trigger(parts.last()) {
                ParseOutcome::Parsed(t) => ParseOutcome::Parsed(xs.push(t)),
                ParseOutcome::Rejected(e) => ParseOutcome::Rejected(e),
                ParseOutcome::Panics => ParseOutcome::Panics,
            },
            ParseOutcome::Rejected(e) => ParseOutcome::Rejected(e),
            ParseOutcome::Panics => ParseOutcome::Panics,
        }
    }
}

/// What reading a text as a list of triggers gives: the triggers of its parts between commas.
pub open spec fn parse_trigger_list(s: Seq<char>) -> ParseOutcome<Seq<Seq<KeyTrigger>>> {
    expand_triggers(split(s, ',', ','))
}

// ---------------------------------------------------------------------------
// Rules
// ---------------------------------------------------------------------------

/// The rules of one group of triggers (a trigger with its transitions) and of the sequences:
/// as many as the longer of the two lists, pairing them by position, the shorter list
/// repeating its last item.
pub open spec fn group_rules(g: Seq<KeyTrigger>, seqs: Seq<Seq<KeyAction>>) -> Seq<
    (KeyTrigger, Seq<KeyAction>),
> {
    let n = if g.len() >= seqs.len() {
        g.len()
    } else {
        seqs.len()
    };
    Seq::new(
        n,
        |i: int|
            (
                if i < g.len() {
                    g[i]
                } else {
                    g[g.len() - 1]
                },
                if i < seqs.len() {
                    seqs[i]
                } else {
                    seqs[seqs.len() - 1]
                },
            ),
    )
}

/// The rules of each group of triggers, in order.
pub open spec fn pair_rules(groups: Seq<Seq<KeyTrigger>>, seqs: Seq<Seq<KeyAction>>) -> Seq<
    (KeyTrigger, Seq<KeyAction>),
>
    decreases groups.len(),
{
    if groups.len() == 0 {
        Seq::empty()
    } else {
        pair_rules(groups.drop_last(), seqs) + group_rules(groups.last(), seqs)
    }
}

/// What reading a list of triggers and a sequence gives: the triggers first, then the
/// sequences, then their rules.
pub open spec fn parse_rule_pair(triggers: Seq<char>, actions: Seq<char>) -> ParseOutcome<
    Seq<(KeyTrigger, Seq<KeyAction>)>,
> {
    match parse_trigger_list(triggers) {
        ParseOutcome::Parsed(groups) => match parse_sequences(actions) {
            Some(seqs) => ParseOutcome::Parsed(pair_rules(groups, seqs)),
            None => ParseOutcome::Rejected(sequences_error(actions)),
        },
        ParseOutcome::Rejected(e) => ParseOutcome::Rejected(e),
        ParseOutcome::Panics => ParseOutcome::Panics,
    }
}

/// What reading a text as rules gives: the triggers before the first `:` and the sequence
/// after it (anything after a second `:` is ignored); refused without a `:`.
pub open spec fn parse_rule_list(s: Seq<char>) -> ParseOutcome<Seq<(KeyTrigger, Seq<KeyAction>)>> {
    let parts = split(trim(s), ':', ':');
    if parts.len() < 2 {
        ParseOutcome::Rejected("Missing target part."@)
    } else {
        parse_rule_pair(parts[0], parts[1])
    }
}

/// What reading a text as one rule gives: the first of [`parse_rule_list`].
pub open spec fn parse_rule(s: Seq<char>) -> ParseOutcome<(KeyTrigger, Seq<KeyAction>)> {
    match parse_rule_list(s) {
        ParseOutcome::Parsed(v) => ParseOutcome::Parsed(v[0]),
        ParseOutcome::Rejected(e) => ParseOutcome::Rejected(e),
        ParseOutcome::Panics => ParseOutcome::Panics,
    }
}

/// The rules of each line (trimmed), read in order: the first line not read well decides.
pub open spec fn parse_rule_lines(ls: Seq<Seq<char>>) -> ParseOutcome<
    Seq<(KeyTrigger, Seq<KeyAction>)>,
>
    decreases ls.len(),
{
    if ls.len() == 0 {
        ParseOutcome::Parsed(Seq::empty())
    } else {
        match parse_rule_lines(ls.drop_last()) {
            ParseOutcome::Parsed(rs) => match parse_rule_list(trim(ls.last())) {
                ParseOutcome::Parsed(more) => ParseOutcome::Parsed(rs + more),
                ParseOutcome::Rejected(e) => ParseOutcome::Rejected(e),
                ParseOutcome::Panics => ParseOutcome::Panics,
            },
            ParseOutcome::Rejected(e) => ParseOutcome::Rejected(e),
            ParseOutcome::Panics => ParseOutcome::Panics,
        }
    }
}

/// What reading a text as a list of rules gives: the rules of its lines.
pub open spec fn parse_rules(s: Seq<char>) -> ParseOutcome<Seq<(KeyTrigger, Seq<KeyAction>)>> {
    parse_rule_lines(lines(trim(s)))
}

/// What reading a text as a profile gives: its first line, trimmed, as the title, and the
/// rules of the other lines; refused for a blank text.
pub open spec fn parse_profile(s: Seq<char>) -> ParseOutcome<
    (Seq<char>, Seq<(KeyTrigger, Seq<KeyAction>)>),
> {
    let ls = lines(trim(s));
    if ls.len() == 0 {
        ParseOutcome::Rejected("Error parsing title."@)
    } else {
        match parse_rule_lines(ls.drop_first()) {
            ParseOutcome::Parsed(rs) => ParseOutcome::Parsed((trim(ls[0]), rs)),
            ParseOutcome::Rejected(e) => ParseOutcome::Rejected(e),
            ParseOutcome::Panics => ParseOutcome::Panics,
        }
    }
}

// ---------------------------------------------------------------------------
// Lemmas: a part that is not read well decides for the whole
// ---------------------------------------------------------------------------

proof fn lemma_expand_actions_prefix(parts: Seq<Seq<char>>, i: int)
    requires
        0 <= i <= parts.len(),
        expand_actions(parts.take(i)) is None,
    ensures
        expand_actions(parts) is None,
        actions_error(parts) == actions_error(parts.take(i)),
    decreases parts.len() - i,
{
    if i < parts.len() {
        assert(parts.take(i + 1).drop_last() =~= parts.take(i));
        lemma_expand_actions_prefix(parts, i + 1);
    } else {
        assert(parts.take(i) =~= parts);
    }
}

proof fn lemma_expand_triggers_prefix(parts: Seq<Seq<char>>, i: int)
    requires
        0 <= i <= parts.len(),
        !(expand_triggers(parts.take(i)) is Parsed),
    ensures
        expand_triggers(parts) == expand_triggers(parts.take(i)),
    decreases parts.len() - i,
{
    if i < parts.len() {
        assert(parts.take(i + 1).drop_last() =~= parts.take(i));
        lemma_expand_triggers_prefix(parts, i + 1);
    } else {
        assert(parts.take(i) =~= parts);
    }
}

proof fn lemma_rule_lines_prefix(ls: Seq<Seq<char>>, i: int)
    requires
        0 <= i <= ls.len(),
        !(parse_rule_lines(ls.take(i)) is Parsed),
    ensures
        parse_rule_lines(ls) == parse_rule_lines(ls.take(i)),
    decreases ls.len() - i,
{
    if i < ls.len() {
        assert(ls.take(i + 1).drop_last() =~= ls.take(i));
        lemma_rule_lines_prefix(ls, i + 1);
    } else {
        assert(ls.take(i) =~= ls);
    }
}

proof fn lemma_expand_action_len(s: Seq<char>)
    ensures
        expand_action(s) matches Some(v) ==> 1 <= v.len() <= 2,
{
}

// ---------------------------------------------------------------------------
// Executable readers
// ---------------------------------------------------------------------------

fn both_actions(k: Key) -> (r: Vec<KeyAction>)
    ensures
        Some(r@) == down_up(Some(k)),
{
    let mut r = Vec::new();
    r.push(KeyAction { key: k, transition: KeyTransition::Down });
    r.push(KeyAction { key: k, transition: KeyTransition::Up });
    assert(Some(r@) =~= down_up(Some(k)));
    r
}

fn single_action(k: Key, t: KeyTransition) -> (r: Vec<KeyAction>)
    ensures
        Some(r@) == one_action(Some(k), t),
{
    let mut r = Vec::new();
    r.push(KeyAction { key: k, transition: t });
    assert(Some(r@) =~= one_action(Some(k), t));
    r
}

impl KeyAction {
    /// Reads the action(s) of a text; see [`expand_action`] and, for a refusal,
    /// [`action_error`].
    pub fn parse_expand(s: &Vec<char>) -> (r: Result<Vec<KeyAction>, String>)
        ensures
            match expand_action(s@) {
                Some(v) => r is Ok && r->Ok_0@ == v,
                None => r is Err && r->Err_0@ == action_error(s@),
            },
    {
        let ts = trim_chars(s);
        let n = ts.len();
        proof {
            assert(ts@.len() == n);
        }
        if ends_with2(&ts, '*', '^') || ends_with2(&ts, '↓', '↑') {
            proof {
                assert(ts@.subrange(0, n - 2) =~= ts@.take(n - 2));
            }
            match Key::parse_chars(&slice(&ts, 0, n - 2)) {
                Ok(k) => Ok(both_actions(k)),
                Err(e) => Err(e),
            }
        } else if ends_with(&ts, '*') || ends_with(&ts, '↓') {
            proof {
                assert(ts@.subrange(0, n - 1) =~= ts@.take(n - 1));
            }
            match Key::parse_chars(&slice(&ts, 0, n - 1)) {
                Ok(k) => Ok(single_action(k, KeyTransition::Down)),
                Err(e) => Err(e),
            }
        } else if ends_with(&ts, '^') || ends_with(&ts, '↑') {
            proof {
                assert(ts@.subrange(0, n - 1) =~= ts@.take(n - 1));
            }
            match Key::parse_chars(&slice(&ts, 0, n - 1)) {
                Ok(k) => Ok(single_action(k, KeyTransition::Up)),
                Err(e) => Err(e),
            }
        } else {
            match Key::parse_chars(&ts) {
                Ok(k) => Ok(both_actions(k)),
                Err(e) => Err(e),
            }
        }
    }

    /// Reads one action from characters; see [`parse_action`].
    pub fn parse_chars(s: &Vec<char>) -> (r: Result<KeyAction, String>)
        ensures
            match parse_action(s@) {
                Some(a) => r == Ok::<KeyAction, String>(a),
                None => r is Err && r->Err_0@ == action_error(s@),
            },
    {
        match Self::parse_expand(s) {
            Ok(v) => {
                proof {
                    lemma_expand_action_len(s@);
                }
                Ok(v[0])
            },
            Err(e) => Err(e),
        }
    }

    /// Reads one action from a text; see [`parse_action`].
    pub fn from_text(s: &str) -> (r: Result<KeyAction, String>)
        ensures
            match parse_action(s@) {
                Some(a) => r == Ok::<KeyAction, String>(a),
                None => r is Err && r->Err_0@ == action_error(s@),
            },
    {
        Self::parse_chars(&chars_of(s))
    }
}

impl KeyActionSequence {
    /// Reads the sequence(s) of a text; see [`parse_sequences`].
    pub fn parse_list(s: &Vec<char>) -> (r: Result<Vec<KeyActionSequence>, String>)
        ensures
            match parse_sequences(s@) {
                Some(v) => r is Ok && r->Ok_0@.map_values(|q: KeyActionSequence| q.actions@) == v,
                None => r is Err && r->Err_0@ == sequences_error(s@),
            },
    {
        let parts = split_chars(s, '→', '>');
        let ghost ps = split(s@, '→', '>');
        let mut down_actions: Vec<KeyAction> = Vec::new();
        let mut up_actions: Vec<KeyAction> = Vec::new();
        let mut is_expanded = false;
        let mut i: usize = 0;
        let ghost mut xs: Seq<Seq<KeyAction>> = Seq::empty();
        assert(ps.take(0) =~= Seq::<Seq<char>>::empty());
        while i < parts.len()
            invariant
                i <= parts.len(),
                parts.len() == ps.len(),
                ps == split(s@, '→', '>'),
                forall|k: int| 0 <= k < parts.len() ==> (#[trigger] parts[k])@ == ps[k],
                expand_actions(ps.take(i as int)) == Some(xs),
                xs.len() == i,
                forall|k: int| 0 <= k < xs.len() ==> 1 <= (#[trigger] xs[k]).len() <= 2,
                down_actions@ == downs(xs),
                up_actions@ == ups(xs),
                is_expanded == any_expanded(xs),
            decreases parts.len() - i,
        {
            assert(ps.take(i + 1).drop_last() =~= ps.take(i as int));
            assert(ps.take(i + 1).last() == ps[i as int]);
            let actions = match KeyAction::parse_expand(&parts[i]) {
                Ok(a) => a,
                Err(e) => {
                    proof {
                        lemma_expand_actions_prefix(ps, i + 1);
                    }
                    return Err(e);
                },
            };
            proof {
                lemma_expand_action_len(ps[i as int]);
            }
            let ghost old_xs = xs;
            down_actions.push(actions[0]);
            if actions.len() == 1 {
                up_actions.push(actions[0]);
            } else {
                up_actions.push(actions[1]);
                is_expanded = true;
            }
            proof {
                xs = xs.push(actions@);
                assert(downs(xs) =~= downs(old_xs).push(actions@[0]));
                assert(ups(xs) =~= ups(old_xs).push(
                    if actions@.len() == 1 {
                        actions@[0]
                    } else {
                        actions@[1]
                    },
                ));
                if actions@.len() != 1 {
                    assert(xs[i as int] == actions@);
                } else {
                    if any_expanded(xs) {
                        let j = choose|j: int| 0 <= j < xs.len() && (#[trigger] xs[j]).len() != 1;
                        assert(j < old_xs.len());
                        assert(old_xs[j] == xs[j]);
                    }
                    if any_expanded(old_xs) {
                        let j = choose|j: int|
                            0 <= j < old_xs.len() && (#[trigger] old_xs[j]).len() != 1;
                        assert(xs[j] == old_xs[j]);
                    }
                }
            }
            i = i + 1;
        }
        assert(ps.take(parts.len() as int) =~= ps);
        let mut list: Vec<KeyActionSequence> = Vec::new();
        list.push(KeyActionSequence::from(down_actions));
        if is_expanded {
            list.push(KeyActionSequence::from(up_actions));
        }
        proof {
            let v = if any_expanded(xs) {
                seq![downs(xs), ups(xs)]
            } else {
                seq![downs(xs)]
            };
            assert(list@.map_values(|q: KeyActionSequence| q.actions@) =~= v);
        }
        Ok(list)
    }

    /// Reads one sequence from characters; see [`parse_sequence`].
    pub fn parse_chars(s: &Vec<char>) -> (r: Result<KeyActionSequence, String>)
        ensures
            match parse_sequence(s@) {
                Some(v) => r is Ok && r->Ok_0.actions@ == v,
                None => r is Err && r->Err_0@ == sequences_error(s@),
            },
    {
        let list = match Self::parse_list(s) {
            Ok(l) => l,
            Err(e) => return Err(e),
        };
        assert(list@.map_values(|q: KeyActionSequence| q.actions@).len() == list@.len());
        assert(list@.len() >= 1);
        assert(list@.map_values(|q: KeyActionSequence| q.actions@)[0] == list@[0].actions@);
        Ok(list[0].copy())
    }

    /// Reads one sequence from a text; see [`parse_sequence`].
    pub fn from_text(s: &str) -> (r: Result<KeyActionSequence, String>)
        ensures
            match parse_sequence(s@) {
                Some(v) => r is Ok && r->Ok_0.actions@ == v,
                None => r is Err && r->Err_0@ == sequences_error(s@),
            },
    {
        Self::parse_chars(&chars_of(s))
    }
}

fn triggers_of(actions: &Vec<KeyAction>, m: TriggerModifiers) -> (r: Vec<KeyTrigger>)
    ensures
        r@ == with_modifiers(actions@, m),
{
    let mut r: Vec<KeyTrigger> = Vec::new();
    let mut i: usize = 0;
    while i < actions.len()
        invariant
            i <= actions.len(),
            r@ == with_modifiers(actions@.take(i as int), m),
        decreases actions.len() - i,
    {
        r.push(KeyTrigger { action: actions[i], modifiers: m });
        assert(r@ =~= with_modifiers(actions@.take(i + 1), m));
        i = i + 1;
    }
    assert(actions@.take(actions.len() as int) =~= actions@);
    r
}

impl KeyTrigger {
    /// Reads the trigger(s) of a text; see [`expand_trigger`].
    pub fn parse_expand(s: &Vec<char>) -> (r: Result<Vec<KeyTrigger>, String>)
        requires
            !(expand_trigger(s@) is Panics),
        ensures
            match expand_trigger(s@) {
                ParseOutcome::Parsed(v) => r is Ok && r->Ok_0@ == v,
                ParseOutcome::Rejected(e) => r is Err && r->Err_0@ == e,
                ParseOutcome::Panics => true,
            },
    {
        let ts = trim_chars(s);
        if ts.len() > 0 && ts[0] == '[' {
            let rest = slice(&ts, 1, ts.len());
            assert(rest@ =~= ts@.drop_first());
            let parts = split_chars(&rest, ']', ']');
            proof {
                crate::text::lemma_split_not_empty(rest@, ']', ']');
            }
            let modifiers = match TriggerModifiers::parse_chars(&parts[0]) {
                Ok(m) => m,
                Err(e) => return Err(e),
            };
            match KeyAction::parse_expand(&parts[1]) {
                Ok(actions) => Ok(triggers_of(&actions, modifiers)),
                Err(e) => Err(e),
            }
        } else {
            match KeyAction::parse_expand(&ts) {
                Ok(actions) => Ok(triggers_of(&actions, TriggerModifiers::Any)),
                Err(e) => Err(e),
            }
        }
    }

    /// Reads one trigger from characters; see [`parse_trigger`].
    pub fn parse_chars(s: &Vec<char>) -> (r: Result<KeyTrigger, String>)
        requires
            !(parse_trigger(s@) is Panics),
        ensures
            match parse_trigger(s@) {
                ParseOutcome::Parsed(t) => r == Ok::<KeyTrigger, String>(t),
                ParseOutcome::Rejected(e) => r is Err && r->Err_0@ == e,
                ParseOutcome::Panics => true,
            },
    {
        let v = match Self::parse_expand(s) {
            Ok(v) => v,
            Err(e) => return Err(e),
        };
        proof {
            lemma_expand_action_len(trim(s@));
            let ts = trim(s@);
            if ts.len() > 0 && ts[0] == '[' {
                lemma_expand_action_len(split(ts.drop_first(), ']', ']')[1]);
            }
        }
        Ok(v[0])
    }

    /// Reads one trigger from a text; see [`parse_trigger`].
    pub fn from_text(s: &str) -> (r: Result<KeyTrigger, String>)
        requires
            !(parse_trigger(s@) is Panics),
        ensures
            match parse_trigger(s@) {
                ParseOutcome::Parsed(t) => r == Ok::<KeyTrigger, String>(t),
                ParseOutcome::Rejected(e) => r is Err && r->Err_0@ == e,
                ParseOutcome::Panics => true,
            },
    {
        Self::parse_chars(&chars_of(s))
    }

    /// Reads the triggers of the parts of a text between commas; see [`parse_trigger_list`].
    pub fn parse_list(s: &Vec<char>) -> (r: Result<Vec<Vec<KeyTrigger>>, String>)
        requires
            !(parse_trigger_list(s@) is Panics),
        ensures
            match parse_trigger_list(s@) {
                ParseOutcome::Parsed(v) => r is Ok && r->Ok_0@.map_values(|g: Vec<KeyTrigger>| g@)
                    == v,
                ParseOutcome::Rejected(e) => r is Err && r->Err_0@ == e,
                ParseOutcome::Panics => true,
            },
    {
        let parts = split_chars(s, ',', ',');
        let ghost ps = split(s@, ',', ',');
        let mut list: Vec<Vec<KeyTrigger>> = Vec::new();
        let mut i: usize = 0;
        assert(ps.take(0) =~= Seq::<Seq<char>>::empty());
        assert(list@.map_values(|g: Vec<KeyTrigger>| g@) =~= Seq::<Seq<KeyTrigger>>::empty());
        while i < parts.len()
            invariant
                i <= parts.len(),
                parts.len() == ps.len(),
                ps == split(s@, ',', ','),
                !(expand_triggers(ps) is Panics),
                forall|k: int| 0 <= k < parts.len() ==> (#[trigger] parts[k])@ == ps[k],
                expand_triggers(ps.take(i as int)) == ParseOutcome::Parsed(
                    list@.map_values(|g: Vec<KeyTrigger>| g@),
                ),
            decreases parts.len() - i,
        {
            assert(ps.take(i + 1).drop_last() =~= ps.take(i as int));
            assert(ps.take(i + 1).last() == ps[i as int]);
            proof {
                if expand_trigger(ps[i as int]) is Panics {
                    lemma_expand_triggers_prefix(ps, i + 1);
                }
            }
            let triggers = match Self::parse_expand(&parts[i]) {
                Ok(t) => t,
                Err(e) => {
                    proof {
                        lemma_expand_triggers_prefix(ps, i + 1);
                    }
                    return Err(e);
                },
            };
            let ghost before = list@.map_values(|g: Vec<KeyTrigger>| g@);
            list.push(triggers);
            assert(list@.map_values(|g: Vec<KeyTrigger>| g@) =~= before.push(triggers@));
            i = i + 1;
        }
        assert(ps.take(parts.len() as int) =~= ps);
        Ok(list)
    }
}

impl KeyTransformRule {
    /// The rules of one group of triggers and of the sequences; see [`group_rules`].
    fn push_group_rules(
        rules: &mut Vec<KeyTransformRule>,
        triggers: &Vec<KeyTrigger>,
        sequences: &Vec<KeyActionSequence>,
    )
        requires
            triggers@.len() >= 1,
            sequences@.len() >= 1,
        ensures
            final(rules)@.map_values(|r: KeyTransformRule| r@) == old(rules)@.map_values(
                |r: KeyTransformRule| r@,
            ) + group_rules(
                triggers@,
                sequences@.map_values(|q: KeyActionSequence| q.actions@),
            ),
    {
        let ghost seqs = sequences@.map_values(|q: KeyActionSequence| q.actions@);
        let ghost start = rules@.map_values(|r: KeyTransformRule| r@);
        let len_t = triggers.len();
        let len_s = sequences.len();
        let n = if len_t >= len_s {
            len_t
        } else {
            len_s
        };
        let mut i: usize = 0;
        while i < n
            invariant
                i <= n,
                len_t == triggers@.len() >= 1,
                len_s == sequences@.len() >= 1,
                n == (if len_t >= len_s {
                    len_t
                } else {
                    len_s
                }),
                seqs == sequences@.map_values(|q: KeyActionSequence| q.actions@),
                rules@.map_values(|r: KeyTransformRule| r@) == start + group_rules(
                    triggers@,
                    seqs,
                ).take(i as int),
            decreases n - i,
        {
            let trigger = if i < len_t {
                triggers[i]
            } else {
                triggers[len_t - 1]
            };
            let actions = if i < len_s {
                sequences[i].copy()
            } else {
                sequences[len_s - 1].copy()
            };
            let ghost before = rules@.map_values(|r: KeyTransformRule| r@);
            let rule = KeyTransformRule { trigger, actions };
            rules.push(rule);
            assert(rules@.map_values(|r: KeyTransformRule| r@) =~= before.push(rule@));
            assert(group_rules(triggers@, seqs).take(i + 1) =~= group_rules(triggers@, seqs).take(
                i as int,
            ).push(group_rules(triggers@, seqs)[i as int]));
            i = i + 1;
        }
        assert(group_rules(triggers@, seqs).take(n as int) =~= group_rules(triggers@, seqs));
    }

    /// Reads the rules of a list of triggers and a sequence; see [`parse_rule_pair`].
    pub fn parse_pair(triggers: &Vec<char>, actions: &Vec<char>) -> (r: Result<
        Vec<KeyTransformRule>,
        String,
    >)
        requires
            !(parse_rule_pair(triggers@, actions@) is Panics),
        ensures
            match parse_rule_pair(triggers@, actions@) {
                ParseOutcome::Parsed(v) => r is Ok && r->Ok_0@.map_values(|q: KeyTransformRule| q@)
                    == v,
                ParseOutcome::Rejected(e) => r is Err && r->Err_0@ == e,
                ParseOutcome::Panics => true,
            },
    {
        let triggers_list = match KeyTrigger::parse_list(triggers) {
            Ok(t) => t,
            Err(e) => return Err(e),
        };
        let sequences = match KeyActionSequence::parse_list(actions) {
            Ok(q) => q,
            Err(e) => return Err(e),
        };
        let ghost groups = triggers_list@.map_values(|g: Vec<KeyTrigger>| g@);
        let ghost seqs = sequences@.map_values(|q: KeyActionSequence| q.actions@);
        proof {
            lemma_groups_not_empty(split(triggers@, ',', ','));
        }
        let mut rules: Vec<KeyTransformRule> = Vec::new();
        let mut i: usize = 0;
        assert(groups.take(0) =~= Seq::<Seq<KeyTrigger>>::empty());
        while i < triggers_list.len()
            invariant
                i <= triggers_list.len(),
                groups == triggers_list@.map_values(|g: Vec<KeyTrigger>| g@),
                seqs == sequences@.map_values(|q: KeyActionSequence| q.actions@),
                sequences@.len() >= 1,
                forall|k: int| 0 <= k < groups.len() ==> (#[trigger] groups[k]).len() >= 1,
                rules@.map_values(|q: KeyTransformRule| q@) == pair_rules(groups.take(i as int), seqs),
            decreases triggers_list.len() - i,
        {
            assert(groups[i as int] == triggers_list@[i as int]@);
            Self::push_group_rules(&mut rules, &triggers_list[i], &sequences);
            assert(groups.take(i + 1).drop_last() =~= groups.take(i as int));
            assert(groups.take(i + 1).last() == groups[i as int]);
            i = i + 1;
        }
        assert(groups.take(triggers_list.len() as int) =~= groups);
        Ok(rules)
    }

    /// Reads the rules of a text; see [`parse_rule_list`].
    pub fn parse_list(s: &Vec<char>) -> (r: Result<Vec<KeyTransformRule>, String>)
        requires
            !(parse_rule_list(s@) is Panics),
        ensures
            match parse_rule_list(s@) {
                ParseOutcome::Parsed(v) => r is Ok && r->Ok_0@.map_values(|q: KeyTransformRule| q@)
                    == v,
                ParseOutcome::Rejected(e) => r is Err && r->Err_0@ == e,
                ParseOutcome::Panics => true,
            },
    {
        let ts = trim_chars(s);
        let parts = split_chars(&ts, ':', ':');
        if parts.len() < 2 {
            let mut e = String::new();
            crate::text::push_str(&mut e, "Missing target part.");
            return Err(e);
        }
        Self::parse_pair(&parts[0], &parts[1])
    }

    /// Reads one rule from characters; see [`parse_rule`].
    pub fn parse_chars(s: &Vec<char>) -> (r: Result<KeyTransformRule, String>)
        requires
            !(parse_rule(s@) is Panics),
        ensures
            match parse_rule(s@) {
                ParseOutcome::Parsed(v) => r is Ok && r->Ok_0@ == v,
                ParseOutcome::Rejected(e) => r is Err && r->Err_0@ == e,
                ParseOutcome::Panics => true,
            },
    {
        let rules = match Self::parse_list(s) {
            Ok(r) => r,
            Err(e) => return Err(e),
        };
        proof {
            lemma_rule_list_not_empty(s@);
        }
        assert(rules@.map_values(|q: KeyTransformRule| q@)[0] == rules@[0]@);
        Ok(rules[0].copy())
    }

    /// Reads one rule from a text; see [`parse_rule`].
    pub fn from_text(s: &str) -> (r: Result<KeyTransformRule, String>)
        requires
            !(parse_rule(s@) is Panics),
        ensures
            match parse_rule(s@) {
                ParseOutcome::Parsed(v) => r is Ok && r->Ok_0@ == v,
                ParseOutcome::Rejected(e) => r is Err && r->Err_0@ == e,
                ParseOutcome::Panics => true,
            },
    {
        Self::parse_chars(&chars_of(s))
    }
}

proof fn lemma_expand_trigger_not_empty(s: Seq<char>)
    ensures
        expand_trigger(s) matches ParseOutcome::Parsed(v) ==> v.len() >= 1,
{
    let ts = trim(s);
    lemma_expand_action_len(ts);
    if ts.len() > 0 && ts[0] == '[' {
        lemma_expand_action_len(split(ts.drop_first(), ']', ']')[1]);
    }
}

/// Every group of triggers read from parts has a trigger.
pub proof fn lemma_groups_not_empty(parts: Seq<Seq<char>>)
    ensures
        expand_triggers(parts) matches ParseOutcome::Parsed(v) ==> forall|k: int|
            0 <= k < v.len() ==> (#[trigger] v[k]).len() >= 1,
    decreases parts.len(),
{
    if parts.len() > 0 {
        lemma_groups_not_empty(parts.drop_last());
        lemma_expand_trigger_not_empty(parts.last());
        if let ParseOutcome::Parsed(v) = expand_triggers(parts) {
            let xs = v.drop_last();
            assert forall|k: int| 0 <= k < v.len() implies (#[trigger] v[k]).len() >= 1 by {
                if k < v.len() - 1 {
                    assert(v[k] == xs[k]);
                }
            }
        }
    }
}

proof fn lemma_pair_rules_not_empty(groups: Seq<Seq<KeyTrigger>>, seqs: Seq<Seq<KeyAction>>)
    requires
        groups.len() >= 1,
    ensures
        pair_rules(groups, seqs).len() >= groups.last().len(),
{
    assert(group_rules(groups.last(), seqs).len() >= groups.last().len());
}

proof fn lemma_rule_list_not_empty(s: Seq<char>)
    ensures
        parse_rule_list(s) matches ParseOutcome::Parsed(v) ==> v.len() >= 1,
{
    let parts = split(trim(s), ':', ':');
    if parts.len() >= 2 {
        let tparts = split(parts[0], ',', ',');
        crate::text::lemma_split_not_empty(parts[0], ',', ',');
        lemma_groups_not_empty(tparts);
        if let ParseOutcome::Parsed(groups) = expand_triggers(tparts) {
            lemma_expand_triggers_len(tparts);
            if let Some(seqs) = parse_sequences(parts[1]) {
                lemma_pair_rules_not_empty(groups, seqs);
            }
        }
    }
}

proof fn lemma_expand_triggers_len(parts: Seq<Seq<char>>)
    ensures
        expand_triggers(parts) matches ParseOutcome::Parsed(v) ==> v.len() == parts.len(),
    decreases parts.len(),
{
    if parts.len() > 0 {
        lemma_expand_triggers_len(parts.drop_last());
    }
}

impl KeyTransformRules {
    /// Reads the rules of lines that were trimmed; see [`parse_rule_lines`].
    fn parse_lines(ls: &Vec<Vec<char>>, from: usize, Ghost(lines_spec): Ghost<Seq<Seq<char>>>) -> (r: Result<
        KeyTransformRules,
        String,
    >)
        requires
            from <= ls.len(),
            lines_spec.len() == ls.len(),
            forall|k: int| 0 <= k < ls.len() ==> (#[trigger] ls[k])@ == trim(lines_spec[k]),
            !(parse_rule_lines(lines_spec.skip(from as int)) is Panics),
        ensures
            match parse_rule_lines(lines_spec.skip(from as int)) {
                ParseOutcome::Parsed(v) => r is Ok && r->Ok_0@ == v,
                ParseOutcome::Rejected(e) => r is Err && r->Err_0@ == e,
                ParseOutcome::Panics => true,
            },
    {
        let ghost tail = lines_spec.skip(from as int);
        let mut items: Vec<KeyTransformRule> = Vec::new();
        let mut i: usize = from;
        assert(tail.take(0) =~= Seq::<Seq<char>>::empty());
        assert(items@.map_values(|q: KeyTransformRule| q@) =~= Seq::<
            (KeyTrigger, Seq<KeyAction>),
        >::empty());
        while i < ls.len()
            invariant
                from <= i <= ls.len(),
                lines_spec.len() == ls.len(),
                tail == lines_spec.skip(from as int),
                forall|k: int| 0 <= k < ls.len() ==> (#[trigger] ls[k])@ == trim(lines_spec[k]),
                !(parse_rule_lines(tail) is Panics),
                parse_rule_lines(tail.take(i - from)) == ParseOutcome::Parsed(
                    items@.map_values(|q: KeyTransformRule| q@),
                ),
            decreases ls.len() - i,
        {
            let ghost j = i - from;
            assert(tail.take(j + 1).drop_last() =~= tail.take(j));
            assert(tail.take(j + 1).last() == lines_spec[i as int]);
            proof {
                if parse_rule_list(trim(lines_spec[i as int])) is Panics {
                    lemma_rule_lines_prefix(tail, j + 1);
                }
            }
            let more = match KeyTransformRule::parse_list(&ls[i]) {
                Ok(m) => m,
                Err(e) => {
                    proof {
                        lemma_rule_lines_prefix(tail, j + 1);
                    }
                    return Err(e);
                },
            };
            let ghost before = items@.map_values(|q: KeyTransformRule| q@);
            let mut k: usize = 0;
            while k < more.len()
                invariant
                    k <= more.len(),
                    items@.map_values(|q: KeyTransformRule| q@) == before + more@.take(
                        k as int,
                    ).map_values(|q: KeyTransformRule| q@),
                decreases more.len() - k,
            {
                let c = more[k].copy();
                let ghost mid = items@.map_values(|q: KeyTransformRule| q@);
                items.push(c);
                assert(items@.map_values(|q: KeyTransformRule| q@) =~= mid.push(c@));
                assert(more@.take(k + 1).map_values(|q: KeyTransformRule| q@) =~= more@.take(
                    k as int,
                ).map_values(|q: KeyTransformRule| q@).push(more@[k as int]@));
                assert(items@.map_values(|q: KeyTransformRule| q@) =~= before + more@.take(
                    k + 1,
                ).map_values(|q: KeyTransformRule| q@));
                k = k + 1;
            }
            assert(more@.take(more.len() as int) =~= more@);
            i = i + 1;
        }
        assert(tail.take(ls.len() - from) =~= tail);
        Ok(KeyTransformRules { items })
    }

    /// Reads a list of rules from a text; see [`parse_rules`].
    pub fn from_text(s: &str) -> (r: Result<KeyTransformRules, String>)
        requires
            !(parse_rules(s@) is Panics),
        ensures
            match parse_rules(s@) {
                ParseOutcome::Parsed(v) => r is Ok && r->Ok_0@ == v,
                ParseOutcome::Rejected(e) => r is Err && r->Err_0@ == e,
                ParseOutcome::Panics => true,
            },
    {
        let ts = trim_chars(&chars_of(s));
        let ls = trimmed_lines(&ts);
        assert(lines(trim(s@)).skip(0) =~= lines(trim(s@)));
        Self::parse_lines(&ls, 0, Ghost(lines(trim(s@))))
    }
}

impl KeyTransformProfile {
    /// Reads a profile from a text; see [`parse_profile`].
    pub fn from_text(s: &str) -> (r: Result<KeyTransformProfile, String>)
        requires
            !(parse_profile(s@) is Panics),
        ensures
            match parse_profile(s@) {
                ParseOutcome::Parsed(v) => r is Ok && r->Ok_0.title@ == v.0 && r->Ok_0.rules@ == v.1,
                ParseOutcome::Rejected(e) => r is Err && r->Err_0@ == e,
                ParseOutcome::Panics => true,
            },
    {
        let ts = trim_chars(&chars_of(s));
        let ls = trimmed_lines(&ts);
        if ls.len() == 0 {
            let mut e = String::new();
            crate::text::push_str(&mut e, "Error parsing title.");
            return Err(e);
        }
        let ghost all = lines(trim(s@));
        assert(all.skip(1) =~= all.drop_first());
        let rules = match KeyTransformRules::parse_lines(&ls, 1, Ghost(all)) {
            Ok(r) => r,
            Err(e) => return Err(e),
        };
        Ok(KeyTransformProfile { title: string_of(&ls[0]), rules })
    }
}

} // verus!
