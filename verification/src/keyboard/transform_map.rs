//! The lookup of rules by trigger, in a hash map that hashes with fxhash.
use vstd::prelude::*;
use fxhash::{FxHashMap, FxHasher};
use std::hash::BuildHasherDefault;
use crate::keyboard::key_action::{KeyAction, KeyTransition};
use crate::keyboard::key_const::key_code;
use crate::keyboard::key_event::KeyEvent;
use crate::keyboard::key_modifiers::{KeyModifiers, TriggerModifiers};
use crate::keyboard::key_trigger::KeyTrigger;
use crate::keyboard::transform_rules::{KeyTransformProfile, KeyTransformRule};

verus! {

/// fxhash's hasher, seen from verified code as an opaque value.
#[verifier::external_type_specification]
#[verifier::external_body]
pub struct ExFxHasher(FxHasher);

/// std's builder of default hashers, seen from verified code as an opaque value.
#[verifier::external_type_specification]
#[verifier::external_body]
#[verifier::reject_recursive_types(H)]
pub struct ExBuildHasherDefault<H>(BuildHasherDefault<H>);

/// A number that tells actions apart: the code of the key, then whether it comes up.
pub open spec fn action_code(a: KeyAction) -> int {
    key_code(a.key) * 2 + (if a.transition == KeyTransition::Up {
        1int
    } else {
        0int
    })
}

/// A number that tells the modifiers of triggers apart: the bits of a set, or 256 for any.
pub open spec fn modifiers_code(m: TriggerModifiers) -> int {
    match m {
        TriggerModifiers::All(s) => s.0 as int,
        TriggerModifiers::Any => 256,
    }
}

/// A number that tells triggers apart: the code of the action, then that of the modifiers.
pub open spec fn trigger_code(t: KeyTrigger) -> int {
    action_code(t.action) * 512 + modifiers_code(t.modifiers)
}

proof fn lemma_digits(x1: int, d1: int, x2: int, d2: int, base: int)
    by (nonlinear_arith)
    requires
        0 <= d1 < base,
        0 <= d2 < base,
        0 <= x1,
        0 <= x2,
        x1 * base + d1 == x2 * base + d2,
    ensures
        x1 == x2,
        d1 == d2,
{
    if x1 < x2 {
        assert(x1 * base + base <= x2 * base);
    } else if x2 < x1 {
        assert(x2 * base + base <= x1 * base);
    }
}

/// Two triggers with the same code are the same trigger.
pub proof fn lemma_trigger_code_injective(a: KeyTrigger, b: KeyTrigger)
    requires
        trigger_code(a) == trigger_code(b),
    ensures
        a == b,
{
    let ka = a.action.key;
    let kb = b.action.key;
    lemma_digits(
        action_code(a.action),
        modifiers_code(a.modifiers),
        action_code(b.action),
        modifiers_code(b.modifiers),
        512,
    );
    lemma_digits(
        key_code(ka),
        (if a.action.transition == KeyTransition::Up { 1int } else { 0int }),
        key_code(kb),
        (if b.action.transition == KeyTransition::Up { 1int } else { 0int }),
        2,
    );
    lemma_digits(
        ka.vk_code as int,
        ka.scan_code * 2 + (if ka.is_ext_scan_code { 1int } else { 0int }),
        kb.vk_code as int,
        kb.scan_code * 2 + (if kb.is_ext_scan_code { 1int } else { 0int }),
        512,
    );
    lemma_digits(
        ka.scan_code as int,
        (if ka.is_ext_scan_code { 1int } else { 0int }),
        kb.scan_code as int,
        (if kb.is_ext_scan_code { 1int } else { 0int }),
        2,
    );
    assert(ka == kb);
    assert(a.action == b.action);
    match a.modifiers {
        TriggerModifiers::All(sa) => {
            match b.modifiers {
                TriggerModifiers::All(sb) => {
                    assert(sa == sb);
                },
                TriggerModifiers::Any => {},
            }
        },
        TriggerModifiers::Any => {},
    }
}

/// The code of a trigger; see [`trigger_code`].
fn trigger_code_of(t: &KeyTrigger) -> (r: u32)
    ensures
        r == trigger_code(*t),
{
    let k = t.action.key;
    let ext: u32 = if k.is_ext_scan_code {
        1
    } else {
        0
    };
    let up: u32 = if t.action.transition.is_up() {
        1
    } else {
        0
    };
    let m: u32 = match t.modifiers {
        TriggerModifiers::All(s) => s.0 as u32,
        TriggerModifiers::Any => 256,
    };
    let vk: u32 = k.vk_code as u32;
    let sc: u32 = k.scan_code as u32;
    assert(((vk * 512 + sc * 2 + ext) * 2 + up) * 512 + m < 0x1000_0000) by (nonlinear_arith)
        requires
            vk < 256,
            sc < 256,
            ext < 2,
            up < 2,
            m <= 256,
    ;
    ((vk * 512 + sc * 2 + ext) * 2 + up) * 512 + m
}

/// `HashMap::insert` of std, on a map that hashes with fxhash's `FxHasher`: afterwards the key
/// maps to the rule and every other key is as it was. The hasher is deterministic, so the map
/// behaves as std documents it.
#[verifier::external_body]
fn fx_insert(map: &mut FxHashMap<u32, KeyTransformRule>, key: u32, rule: KeyTransformRule)
    ensures
        final(map)@ == old(map)@.insert(key, rule),
{
    map.insert(key, rule);
}

/// `HashMap::get` of std, on a map that hashes with fxhash's `FxHasher`: the rule of the key,
/// if the map holds the key.
#[verifier::external_body]
fn fx_get(map: &FxHashMap<u32, KeyTransformRule>, key: u32) -> (r: Option<&KeyTransformRule>)
    ensures
        match r {
            Some(rule) => map@.contains_key(key) && *rule == map@[key],
            None => !map@.contains_key(key),
        },
{
    map.get(&key)
}

/// The rule that a map of rules gives for an action when the modifiers in `state` are held: the
/// rule for exactly those modifiers if there is one, else the rule for any modifiers, if there
/// is one.
pub open spec fn lookup(
    rules: Map<KeyTrigger, Seq<KeyAction>>,
    action: KeyAction,
    state: KeyModifiers,
) -> Option<(KeyTrigger, Seq<KeyAction>)> {
    let exact = KeyTrigger { action: action, modifiers: TriggerModifiers::All(state) };
    let any = KeyTrigger { action: action, modifiers: TriggerModifiers::Any };
    if rules.contains_key(exact) {
        Some((exact, rules[exact]))
    } else if rules.contains_key(any) {
        Some((any, rules[any]))
    } else {
        None
    }
}

/// The map of a list of rules: each rule in its order, a later one for the same trigger in
/// place of an earlier.
pub open spec fn rules_map(rules: Seq<(KeyTrigger, Seq<KeyAction>)>) -> Map<
    KeyTrigger,
    Seq<KeyAction>,
>
    decreases rules.len(),
{
    if rules.len() == 0 {
        Map::empty()
    } else {
        rules_map(rules.drop_last()).insert(rules.last().0, rules.last().1)
    }
}

/// What putting a rule does to the lookup of rules: the rule for an action with exactly the
/// modifiers held is found for it; a rule for any modifiers is found when no rule asks for
/// exactly the modifiers held; and a rule for another action, or for other modifiers, leaves
/// the lookup as it was.
pub proof fn law_lookup_after_put(
    rules: Map<KeyTrigger, Seq<KeyAction>>,
    trigger: KeyTrigger,
    actions: Seq<KeyAction>,
    action: KeyAction,
    state: KeyModifiers,
)
    ensures
        trigger.action == action && trigger.modifiers == TriggerModifiers::All(state) ==> lookup(
            rules.insert(trigger, actions),
            action,
            state,
        ) == Some((trigger, actions)),
        trigger.action == action && trigger.modifiers == TriggerModifiers::Any && !rules.contains_key(
            KeyTrigger { action: action, modifiers: TriggerModifiers::All(state) },
        ) ==> lookup(rules.insert(trigger, actions), action, state) == Some((trigger, actions)),
        trigger.action != action || (trigger.modifiers != TriggerModifiers::All(state)
            && trigger.modifiers != TriggerModifiers::Any) ==> lookup(
            rules.insert(trigger, actions),
            action,
            state,
        ) == lookup(rules, action, state),
{
}

/// The position of the last rule of a list for a trigger, or -1 when no rule is for it.
pub open spec fn last_rule_index(rules: Seq<(KeyTrigger, Seq<KeyAction>)>, t: KeyTrigger) -> int
    decreases rules.len(),
{
    if rules.len() == 0 {
        -1
    } else if rules.last().0 == t {
        rules.len() - 1
    } else {
        last_rule_index(rules.drop_last(), t)
    }
}

/// The map of a list of rules holds, for a trigger, the actions of the last rule of the list
/// for it, and nothing when no rule is for it.
proof fn lemma_rules_map_last(rules: Seq<(KeyTrigger, Seq<KeyAction>)>, t: KeyTrigger)
    ensures
        -1 <= last_rule_index(rules, t) < rules.len(),
        last_rule_index(rules, t) >= 0 ==> rules[last_rule_index(rules, t)].0 == t,
        forall|j: int|
            last_rule_index(rules, t) < j < rules.len() ==> (#[trigger] rules[j]).0 != t,
        rules_map(rules).contains_key(t) <==> last_rule_index(rules, t) >= 0,
        rules_map(rules).contains_key(t) ==> rules_map(rules)[t] == rules[last_rule_index(
            rules,
            t,
        )].1,
    decreases rules.len(),
{
    if rules.len() > 0 {
        let front = rules.drop_last();
        lemma_rules_map_last(front, t);
        assert forall|j: int|
            last_rule_index(rules, t) < j < rules.len() implies (#[trigger] rules[j]).0 != t by {
            if j < rules.len() - 1 {
                assert(rules[j] == front[j]);
            }
        }
    }
}

/// After the rules of a list are put in their order into an empty table of rules, the rule
/// found for an action with some modifiers held is the last rule of the list for the action
/// with exactly those modifiers, if the list has one; else the last rule for the action with
/// any modifiers, if it has one; else none.
pub proof fn law_lookup_last_rule(
    rules: Seq<(KeyTrigger, Seq<KeyAction>)>,
    action: KeyAction,
    state: KeyModifiers,
)
    ensures
        ({
            let exact = KeyTrigger { action: action, modifiers: TriggerModifiers::All(state) };
            let any = KeyTrigger { action: action, modifiers: TriggerModifiers::Any };
            let e = last_rule_index(rules, exact);
            let a = last_rule_index(rules, any);
            lookup(rules_map(rules), action, state) == if e >= 0 {
                Some((exact, rules[e].1))
            } else if a >= 0 {
                Some((any, rules[a].1))
            } else {
                None
            }
        }),
{
    lemma_rules_map_last(rules, KeyTrigger { action: action, modifiers: TriggerModifiers::All(state) });
    lemma_rules_map_last(rules, KeyTrigger { action: action, modifiers: TriggerModifiers::Any });
}

/// The rules of a profile, by trigger.
pub struct KeyTransformMap {
    map: FxHashMap<u32, KeyTransformRule>,
}

impl KeyTransformMap {
    /// Each rule is held under the code of its own trigger.
    #[verifier::type_invariant]
    spec fn well_formed(self) -> bool {
        forall|c: u32| #[trigger]
            self.map@.contains_key(c) ==> trigger_code(self.map@[c].trigger) == c
    }
}

impl View for KeyTransformMap {
    type V = Map<KeyTrigger, Seq<KeyAction>>;

    /// The actions of each trigger that the map holds a rule for.
    closed spec fn view(&self) -> Map<KeyTrigger, Seq<KeyAction>> {
        Map::new(
            |t: KeyTrigger| self.map@.contains_key(trigger_code(t) as u32),
            |t: KeyTrigger| self.map@[trigger_code(t) as u32]@.1,
        )
    }
}

/// Codes of triggers fit in 32 bits.
proof fn lemma_trigger_code_bounds(t: KeyTrigger)
    ensures
        0 <= trigger_code(t) < 0x1000_0000,
{
    let k = t.action.key;
    let vk = k.vk_code as int;
    let sc = k.scan_code as int;
    let ext = if k.is_ext_scan_code {
        1int
    } else {
        0int
    };
    let up = if t.action.transition == KeyTransition::Up {
        1int
    } else {
        0int
    };
    let m = modifiers_code(t.modifiers);
    assert(0 <= ((vk * 512 + sc * 2 + ext) * 2 + up) * 512 + m < 0x1000_0000) by (nonlinear_arith)
        requires
            0 <= vk < 256,
            0 <= sc < 256,
            0 <= ext < 2,
            0 <= up < 2,
            0 <= m <= 256,
    ;
}

impl KeyTransformMap {
    /// The rule held for a trigger, as the map stores it.
    proof fn lemma_rule_of(&self, t: KeyTrigger)
        requires
            self.well_formed(),
            self@.contains_key(t),
        ensures
            self.map@[trigger_code(t) as u32].trigger == t,
            self.map@[trigger_code(t) as u32]@.1 == self@[t],
    {
        lemma_trigger_code_bounds(t);
        let stored = self.map@[trigger_code(t) as u32].trigger;
        lemma_trigger_code_bounds(stored);
        lemma_trigger_code_injective(stored, t);
    }

    /// The empty map.
    pub fn new() -> (r: Self)
        ensures
            r@ == Map::<KeyTrigger, Seq<KeyAction>>::empty(),
    {
        let r = KeyTransformMap { map: FxHashMap::default() };
        assert(r@ =~= Map::<KeyTrigger, Seq<KeyAction>>::empty());
        r
    }

    /// Holds the rule for its trigger, in place of any rule that the trigger had.
    pub fn put(&mut self, rule: KeyTransformRule)
        ensures
            final(self)@ == old(self)@.insert(rule.trigger, rule.actions@),
    {
        proof {
            use_type_invariant(&*self);
        }
        let ghost before = self@;
        let ghost old_map = self.map@;
        let ghost t0 = rule.trigger;
        let ghost actions = rule.actions@;
        let code = trigger_code_of(&rule.trigger);
        proof {
            lemma_trigger_code_bounds(t0);
        }
        let mut map = FxHashMap::default();
        std::mem::swap(&mut map, &mut self.map);
        fx_insert(&mut map, code, rule);
        proof {
            assert forall|c: u32| #[trigger] map@.contains_key(c) implies trigger_code(map@[c].trigger)
                == c by {
                if c != code {
                    assert(old_map.contains_key(c));
                }
            }
        }
        self.map = map;
        proof {
            assert forall|t: KeyTrigger| #[trigger]
                self@.contains_key(t) == before.insert(t0, actions).contains_key(t) by {
                lemma_trigger_code_bounds(t);
                if trigger_code(t) == trigger_code(t0) {
                    lemma_trigger_code_injective(t, t0);
                } else {
                    assert(trigger_code(t) as u32 != code);
                }
            }
            assert forall|t: KeyTrigger| #[trigger]
                self@.contains_key(t) implies self@[t] == before.insert(t0, actions)[t] by {
                lemma_trigger_code_bounds(t);
                if trigger_code(t) == trigger_code(t0) {
                    lemma_trigger_code_injective(t, t0);
                } else {
                    assert(trigger_code(t) as u32 != code);
                }
            }
            assert(self@ =~= before.insert(t0, actions));
        }
    }

    /// The rule for an event: the one for its action with exactly the modifiers held, else the
    /// one for its action with any modifiers; see [`lookup`].
    pub fn get(&self, event: &KeyEvent) -> (r: Option<&KeyTransformRule>)
        ensures
            match r {
                Some(rule) => lookup(self@, event.action, event.modifiers_state) == Some(rule@),
                None => lookup(self@, event.action, event.modifiers_state) is None,
            },
    {
        proof {
            use_type_invariant(self);
        }
        let exact = KeyTrigger {
            action: event.action,
            modifiers: TriggerModifiers::All(event.modifiers_state),
        };
        let any = KeyTrigger { action: event.action, modifiers: TriggerModifiers::Any };
        proof {
            lemma_trigger_code_bounds(exact);
            lemma_trigger_code_bounds(any);
        }
        match fx_get(&self.map, trigger_code_of(&exact)) {
            Some(rule) => {
                proof {
                    self.lemma_rule_of(exact);
                }
                Some(rule)
            },
            None => {
                let r = fx_get(&self.map, trigger_code_of(&any));
                proof {
                    if r is Some {
                        self.lemma_rule_of(any);
                    }
                }
                r
            },
        }
    }

    /// The map of the rules of a profile; see [`rules_map`].
    pub fn from_profile(profile: KeyTransformProfile) -> (r: Self)
        ensures
            r@ == rules_map(profile.rules@),
    {
        let mut this = Self::new();
        let items = &profile.rules.items;
        let ghost rules = profile.rules@;
        let mut i: usize = 0;
        while i < items.len()
            invariant
                i <= items.len(),
                rules == items@.map_values(|r: KeyTransformRule| r@),
                this@ == rules_map(rules.take(i as int)),
            decreases items.len() - i,
        {
            let rule = items[i].copy();
            this.put(rule);
            assert(rules.take(i + 1).drop_last() =~= rules.take(i as int));
            i = i + 1;
        }
        assert(rules.take(items.len() as int) =~= rules);
        this
    }
}

impl Default for KeyTransformMap {
    /// The empty map.
    fn default() -> (r: Self)
        ensures
            r@ == Map::<KeyTrigger, Seq<KeyAction>>::empty(),
    {
        Self::new()
    }
}

} // verus!
