//! The lookup of rules by trigger, in a table with one slot for each action.
use vstd::prelude::*;
use std::collections::HashMap;
use crate::keyboard::key_action::{KeyAction, KeyTransition};
use crate::keyboard::key_const::{MAX_SCAN_CODE, MAX_VK_CODE};
use crate::keyboard::key_event::KeyEvent;
use crate::keyboard::key_modifiers::TriggerModifiers;
use crate::keyboard::key_trigger::KeyTrigger;
use crate::keyboard::transform_map::{lookup, modifiers_code, rules_map};
use crate::keyboard::transform_rules::{KeyTransformProfile, KeyTransformRule};

verus! {

/// The number of slots of the table: one for each transition, kind of scan code, scan code and
/// virtual key code.
pub const MATRIX_SLOTS: usize = 139264;

/// The slot of an action.
pub open spec fn slot_of(a: KeyAction) -> int {
    (((if a.transition == KeyTransition::Up {
        1int
    } else {
        0int
    }) * 2 + (if a.key.is_ext_scan_code {
        1int
    } else {
        0int
    })) * MAX_SCAN_CODE + a.key.scan_code) * MAX_VK_CODE + a.key.vk_code
}

/// Whether the scan code of the action is one that the table has slots for.
pub open spec fn in_table(a: KeyAction) -> bool {
    (a.key.scan_code as usize) < MAX_SCAN_CODE
}

proof fn lemma_digits(x1: int, d1: int, x2: int, d2: int, base: int)
    by (nonlinear_arith)
    requires
        0 <= d1 < base,
        0 <= d2 < base,
        0 <= x1,
        0 <= x2,
        x1 * base + d1 == x2 * base + d2,
    ensures
        x1 == x2,
        d1 == d2,
{
    if x1 < x2 {
        assert(x1 * base + base <= x2 * base);
    } else if x2 < x1 {
        assert(x2 * base + base <= x1 * base);
    }
}

/// The slots of the actions of the table lie within it, and no two actions share a slot.
proof fn lemma_slot(a: KeyAction, b: KeyAction)
    requires
        in_table(a),
        in_table(b),
    ensures
        0 <= slot_of(a) < MATRIX_SLOTS,
        slot_of(a) == slot_of(b) ==> a == b,
{
    let ua = if a.transition == KeyTransition::Up {
        1int
    } else {
        0int
    };
    let ub = if b.transition == KeyTransition::Up {
        1int
    } else {
        0int
    };
    let ea = if a.key.is_ext_scan_code {
        1int
    } else {
        0int
    };
    let eb = if b.key.is_ext_scan_code {
        1int
    } else {
        0int
    };
    let sa = a.key.scan_code as int;
    let sb = b.key.scan_code as int;
    let va = a.key.vk_code as int;
    let vb = b.key.vk_code as int;
    assert(0 <= ((ua * 2 + ea) * 136 + sa) * 256 + va < 139264) by (nonlinear_arith)
        requires
            0 <= ua < 2,
            0 <= ea < 2,
            0 <= sa < 136,
            0 <= va < 256,
    ;
    assert(0 <= (ua * 2 + ea) * 136 + sa) by (nonlinear_arith)
        requires
            0 <= ua < 2,
            0 <= ea < 2,
            0 <= sa < 136,
    ;
    assert(0 <= (ub * 2 + eb) * 136 + sb) by (nonlinear_arith)
        requires
            0 <= ub < 2,
            0 <= eb < 2,
            0 <= sb < 136,
    ;
    if slot_of(a) == slot_of(b) {
        lemma_digits((ua * 2 + ea) * 136 + sa, va, (ub * 2 + eb) * 136 + sb, vb, 256);
        lemma_digits(ua * 2 + ea, sa, ub * 2 + eb, sb, 136);
        lemma_digits(ua, ea, ub, eb, 2);
        assert(a.key == b.key);
        assert(a.transition == b.transition);
    }
}

/// The slot of an action; see [`slot_of`].
fn slot_of_action(a: &KeyAction) -> (r: usize)
    requires
        in_table(*a),
    ensures
        r == slot_of(*a),
        r < MATRIX_SLOTS,
{
    proof {
        lemma_slot(*a, *a);
    }
    let up: usize = if a.transition.is_up() {
        1
    } else {
        0
    };
    let ext: usize = if a.key.is_ext_scan_code {
        1
    } else {
        0
    };
    ((up * 2 + ext) * MAX_SCAN_CODE + a.key.scan_code as usize) * MAX_VK_CODE
        + a.key.vk_code as usize
}

/// The code of the modifiers of a trigger; see [`modifiers_code`].
fn modifiers_code_of(m: &TriggerModifiers) -> (r: u16)
    ensures
        r == modifiers_code(*m),
{
    match m {
        TriggerModifiers::All(s) => s.0 as u16,
        TriggerModifiers::Any => 256,
    }
}

/// Two triggers of one action with the same code of modifiers are the same trigger.
proof fn lemma_modifiers_code_injective(a: TriggerModifiers, b: TriggerModifiers)
    requires
        modifiers_code(a) == modifiers_code(b),
    ensures
        a == b,
{
    match a {
        TriggerModifiers::All(sa) => {
            match b {
                TriggerModifiers::All(sb) => {
                    assert(sa == sb);
                },
                TriggerModifiers::Any => {},
            }
        },
        TriggerModifiers::Any => {},
    }
}

/// The rules of a profile, by trigger: for each action a slot, and in it the rules of the
/// action by the code of their modifiers.
pub struct KeyTransformMatrix {
    matrix: Vec<Option<HashMap<u16, KeyTransformRule>>>,
}

/// Whether every rule of a group sits in the slot of its action, under the code of its
/// modifiers.
pub open spec fn group_fits(group: Map<u16, KeyTransformRule>, slot: int) -> bool {
    forall|c: u16| #[trigger]
        group.contains_key(c) ==> in_table(group[c].trigger.action) && slot_of(
            group[c].trigger.action,
        ) == slot && modifiers_code(group[c].trigger.modifiers) == c
}

impl KeyTransformMatrix {
    /// The table has all its slots, and each rule sits where its trigger puts it.
    pub closed spec fn well_formed(self) -> bool {
        &&& self.matrix@.len() == MATRIX_SLOTS
        &&& forall|p: int|
            0 <= p < MATRIX_SLOTS && (#[trigger] self.matrix@[p]) is Some ==> group_fits(
                self.matrix@[p]->0@,
                p,
            )
    }

    /// The group of a trigger's action holds a rule for the trigger's modifiers.
    spec fn holds(self, t: KeyTrigger) -> bool {
        &&& in_table(t.action)
        &&& self.matrix@[slot_of(t.action)] is Some
        &&& self.matrix@[slot_of(t.action)]->0@.contains_key(modifiers_code(t.modifiers) as u16)
    }

    /// The rule that the table holds for a trigger.
    spec fn rule_for(self, t: KeyTrigger) -> KeyTransformRule {
        self.matrix@[slot_of(t.action)]->0@[modifiers_code(t.modifiers) as u16]
    }

    /// A rule found for a trigger is a rule of that trigger.
    proof fn lemma_rule_for(self, t: KeyTrigger)
        requires
            self.well_formed(),
            self.holds(t),
        ensures
            self.rule_for(t).trigger == t,
    {
        lemma_slot(t.action, t.action);
        let stored = self.rule_for(t).trigger;
        assert(group_fits(self.matrix@[slot_of(t.action)]->0@, slot_of(t.action)));
        lemma_slot(stored.action, t.action);
        lemma_modifiers_code_injective(stored.modifiers, t.modifiers);
    }
}

impl View for KeyTransformMatrix {
    type V = Map<KeyTrigger, Seq<KeyAction>>;

    /// The actions of each trigger that the table holds a rule for.
    closed spec fn view(&self) -> Map<KeyTrigger, Seq<KeyAction>> {
        Map::new(|t: KeyTrigger| self.holds(t), |t: KeyTrigger| self.rule_for(t)@.1)
    }
}

impl KeyTransformMatrix {
    /// The table with no rule.
    pub fn new() -> (r: Self)
        ensures
            r.well_formed(),
            r@ == Map::<KeyTrigger, Seq<KeyAction>>::empty(),
    {
        let mut matrix: Vec<Option<HashMap<u16, KeyTransformRule>>> = Vec::new();
        let mut i: usize = 0;
        while i < MATRIX_SLOTS
            invariant
                i <= MATRIX_SLOTS,
                matrix@.len() == i,
                forall|p: int| 0 <= p < i ==> (#[trigger] matrix@[p]) is None,
            decreases MATRIX_SLOTS - i,
        {
            matrix.push(None);
            i = i + 1;
        }
        let r = KeyTransformMatrix { matrix };
        assert(r@ =~= Map::<KeyTrigger, Seq<KeyAction>>::empty());
        r
    }

    /// The rule for an event: the one for its action with exactly the modifiers held, else the
    /// one for its action with any modifiers; see [`lookup`].
    pub fn get(&self, event: &KeyEvent) -> (r: Option<&KeyTransformRule>)
        requires
            self.well_formed(),
            in_table(event.action),
        ensures
            match r {
                Some(rule) => lookup(self@, event.action, event.modifiers_state) == Some(rule@),
                None => lookup(self@, event.action, event.modifiers_state) is None,
            },
    {
        let exact = KeyTrigger {
            action: event.action,
            modifiers: TriggerModifiers::All(event.modifiers_state),
        };
        let any = KeyTrigger { action: event.action, modifiers: TriggerModifiers::Any };
        let slot = slot_of_action(&event.action);
        match &self.matrix[slot] {
            Some(group) => {
                match group.get(&modifiers_code_of(&exact.modifiers)) {
                    Some(rule) => {
                        proof {
                            self.lemma_rule_for(exact);
                        }
                        Some(rule)
                    },
                    None => {
                        let r = group.get(&modifiers_code_of(&any.modifiers));
                        proof {
                            if r is Some {
                                self.lemma_rule_for(any);
                            }
                        }
                        r
                    },
                }
            },
            None => None,
        }
    }

    /// Holds the rule for its trigger, in place of any rule that the trigger had.
    pub fn put(&mut self, rule: KeyTransformRule)
        requires
            old(self).well_formed(),
            in_table(rule.trigger.action),
        ensures
            final(self).well_formed(),
            final(self)@ == old(self)@.insert(rule.trigger, rule.actions@),
    {
        let ghost before = self@;
        let ghost old_matrix = self.matrix@;
        let ghost t0 = rule.trigger;
        let ghost actions = rule.actions@;
        let slot = slot_of_action(&rule.trigger.action);
        let code = modifiers_code_of(&rule.trigger.modifiers);
        let mut group = match self.matrix[slot].take() {
            Some(g) => g,
            None => HashMap::new(),
        };
        let ghost old_group = group@;
        group.insert(code, rule);
        self.matrix[slot] = Some(group);
        let ghost matrix = self.matrix;
        proof {
            assert(matrix@ =~= old_matrix.update(slot as int, Some(group)));
            assert forall|p: int|
                0 <= p < MATRIX_SLOTS && (#[trigger] matrix@[p]) is Some implies group_fits(
                matrix@[p]->0@,
                p,
            ) by {
                if p == slot as int {
                    assert forall|c: u16| #[trigger] group@.contains_key(c) implies in_table(
                        group@[c].trigger.action,
                    ) && slot_of(group@[c].trigger.action) == p && modifiers_code(
                        group@[c].trigger.modifiers,
                    ) == c by {
                        if c != code {
                            assert(old_matrix[p] is Some);
                            assert(group_fits(old_matrix[p]->0@, p));
                        }
                    }
                }
            }
        }
        proof {
            assert forall|t: KeyTrigger| #[trigger]
                self@.contains_key(t) == before.insert(t0, actions).contains_key(t) by {
                if in_table(t.action) {
                    lemma_slot(t.action, t0.action);
                    if slot_of(t.action) == slot_of(t0.action) && modifiers_code(t.modifiers)
                        == modifiers_code(t0.modifiers) {
                        lemma_modifiers_code_injective(t.modifiers, t0.modifiers);
                    }
                }
            }
            assert forall|t: KeyTrigger| #[trigger]
                self@.contains_key(t) implies self@[t] == before.insert(t0, actions)[t] by {
                lemma_slot(t.action, t0.action);
                if slot_of(t.action) == slot_of(t0.action) && modifiers_code(t.modifiers)
                    == modifiers_code(t0.modifiers) {
                    lemma_modifiers_code_injective(t.modifiers, t0.modifiers);
                }
            }
            assert(self@ =~= before.insert(t0, actions));
        }
    }

    /// The table of the rules of a profile; see [`rules_map`].
    pub fn from_profile(profile: KeyTransformProfile) -> (r: Self)
        requires
            forall|i: int|
                0 <= i < profile.rules@.len() ==> in_table(
                    (#[trigger] profile.rules@[i]).0.action,
                ),
        ensures
            r.well_formed(),
            r@ == rules_map(profile.rules@),
    {
        let mut this = Self::new();
        let items = &profile.rules.items;
        let ghost rules = profile.rules@;
        let mut i: usize = 0;
        while i < items.len()
            invariant
                i <= items.len(),
                rules == items@.map_values(|r: KeyTransformRule| r@),
                forall|k: int| 0 <= k < rules.len() ==> in_table((#[trigger] rules[k]).0.action),
                this.well_formed(),
                this@ == rules_map(rules.take(i as int)),
            decreases items.len() - i,
        {
            assert(in_table(rules[i as int].0.action));
            let rule = items[i].copy();
            this.put(rule);
            assert(rules.take(i + 1).drop_last() =~= rules.take(i as int));
            i = i + 1;
        }
        assert(rules.take(items.len() as int) =~= rules);
        this
    }
}

impl Default for KeyTransformMatrix {
    /// The table with no rule.
    fn default() -> (r: Self)
        ensures
            r.well_formed(),
            r@ == Map::<KeyTrigger, Seq<KeyAction>>::empty(),
    {
        Self::new()
    }
}

} // verus!
