//! The form in which lists of rules are stored: pairs of texts, a trigger and its actions.
use vstd::prelude::*;
use crate::keyboard::key::is_known_key;
use crate::keyboard::key_action::{actions_text, KeyAction, KeyActionSequence};
use crate::keyboard::key_trigger::{trigger_text, KeyTrigger};
use crate::keyboard::parse::{parse_sequence, parse_trigger, sequences_error, ParseOutcome};
use crate::keyboard::round_trip::{
    law_sequence_text_round_trip, law_trigger_text_round_trip, sequence_actions, trigger_name,
};
use crate::keyboard::transform_rules::{rules_known, KeyTransformRule, KeyTransformRules};
use crate::keyboard::key::key_name;
use crate::text::{chars_of, slice, split_chars, trim_chars};
use crate::keyboard::key_modifiers::TriggerModifiers;

verus! {

/// The pair of texts of a rule: the text of its trigger and that of its actions.
pub open spec fn text_pair(r: (KeyTrigger, Seq<KeyAction>)) -> (Seq<char>, Seq<char>) {
    (trigger_text(r.0), actions_text(r.1))
}

/// The pairs of texts of the rules, in their order.
pub open spec fn text_pairs(rs: Seq<(KeyTrigger, Seq<KeyAction>)>) -> Seq<(Seq<char>, Seq<char>)> {
    rs.map_values(|r: (KeyTrigger, Seq<KeyAction>)| text_pair(r))
}

/// What reading a pair of texts as a rule gives: the trigger read first, then the actions.
pub open spec fn pair_rule(p: (Seq<char>, Seq<char>)) -> ParseOutcome<(KeyTrigger, Seq<KeyAction>)> {
    match parse_trigger(p.0) {
        ParseOutcome::Parsed(t) => match parse_sequence(p.1) {
            Some(a) => ParseOutcome::Parsed((t, a)),
            None => ParseOutcome::Rejected(sequences_error(p.1)),
        },
        ParseOutcome::Rejected(e) => ParseOutcome::Rejected(e),
        ParseOutcome::Panics => ParseOutcome::Panics,
    }
}

/// What reading pairs of texts as rules gives, pair by pair in order: the first pair that is
/// not read well decides.
pub open spec fn pairs_rules(ps: Seq<(Seq<char>, Seq<char>)>) -> ParseOutcome<
    Seq<(KeyTrigger, Seq<KeyAction>)>,
>
    decreases ps.len(),
{
    if ps.len() == 0 {
        ParseOutcome::Parsed(Seq::empty())
    } else {
        match pairs_rules(ps.drop_last()) {
            ParseOutcome::Parsed(rs) => match pair_rule(ps.last()) {
                ParseOutcome::Parsed(r) => ParseOutcome::Parsed(rs.push(r)),
                ParseOutcome::Rejected(e) => ParseOutcome::Rejected(e),
                ParseOutcome::Panics => ParseOutcome::Panics,
            },
            ParseOutcome::Rejected(e) => ParseOutcome::Rejected(e),
            ParseOutcome::Panics => ParseOutcome::Panics,
        }
    }
}

proof fn lemma_pairs_prefix(ps: Seq<(Seq<char>, Seq<char>)>, i: int)
    requires
        0 <= i <= ps.len(),
        !(pairs_rules(ps.take(i)) is Parsed),
    ensures
        pairs_rules(ps) == pairs_rules(ps.take(i)),
    decreases ps.len() - i,
{
    if i < ps.len() {
        assert(ps.take(i + 1).drop_last() =~= ps.take(i));
        lemma_pairs_prefix(ps, i + 1);
    } else {
        assert(ps.take(i) =~= ps);
    }
}

impl KeyTrigger {
    /// Whether reading the text as a trigger would fail for good: its modifiers in brackets
    /// read well, but the closing bracket is missing. See [`parse_trigger`].
    pub fn has_unclosed_modifiers(s: &str) -> (r: bool)
        ensures
            r == (parse_trigger(s@) is Panics),
    {
        let ts = trim_chars(&chars_of(s));
        if ts.len() > 0 && ts[0] == '[' {
            let rest = slice(&ts, 1, ts.len());
            assert(rest@ =~= ts@.drop_first());
            let parts = split_chars(&rest, ']', ']');
            proof {
                crate::text::lemma_split_not_empty(rest@, ']', ']');
            }
            parts.len() < 2 && TriggerModifiers::parse_chars(&parts[0]).is_ok()
        } else {
            false
        }
    }
}

impl KeyTransformRules {
    /// The pairs of texts of the rules, in their order; see [`text_pairs`].
    pub fn to_text_pairs(&self) -> (r: Vec<(String, String)>)
        requires
            rules_known(self@),
        ensures
            r@.map_values(|p: (String, String)| (p.0@, p.1@)) == text_pairs(self@),
    {
        let mut r: Vec<(String, String)> = Vec::new();
        let mut i: usize = 0;
        while i < self.items.len()
            invariant
                i <= self.items.len(),
                rules_known(self@),
                r@.map_values(|p: (String, String)| (p.0@, p.1@)) == text_pairs(
                    self@.take(i as int),
                ),
            decreases self.items.len() - i,
        {
            let ghost before = r@.map_values(|p: (String, String)| (p.0@, p.1@));
            assert(crate::keyboard::transform_rules::rule_known(self@[i as int]));
            let item = &self.items[i];
            let pair = (item.trigger.to_string(), item.actions.to_string());
            r.push(pair);
            assert(r@.map_values(|p: (String, String)| (p.0@, p.1@)) =~= before.push(
                (pair.0@, pair.1@),
            ));
            assert(self@.take(i + 1) =~= self@.take(i as int).push(self@[i as int]));
            assert(text_pairs(self@.take(i + 1)) =~= text_pairs(self@.take(i as int)).push(
                text_pair(self@[i as int]),
            ));
            i = i + 1;
        }
        assert(self@.take(self.items.len() as int) =~= self@);
        r
    }

    /// Whether reading pairs of texts as rules would fail for good: whether, reading them in
    /// order, the first pair that is not read well has a trigger with unclosed modifiers.
    pub fn pairs_would_panic(pairs: &Vec<(String, String)>) -> (r: bool)
        ensures
            r == (pairs_rules(pairs@.map_values(|p: (String, String)| (p.0@, p.1@))) is Panics),
    {
        let ghost ps = pairs@.map_values(|p: (String, String)| (p.0@, p.1@));
        let mut i: usize = 0;
        assert(ps.take(0) =~= Seq::<(Seq<char>, Seq<char>)>::empty());
        while i < pairs.len()
            invariant
                i <= pairs.len(),
                ps == pairs@.map_values(|p: (String, String)| (p.0@, p.1@)),
                pairs_rules(ps.take(i as int)) is Parsed,
            decreases pairs.len() - i,
        {
            let ghost p = ps[i as int];
            assert(ps.take(i + 1).drop_last() =~= ps.take(i as int));
            assert(ps.take(i + 1).last() == p);
            if KeyTrigger::has_unclosed_modifiers(pairs[i].0.as_str()) {
                proof {
                    lemma_pairs_prefix(ps, i + 1);
                }
                return true;
            }
            let ok = KeyTrigger::from_text(pairs[i].0.as_str()).is_ok()
                && KeyActionSequence::from_text(pairs[i].1.as_str()).is_ok();
            if !ok {
                proof {
                    lemma_pairs_prefix(ps, i + 1);
                }
                return false;
            }
            i = i + 1;
        }
        assert(ps.take(pairs.len() as int) =~= ps);
        false
    }

    /// The rules that pairs of texts write, read in order; see [`pairs_rules`].
    pub fn from_text_pairs(pairs: &Vec<(String, String)>) -> (r: Result<KeyTransformRules, String>)
        requires
            !(pairs_rules(pairs@.map_values(|p: (String, String)| (p.0@, p.1@))) is Panics),
        ensures
            match pairs_rules(pairs@.map_values(|p: (String, String)| (p.0@, p.1@))) {
                ParseOutcome::Parsed(v) => r is Ok && r->Ok_0@ == v,
                ParseOutcome::Rejected(e) => r is Err && r->Err_0@ == e,
                ParseOutcome::Panics => true,
            },
    {
        let ghost ps = pairs@.map_values(|p: (String, String)| (p.0@, p.1@));
        let mut items: Vec<KeyTransformRule> = Vec::new();
        let mut i: usize = 0;
        assert(ps.take(0) =~= Seq::<(Seq<char>, Seq<char>)>::empty());
        assert(items@.map_values(|q: KeyTransformRule| q@) =~= Seq::<
            (KeyTrigger, Seq<KeyAction>),
        >::empty());
        while i < pairs.len()
            invariant
                i <= pairs.len(),
                ps == pairs@.map_values(|p: (String, String)| (p.0@, p.1@)),
                !(pairs_rules(ps) is Panics),
                pairs_rules(ps.take(i as int)) == ParseOutcome::Parsed(
                    items@.map_values(|q: KeyTransformRule| q@),
                ),
            decreases pairs.len() - i,
        {
            let ghost p = ps[i as int];
            assert(ps.take(i + 1).drop_last() =~= ps.take(i as int));
            assert(ps.take(i + 1).last() == p);
            proof {
                if !(pair_rule(p) is Parsed) {
                    lemma_pairs_prefix(ps, i + 1);
                }
            }
            let trigger = match KeyTrigger::from_text(pairs[i].0.as_str()) {
                Ok(t) => t,
                Err(e) => return Err(e),
            };
            let actions = match KeyActionSequence::from_text(pairs[i].1.as_str()) {
                Ok(a) => a,
                Err(e) => return Err(e),
            };
            let ghost before = items@.map_values(|q: KeyTransformRule| q@);
            let rule = KeyTransformRule { trigger, actions };
            items.push(rule);
            assert(items@.map_values(|q: KeyTransformRule| q@) =~= before.push(rule@));
            i = i + 1;
        }
        assert(ps.take(pairs.len() as int) =~= ps);
        Ok(KeyTransformRules { items })
    }
}

/// Whether each rule reads back from its pair of texts: the key of its trigger has a trigger
/// name, and it has actions whose keys have action names with no `→` or `>`.
pub open spec fn plain_pair(r: (KeyTrigger, Seq<KeyAction>)) -> bool {
    &&& is_known_key(r.0.action.key)
    &&& trigger_name(key_name(r.0.action.key))
    &&& r.1.len() > 0
    &&& sequence_actions(r.1)
}

/// Reading back the pairs of texts of rules gives the rules.
pub proof fn law_text_pairs_round_trip(rs: Seq<(KeyTrigger, Seq<KeyAction>)>)
    requires
        forall|i: int| 0 <= i < rs.len() ==> plain_pair(#[trigger] rs[i]),
    ensures
        pairs_rules(text_pairs(rs)) == ParseOutcome::Parsed(rs),
    decreases rs.len(),
{
    if rs.len() > 0 {
        let init = rs.drop_last();
        assert forall|i: int| 0 <= i < init.len() implies plain_pair(#[trigger] init[i]) by {
            assert(init[i] == rs[i]);
        }
        law_text_pairs_round_trip(init);
        assert(text_pairs(rs).drop_last() =~= text_pairs(init));
        let r = rs.last();
        assert(plain_pair(rs[rs.len() - 1]));
        law_trigger_text_round_trip(r.0);
        law_sequence_text_round_trip(r.1);
        assert(text_pairs(rs).last() == text_pair(r));
        assert(init.push(r) =~= rs);
    } else {
        assert(text_pairs(rs) =~= Seq::<(Seq<char>, Seq<char>)>::empty());
        assert(rs =~= Seq::<(KeyTrigger, Seq<KeyAction>)>::empty());
    }
}

} // verus!
