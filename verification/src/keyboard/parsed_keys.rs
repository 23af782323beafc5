//! What is read from a text names keys of the key table only, so it can always be written back.
use vstd::prelude::*;
use crate::keyboard::key::{is_known_key, key_by_name, law_key_table_round_trip, lemma_index_bounds, name_index};
use crate::keyboard::key_action::{all_known, KeyAction};
use crate::keyboard::key_trigger::KeyTrigger;
use crate::keyboard::parse::{
    downs, expand_action, expand_actions, expand_trigger, expand_triggers, group_rules,
    pair_rules, parse_profile, parse_rule_lines, parse_rule_list, parse_rules, parse_sequences,
    ups, ParseOutcome,
};
use crate::keyboard::transform_rules::{rule_known, rules_known};
use crate::text::{split, trim};

verus! {

proof fn lemma_key_by_name_known(name: Seq<char>)
    ensures
        key_by_name(name) matches Some(k) ==> is_known_key(k),
{
    let t = trim(name);
    lemma_index_bounds(t, crate::keyboard::key_const::key_spec(0));
    if name_index(t) >= 0 {
        law_key_table_round_trip(name_index(t));
    }
}

proof fn lemma_expand_action_known(s: Seq<char>)
    ensures
        expand_action(s) matches Some(v) ==> v.len() >= 1 && all_known(v),
{
    let ts = trim(s);
    let n = ts.len();
    lemma_key_by_name_known(ts);
    if n >= 1 {
        lemma_key_by_name_known(ts.take(n - 1));
    }
    if n >= 2 {
        lemma_key_by_name_known(ts.take(n - 2));
    }
}

proof fn lemma_expand_actions_known(parts: Seq<Seq<char>>)
    ensures
        expand_actions(parts) matches Some(xs) ==> xs.len() == parts.len() && forall|i: int|
            0 <= i < xs.len() ==> (#[trigger] xs[i]).len() >= 1 && all_known(xs[i]),
    decreases parts.len(),
{
    if parts.len() > 0 {
        lemma_expand_actions_known(parts.drop_last());
        lemma_expand_action_known(parts.last());
        if let Some(xs) = expand_actions(parts) {
            let init = xs.drop_last();
            assert forall|i: int| 0 <= i < xs.len() implies (#[trigger] xs[i]).len() >= 1 && all_known(xs[i]) by {
                if i < xs.len() - 1 {
                    assert(xs[i] == init[i]);
                }
            }
        }
    }
}

/// The sequences read from a text name keys of the table only.
pub proof fn law_parsed_sequences_known(s: Seq<char>)
    ensures
        parse_sequences(s) matches Some(v) ==> forall|i: int| 0 <= i < v.len() ==> all_known(#[trigger] v[i]),
{
    let parts = split(s, '→', '>');
    lemma_expand_actions_known(parts);
    if let Some(xs) = expand_actions(parts) {
        let d = downs(xs);
        let u = ups(xs);
        assert forall|k: int| 0 <= k < d.len() implies is_known_key(#[trigger] d[k].key) by {
            assert(all_known(xs[k]));
            assert(d[k] == xs[k][0]);
        }
        assert forall|k: int| 0 <= k < u.len() implies is_known_key(#[trigger] u[k].key) by {
            assert(all_known(xs[k]));
        }
    }
}

proof fn lemma_expand_trigger_known(s: Seq<char>)
    ensures
        expand_trigger(s) matches ParseOutcome::Parsed(v) ==> v.len() >= 1 && forall|i: int|
            0 <= i < v.len() ==> is_known_key(#[trigger] v[i].action.key),
{
    let ts = trim(s);
    lemma_expand_action_known(ts);
    if ts.len() > 0 && ts[0] == '[' {
        let parts = split(ts.drop_first(), ']', ']');
        if parts.len() >= 2 {
            lemma_expand_action_known(parts[1]);
        }
    }
    if let ParseOutcome::Parsed(v) = expand_trigger(s) {
        assert forall|i: int| 0 <= i < v.len() implies is_known_key(#[trigger] v[i].action.key) by {
            if ts.len() > 0 && ts[0] == '[' {
                let parts = split(ts.drop_first(), ']', ']');
                let acts = expand_action(parts[1])->0;
                assert(v[i].action == acts[i]);
            } else {
                let acts = expand_action(ts)->0;
                assert(v[i].action == acts[i]);
            }
        }
    }
}

proof fn lemma_expand_triggers_known(parts: Seq<Seq<char>>)
    ensures
        expand_triggers(parts) matches ParseOutcome::Parsed(gs) ==> forall|i: int, j: int|
            0 <= i < gs.len() && 0 <= j < gs[i].len() ==> is_known_key(#[trigger] gs[i][j].action.key),
    decreases parts.len(),
{
    if parts.len() > 0 {
        lemma_expand_triggers_known(parts.drop_last());
        lemma_expand_trigger_known(parts.last());
        if let ParseOutcome::Parsed(gs) = expand_triggers(parts) {
            let init = gs.drop_last();
            assert forall|i: int, j: int| 0 <= i < gs.len() && 0 <= j < gs[i].len() implies is_known_key(
                #[trigger] gs[i][j].action.key,
            ) by {
                if i < gs.len() - 1 {
                    assert(gs[i] == init[i]);
                }
            }
        }
    }
}

proof fn lemma_pair_rules_known(groups: Seq<Seq<KeyTrigger>>, seqs: Seq<Seq<KeyAction>>)
    requires
        forall|i: int, j: int|
            0 <= i < groups.len() && 0 <= j < groups[i].len() ==> is_known_key(#[trigger] groups[i][j].action.key),
        forall|i: int| 0 <= i < groups.len() ==> (#[trigger] groups[i]).len() >= 1,
        seqs.len() >= 1,
        forall|i: int| 0 <= i < seqs.len() ==> all_known(#[trigger] seqs[i]),
    ensures
        rules_known(pair_rules(groups, seqs)),
    decreases groups.len(),
{
    if groups.len() > 0 {
        let init = groups.drop_last();
        assert forall|i: int, j: int| 0 <= i < init.len() && 0 <= j < init[i].len() implies is_known_key(
            #[trigger] init[i][j].action.key,
        ) by {
            assert(init[i] == groups[i]);
        }
        assert forall|i: int| 0 <= i < init.len() implies (#[trigger] init[i]).len() >= 1 by {
            assert(init[i] == groups[i]);
        }
        lemma_pair_rules_known(init, seqs);
        let g = groups.last();
        assert(g == groups[groups.len() - 1]);
        let rs = group_rules(g, seqs);
        assert forall|k: int| 0 <= k < rs.len() implies rule_known(#[trigger] rs[k]) by {
            if k < g.len() {
                assert(is_known_key(groups[groups.len() - 1][k].action.key));
            } else {
                assert(is_known_key(groups[groups.len() - 1][g.len() - 1].action.key));
            }
            if k < seqs.len() {
                assert(all_known(seqs[k]));
            } else {
                assert(all_known(seqs[seqs.len() - 1]));
            }
        }
        let all = pair_rules(groups, seqs);
        let first = pair_rules(init, seqs);
        assert(all == first + rs);
        assert forall|k: int| 0 <= k < all.len() implies rule_known(#[trigger] all[k]) by {
            if k < first.len() {
                assert(all[k] == first[k]);
            } else {
                assert(all[k] == rs[k - first.len()]);
            }
        }
    }
}

proof fn lemma_rule_list_known(s: Seq<char>)
    ensures
        parse_rule_list(s) matches ParseOutcome::Parsed(v) ==> rules_known(v),
{
    let parts = split(trim(s), ':', ':');
    if parts.len() >= 2 {
        let tparts = split(parts[0], ',', ',');
        lemma_expand_triggers_known(tparts);
        law_parsed_sequences_known(parts[1]);
        if let ParseOutcome::Parsed(groups) = expand_triggers(tparts) {
            if let Some(seqs) = parse_sequences(parts[1]) {
                crate::keyboard::parse::lemma_groups_not_empty(tparts);
                assert(seqs.len() >= 1);
                lemma_pair_rules_known(groups, seqs);
            }
        }
    }
}

proof fn lemma_rule_lines_known(ls: Seq<Seq<char>>)
    ensures
        parse_rule_lines(ls) matches ParseOutcome::Parsed(v) ==> rules_known(v),
    decreases ls.len(),
{
    if ls.len() > 0 {
        lemma_rule_lines_known(ls.drop_last());
        lemma_rule_list_known(trim(ls.last()));
        if let ParseOutcome::Parsed(v) = parse_rule_lines(ls) {
            let first = parse_rule_lines(ls.drop_last())->Parsed_0;
            let more = parse_rule_list(trim(ls.last()))->Parsed_0;
            assert(v == first + more);
            assert forall|k: int| 0 <= k < v.len() implies rule_known(#[trigger] v[k]) by {
                if k < first.len() {
                    assert(v[k] == first[k]);
                } else {
                    assert(v[k] == more[k - first.len()]);
                }
            }
        }
    }
}

/// The rules read from a text name keys of the table only, so they can always be written.
pub proof fn law_parsed_rules_known(s: Seq<char>)
    ensures
        parse_rules(s) matches ParseOutcome::Parsed(v) ==> rules_known(v),
        parse_rule_list(s) matches ParseOutcome::Parsed(v) ==> rules_known(v),
        parse_profile(s) matches ParseOutcome::Parsed(p) ==> rules_known(p.1),
{
    lemma_rule_list_known(s);
    lemma_rule_lines_known(crate::text::lines(trim(s)));
    let ls = crate::text::lines(trim(s));
    if ls.len() > 0 {
        lemma_rule_lines_known(ls.drop_first());
    }
}

} // verus!
