//! Reading back what was written: the text of an action, a sequence, a trigger, a rule, a
//! list of rules and a profile reads back as what it was written from, when the key names in
//! it have no whitespace at their ends and none of the characters that separate the parts of
//! the text (see [`action_name`], [`trigger_name`], [`plain_rule`]).
use vstd::prelude::*;
use crate::key_transition::{transition_text, KeyTransition};
use crate::keyboard::key::{is_known_key, key_by_name, key_name, law_name_of_key_round_trip};
use crate::keyboard::key_action::{action_text, action_texts, actions_text, KeyAction};
use crate::keyboard::key_modifiers::{
    law_modifiers_text_round_trip, lemma_modifiers_text_chars, modifiers_text,
    trigger_modifiers_text, TriggerModifiers,
};
use crate::keyboard::key_trigger::{trigger_text, KeyTrigger};
use crate::keyboard::parse::{
    any_expanded, downs, expand_action, expand_actions, expand_trigger, expand_triggers,
    group_rules, pair_rules, parse_action, parse_rule, parse_rule_list, parse_rule_pair,
    parse_sequence, parse_sequences, parse_trigger, parse_trigger_list, with_modifiers,
    ParseOutcome,
};
use crate::keyboard::transform_rules::{profile_text, rule_text, rule_texts, rules_text};
use crate::keyboard::parse::{parse_profile, parse_rule_lines, parse_rules};
use crate::text::{
    has_no_sep, is_sep, is_trimmed, is_ws, lemma_join_ends, lemma_join_no_sep,
    lemma_join_trimmed, lemma_split_join, lines,
    lemma_split_join_trim, lemma_split_no_sep, lemma_split_not_empty, lemma_split_prefix,
    lemma_trim_leading_space, lemma_trim_padded, lemma_trim_trimmed, split, trim, trim_all,
};

verus! {

/// A key name that reads back as itself in an action: no whitespace at its ends, and no `↓`
/// at its end (which an up arrow would complete to `↓↑`).
pub open spec fn action_name(name: Seq<char>) -> bool {
    &&& is_trimmed(name)
    &&& !(name.len() > 0 && name.last() == '↓')
}

proof fn lemma_arrow(t: KeyTransition)
    ensures
        transition_text(t).len() == 1,
        !is_ws(transition_text(t)[0]),
        !is_sep(transition_text(t)[0], '→', '>'),
        !is_sep(transition_text(t)[0], ']', ':'),
        !is_sep(transition_text(t)[0], ',', '\n'),
        transition_text(t)[0] != '[',
        transition_text(t)[0] != '*',
        transition_text(t)[0] != '^',
        transition_text(t)[0] != '↓' || t == KeyTransition::Down,
        transition_text(t)[0] != '↑' || t == KeyTransition::Up,
        transition_text(t)[0] == '↓' || transition_text(t)[0] == '↑',
{
}

/// Facts about the text of an action: it is trimmed and not empty, and it has a separator only
/// where its key name has one.
pub proof fn lemma_action_text(a: KeyAction)
    requires
        is_known_key(a.key),
        action_name(key_name(a.key)),
    ensures
        action_text(a).len() > 0,
        is_trimmed(action_text(a)),
        has_no_sep(key_name(a.key), '→', '>') ==> has_no_sep(action_text(a), '→', '>'),
        has_no_sep(key_name(a.key), ']', ':') ==> has_no_sep(action_text(a), ']', ':'),
        has_no_sep(key_name(a.key), ']', ']') ==> has_no_sep(action_text(a), ']', ']'),
        has_no_sep(key_name(a.key), ':', ',') ==> has_no_sep(action_text(a), ':', ','),
        has_no_sep(key_name(a.key), ':', ':') ==> has_no_sep(action_text(a), ':', ':'),
        has_no_sep(key_name(a.key), '\n', '\n') ==> has_no_sep(action_text(a), '\n', '\n'),
        has_no_sep(key_name(a.key), ',', '\n') ==> has_no_sep(action_text(a), ',', '\n'),
        !(key_name(a.key).len() > 0 && key_name(a.key)[0] == '[') ==> action_text(a)[0] != '[',
{
    let name = key_name(a.key);
    let s = action_text(a);
    lemma_arrow(a.transition);
    assert(s.last() == transition_text(a.transition)[0]);
    if name.len() > 0 {
        assert(s[0] == name[0]);
    }
    assert forall|c1: char, c2: char| has_no_sep(name, c1, c2) && !is_sep(
        transition_text(a.transition)[0],
        c1,
        c2,
    ) implies has_no_sep(s, c1, c2) by {
        assert forall|i: int| 0 <= i < s.len() implies !is_sep(#[trigger] s[i], c1, c2) by {
            if i < name.len() {
                assert(s[i] == name[i]);
            }
        }
    }
}

/// The text of an action reads back as that action alone.
pub proof fn law_action_text_round_trip(a: KeyAction)
    requires
        is_known_key(a.key),
        action_name(key_name(a.key)),
    ensures
        expand_action(action_text(a)) == Some(seq![a]),
        parse_action(action_text(a)) == Some(a),
{
    let name = key_name(a.key);
    let s = action_text(a);
    lemma_action_text(a);
    lemma_trim_trimmed(s);
    let n = s.len();
    lemma_arrow(a.transition);
    assert(s[n - 1] == transition_text(a.transition)[0]);
    assert(s.take(n - 1) =~= name);
    lemma_trim_trimmed(name);
    law_name_of_key_round_trip(a.key, name);
    assert(key_by_name(name) == Some(a.key));
    if n >= 2 {
        assert(s[n - 2] == name.last());
    }
    assert(expand_action(s) =~= Some(seq![a]));
}

/// Whether each action reads back as itself and has no separator of sequences in its key name.
pub open spec fn sequence_actions(actions: Seq<KeyAction>) -> bool {
    forall|i: int|
        0 <= i < actions.len() ==> is_known_key(#[trigger] actions[i].key) && action_name(
            key_name(actions[i].key),
        ) && has_no_sep(key_name(actions[i].key), '→', '>')
}

/// The actions of parts depend on the parts trimmed alone.
proof fn lemma_expand_actions_trimmed(ps: Seq<Seq<char>>, qs: Seq<Seq<char>>)
    requires
        ps.len() == qs.len(),
        trim_all(ps) == trim_all(qs),
    ensures
        expand_actions(ps) == expand_actions(qs),
    decreases ps.len(),
{
    if ps.len() > 0 {
        assert(trim_all(ps.drop_last()) =~= trim_all(qs.drop_last())) by {
            assert forall|i: int| 0 <= i < ps.len() - 1 implies trim_all(ps.drop_last())[i]
                == trim_all(qs.drop_last())[i] by {
                assert(trim_all(ps)[i] == trim_all(qs)[i]);
            }
        }
        lemma_expand_actions_trimmed(ps.drop_last(), qs.drop_last());
        assert(trim_all(ps)[ps.len() - 1] == trim_all(qs)[qs.len() - 1]);
        assert(trim(ps.last()) == trim(qs.last()));
        assert(expand_action(ps.last()) == expand_action(qs.last()));
    }
}

/// The actions of the texts of actions are those actions, one each.
proof fn lemma_expand_action_texts(actions: Seq<KeyAction>)
    requires
        sequence_actions(actions),
    ensures
        expand_actions(action_texts(actions)) == Some(actions.map_values(|a: KeyAction| seq![a])),
    decreases actions.len(),
{
    if actions.len() > 0 {
        let init = actions.drop_last();
        assert(sequence_actions(init)) by {
            assert forall|i: int| 0 <= i < init.len() implies is_known_key(
                #[trigger] init[i].key,
            ) && action_name(key_name(init[i].key)) && has_no_sep(key_name(init[i].key), '→', '>')
                by {
                assert(init[i] == actions[i]);
            }
        }
        lemma_expand_action_texts(init);
        assert(action_texts(actions).drop_last() =~= action_texts(init));
        let last = actions.last();
        assert(is_known_key(actions[actions.len() - 1].key));
        law_action_text_round_trip(last);
        assert(actions.map_values(|a: KeyAction| seq![a]) =~= init.map_values(
            |a: KeyAction| seq![a],
        ).push(seq![last]));
    }
}

/// The text of a sequence of actions reads back as that sequence alone.
pub proof fn law_sequence_text_round_trip(actions: Seq<KeyAction>)
    requires
        actions.len() > 0,
        sequence_actions(actions),
    ensures
        parse_sequences(actions_text(actions)) == Some(seq![actions]),
        parse_sequence(actions_text(actions)) == Some(actions),
{
    let texts = action_texts(actions);
    assert forall|i: int| 0 <= i < texts.len() implies has_no_sep(#[trigger] texts[i], '→', '>')
        && is_trimmed(texts[i]) && texts[i].len() > 0 by {
        assert(is_known_key(actions[i].key));
        lemma_action_text(actions[i]);
    }
    lemma_split_join_trim(texts, '→', '→', '>');
    let parts = split(actions_text(actions), '→', '>');
    assert(trim_all(texts) =~= texts) by {
        assert forall|i: int| 0 <= i < texts.len() implies trim_all(texts)[i] == texts[i] by {
            lemma_trim_trimmed(texts[i]);
        }
    }
    lemma_expand_actions_trimmed(parts, texts);
    lemma_expand_action_texts(actions);
    let xs = actions.map_values(|a: KeyAction| seq![a]);
    assert(!any_expanded(xs));
    assert(downs(xs) =~= actions);
}

/// A key name that reads back as itself in a trigger: an action name with no `]`, that does
/// not start with `[`.
pub open spec fn trigger_name(name: Seq<char>) -> bool {
    &&& action_name(name)
    &&& has_no_sep(name, ']', ']')
    &&& !(name.len() > 0 && name[0] == '[')
}

/// The text of a trigger reads back as that trigger alone.
pub proof fn law_trigger_text_round_trip(t: KeyTrigger)
    requires
        is_known_key(t.action.key),
        trigger_name(key_name(t.action.key)),
    ensures
        expand_trigger(trigger_text(t)) == ParseOutcome::Parsed(seq![t]),
        parse_trigger(trigger_text(t)) == ParseOutcome::Parsed(t),
{
    let a = t.action;
    let at = action_text(a);
    lemma_action_text(a);
    law_action_text_round_trip(a);
    let s = trigger_text(t);
    match t.modifiers {
        TriggerModifiers::All(m) => {
            let mt = modifiers_text(m);
            lemma_modifiers_text_chars(m);
            law_modifiers_text_round_trip(m);
            assert(has_no_sep(mt, ']', ']')) by {
                assert forall|i: int| 0 <= i < mt.len() implies !is_sep(#[trigger] mt[i], ']', ']') by {
                    assert(!is_sep(mt[i], ']', ':'));
                }
            }
            assert(s =~= seq!['['] + (mt + seq![']'] + at));
            assert(s[0] == '[');
            assert(s.last() == at.last());
            lemma_trim_trimmed(s);
            assert(s.drop_first() =~= mt + seq![']'] + at);
            lemma_split_prefix(mt, ']', at, ']', ']');
            lemma_split_no_sep(at, ']', ']');
            let parts = split(s.drop_first(), ']', ']');
            assert(parts =~= seq![mt, at]);
            assert(with_modifiers(seq![a], t.modifiers) =~= seq![t]);
        },
        TriggerModifiers::Any => {
            assert(s =~= at);
            lemma_trim_trimmed(s);
            assert(with_modifiers(seq![a], t.modifiers) =~= seq![t]);
        },
    }
}

/// A leading space changes nothing in how a text reads as sequences.
proof fn lemma_sequences_leading_space(x: Seq<char>)
    ensures
        parse_sequences(seq![' '] + x) == parse_sequences(x),
{
    let s = seq![' '] + x;
    assert(s.drop_first() =~= x);
    assert(!is_sep(' ', '→', '>'));
    let px = split(x, '→', '>');
    lemma_split_not_empty(x, '→', '>');
    let ps = split(s, '→', '>');
    assert(ps == px.update(0, seq![' '] + px[0]));
    assert(trim_all(ps) =~= trim_all(px)) by {
        assert forall|i: int| 0 <= i < ps.len() implies trim_all(ps)[i] == trim_all(px)[i] by {
            if i == 0 {
                lemma_trim_leading_space(px[0]);
            }
        }
    }
    lemma_expand_actions_trimmed(ps, px);
}

/// Whether a rule reads back as itself: the key of its trigger has a trigger name with no `:`
/// and no `,`; it has actions, and their keys have action names with no `→`, `>` or `:`.
pub open spec fn plain_rule(r: (KeyTrigger, Seq<KeyAction>)) -> bool {
    &&& is_known_key(r.0.action.key)
    &&& trigger_name(key_name(r.0.action.key))
    &&& has_no_sep(key_name(r.0.action.key), ':', ',')
    &&& r.1.len() > 0
    &&& sequence_actions(r.1)
    &&& forall|i: int| 0 <= i < r.1.len() ==> has_no_sep(key_name(#[trigger] r.1[i].key), ':', ':')
}

/// Facts about the text of a trigger: it is trimmed, not empty, and has no `:` and no `,`.
proof fn lemma_trigger_text(t: KeyTrigger)
    requires
        is_known_key(t.action.key),
        action_name(key_name(t.action.key)),
        has_no_sep(key_name(t.action.key), ':', ','),
    ensures
        trigger_text(t).len() > 0,
        is_trimmed(trigger_text(t)),
        has_no_sep(trigger_text(t), ':', ','),
{
    let at = action_text(t.action);
    lemma_action_text(t.action);
    let mt = trigger_modifiers_text(t.modifiers);
    let s = trigger_text(t);
    assert(s == mt + at);
    assert(has_no_sep(mt, ':', ',')) by {
        match t.modifiers {
            TriggerModifiers::All(m) => {
                lemma_modifiers_text_chars(m);
                let x = modifiers_text(m);
                assert forall|i: int| 0 <= i < mt.len() implies !is_sep(#[trigger] mt[i], ':', ',') by {
                    if i > 0 && i < mt.len() - 1 {
                        assert(mt[i] == x[i - 1]);
                        assert(!is_sep(x[i - 1], ']', ':'));
                        assert(!is_sep(x[i - 1], ',', '\n'));
                    }
                }
            },
            TriggerModifiers::Any => {},
        }
    }
    assert forall|i: int| 0 <= i < s.len() implies !is_sep(#[trigger] s[i], ':', ',') by {
        if i < mt.len() {
            assert(s[i] == mt[i]);
        } else {
            assert(s[i] == at[i - mt.len()]);
        }
    }
    assert(s.last() == at.last());
    if mt.len() > 0 {
        assert(s[0] == '[');
    } else {
        assert(s[0] == at[0]);
    }
}

/// Facts about the text of a sequence: it is trimmed, not empty, and has no `:`.
proof fn lemma_actions_text(actions: Seq<KeyAction>)
    requires
        actions.len() > 0,
        sequence_actions(actions),
        forall|i: int| 0 <= i < actions.len() ==> has_no_sep(key_name(#[trigger] actions[i].key), ':', ':'),
    ensures
        actions_text(actions).len() > 0,
        is_trimmed(actions_text(actions)),
        has_no_sep(actions_text(actions), ':', ':'),
{
    let texts = action_texts(actions);
    assert forall|i: int| 0 <= i < texts.len() implies has_no_sep(#[trigger] texts[i], ':', ':')
        && is_trimmed(texts[i]) && texts[i].len() > 0 by {
        assert(is_known_key(actions[i].key));
        assert(has_no_sep(key_name(actions[i].key), ':', ':'));
        lemma_action_text(actions[i]);
    }
    lemma_join_ends(texts, seq![' ', '→', ' ']);
    assert(is_trimmed(texts[0]));
    assert(is_trimmed(texts.last()));
    lemma_join_no_sep(texts, seq![' ', '→', ' '], ':', ':');
}

/// The text of a rule reads back as that rule alone.
pub proof fn law_rule_text_round_trip(r: (KeyTrigger, Seq<KeyAction>))
    requires
        plain_rule(r),
    ensures
        parse_rule_list(rule_text(r)) == ParseOutcome::Parsed(seq![r]),
        parse_rule(rule_text(r)) == ParseOutcome::Parsed(r),
{
    let t = r.0;
    let acts = r.1;
    let tt = trigger_text(t);
    let at = crate::keyboard::key_action::actions_text(acts);
    lemma_trigger_text(t);
    lemma_actions_text(acts);
    law_trigger_text_round_trip(t);
    law_sequence_text_round_trip(acts);
    let s = rule_text(r);
    let left = tt + seq![' '];
    let right = seq![' '] + at;
    assert(s =~= left + seq![':'] + right);
    assert(s[0] == tt[0]);
    assert(s.last() == at.last());
    lemma_trim_trimmed(s);
    assert(has_no_sep(left, ':', ':')) by {
        assert forall|i: int| 0 <= i < left.len() implies !is_sep(#[trigger] left[i], ':', ':') by {
            if i < tt.len() {
                assert(left[i] == tt[i]);
                assert(!is_sep(tt[i], ':', ','));
            }
        }
    }
    assert(has_no_sep(right, ':', ':')) by {
        assert forall|i: int| 0 <= i < right.len() implies !is_sep(#[trigger] right[i], ':', ':') by {
            if i > 0 {
                assert(right[i] == at[i - 1]);
            }
        }
    }
    lemma_split_prefix(left, ':', right, ':', ':');
    lemma_split_no_sep(right, ':', ':');
    let parts = split(trim(s), ':', ':');
    assert(parts =~= seq![left, right]);
    // the triggers
    assert(has_no_sep(left, ',', ',')) by {
        assert forall|i: int| 0 <= i < left.len() implies !is_sep(#[trigger] left[i], ',', ',') by {
            if i < tt.len() {
                assert(left[i] == tt[i]);
                assert(!is_sep(tt[i], ':', ','));
            }
        }
    }
    lemma_split_no_sep(left, ',', ',');
    lemma_trim_padded(tt, false, true);
    assert(Seq::<char>::empty() + tt + seq![' '] =~= left);
    assert(trim(left) == tt);
    assert(expand_trigger(left) == expand_trigger(tt));
    let one = seq![left];
    assert(one.drop_last() =~= Seq::<Seq<char>>::empty());
    assert(expand_triggers(one) == ParseOutcome::Parsed(seq![seq![t]])) by {
        assert(expand_triggers(Seq::<Seq<char>>::empty()) == ParseOutcome::Parsed(
            Seq::<Seq<KeyTrigger>>::empty(),
        ));
        assert(one.last() == left);
        assert(expand_trigger(one.last()) == ParseOutcome::Parsed(seq![t]));
        assert(Seq::<Seq<KeyTrigger>>::empty().push(seq![t]) =~= seq![seq![t]]);
    }
    assert(parse_trigger_list(left) == ParseOutcome::Parsed(seq![seq![t]]));
    // the sequence
    lemma_sequences_leading_space(at);
    assert(parse_sequences(right) == Some(seq![acts]));
    // the rules
    let groups = seq![seq![t]];
    assert(groups.drop_last() =~= Seq::<Seq<KeyTrigger>>::empty());
    assert(group_rules(seq![t], seq![acts]) =~= seq![(t, acts)]);
    assert(pair_rules(Seq::<Seq<KeyTrigger>>::empty(), seq![acts]) =~= Seq::<
        (KeyTrigger, Seq<KeyAction>),
    >::empty());
    assert(groups.last() == seq![t]);
    assert(pair_rules(groups, seq![acts]) =~= seq![(t, acts)]);
    assert(parse_rule_pair(left, right) == ParseOutcome::Parsed(seq![r]));
}

/// Whether a rule reads back as itself on a line of its own: it reads back as itself, and no
/// key name in it has a line break.
pub open spec fn plain_rule_line(r: (KeyTrigger, Seq<KeyAction>)) -> bool {
    &&& plain_rule(r)
    &&& has_no_sep(key_name(r.0.action.key), '\n', '\n')
    &&& forall|i: int|
        0 <= i < r.1.len() ==> has_no_sep(key_name(#[trigger] r.1[i].key), '\n', '\n')
}

/// Whether every rule of a list reads back as itself on a line of its own.
pub open spec fn plain_rule_lines(rs: Seq<(KeyTrigger, Seq<KeyAction>)>) -> bool {
    forall|i: int| 0 <= i < rs.len() ==> plain_rule_line(#[trigger] rs[i])
}

/// Facts about the text of a rule: it is trimmed, not empty, and on one line.
proof fn lemma_rule_text(r: (KeyTrigger, Seq<KeyAction>))
    requires
        plain_rule_line(r),
    ensures
        rule_text(r).len() > 0,
        is_trimmed(rule_text(r)),
        has_no_sep(rule_text(r), '\n', '\n'),
{
    let t = r.0;
    let acts = r.1;
    let tt = trigger_text(t);
    let at = crate::keyboard::key_action::actions_text(acts);
    lemma_trigger_text(t);
    lemma_actions_text(acts);
    let s = rule_text(r);
    assert(s[0] == tt[0]);
    assert(s.last() == at.last());
    // the trigger is on one line
    let mt = trigger_modifiers_text(t.modifiers);
    let a0 = action_text(t.action);
    lemma_action_text(t.action);
    assert(tt == mt + a0);
    assert(has_no_sep(mt, '\n', '\n')) by {
        match t.modifiers {
            TriggerModifiers::All(m) => {
                lemma_modifiers_text_chars(m);
                let x = modifiers_text(m);
                assert forall|i: int| 0 <= i < mt.len() implies !is_sep(#[trigger] mt[i], '\n', '\n') by {
                    if i > 0 && i < mt.len() - 1 {
                        assert(mt[i] == x[i - 1]);
                        assert(!is_sep(x[i - 1], ',', '\n'));
                    }
                }
            },
            TriggerModifiers::Any => {},
        }
    }
    // the actions are on one line
    let texts = action_texts(acts);
    assert forall|i: int| 0 <= i < texts.len() implies has_no_sep(#[trigger] texts[i], '\n', '\n') by {
        assert(is_known_key(acts[i].key));
        assert(action_name(key_name(acts[i].key)));
        lemma_action_text(acts[i]);
    }
    lemma_join_no_sep(texts, seq![' ', '→', ' '], '\n', '\n');
    assert forall|i: int| 0 <= i < s.len() implies !is_sep(#[trigger] s[i], '\n', '\n') by {
        if i < mt.len() {
            assert(s[i] == mt[i]);
        } else if i < tt.len() {
            assert(s[i] == a0[i - mt.len()]);
        } else if i >= tt.len() + 3 {
            assert(s[i] == at[i - tt.len() - 3]);
        }
    }
}

/// Lines that are the texts of rules read back as those rules.
proof fn lemma_rule_lines(rs: Seq<(KeyTrigger, Seq<KeyAction>)>)
    requires
        plain_rule_lines(rs),
    ensures
        parse_rule_lines(rule_texts(rs)) == ParseOutcome::Parsed(rs),
    decreases rs.len(),
{
    if rs.len() > 0 {
        let init = rs.drop_last();
        assert(plain_rule_lines(init)) by {
            assert forall|i: int| 0 <= i < init.len() implies plain_rule_line(#[trigger] init[i]) by {
                assert(init[i] == rs[i]);
            }
        }
        lemma_rule_lines(init);
        let ls = rule_texts(rs);
        assert(ls.drop_last() =~= rule_texts(init));
        let r = rs.last();
        assert(plain_rule_line(rs[rs.len() - 1]));
        lemma_rule_text(r);
        lemma_trim_trimmed(rule_text(r));
        law_rule_text_round_trip(r);
        assert(ls.last() == rule_text(r));
        assert(trim(ls.last()) == rule_text(r));
        assert(parse_rule_list(trim(ls.last())) == ParseOutcome::Parsed(seq![r]));
        assert(parse_rule_lines(ls.drop_last()) == ParseOutcome::Parsed(init));
        assert(init + seq![r] =~= rs);
        assert(parse_rule_lines(ls) == ParseOutcome::Parsed(init + seq![r]));
    } else {
        assert(rule_texts(rs) =~= Seq::<Seq<char>>::empty());
        assert(rs =~= Seq::<(KeyTrigger, Seq<KeyAction>)>::empty());
    }
}

/// The text of a list of rules reads back as that list.
pub proof fn law_rules_text_round_trip(rs: Seq<(KeyTrigger, Seq<KeyAction>)>)
    requires
        plain_rule_lines(rs),
    ensures
        parse_rules(rules_text(rs)) == ParseOutcome::Parsed(rs),
{
    let texts = rule_texts(rs);
    lemma_rule_lines(rs);
    if rs.len() == 0 {
        assert(texts =~= Seq::<Seq<char>>::empty());
        assert(rules_text(rs) =~= Seq::<char>::empty());
        assert(trim(Seq::<char>::empty()) =~= Seq::<char>::empty());
        assert(lines(Seq::<char>::empty()) =~= Seq::<Seq<char>>::empty());
    } else {
        assert forall|i: int| 0 <= i < texts.len() implies (#[trigger] texts[i]).len() > 0
            && is_trimmed(texts[i]) && has_no_sep(texts[i], '\n', '\n') by {
            assert(plain_rule_line(rs[i]));
            lemma_rule_text(rs[i]);
        }
        lemma_join_trimmed(texts, seq!['\n']);
        lemma_join_ends(texts, seq!['\n']);
        lemma_trim_trimmed(rules_text(rs));
        lemma_split_join(texts, '\n', '\n', '\n');
    }
}

/// A title that reads back as itself: not empty, trimmed, on one line.
pub open spec fn plain_title(title: Seq<char>) -> bool {
    title.len() > 0 && is_trimmed(title) && has_no_sep(title, '\n', '\n')
}

/// The text of a profile reads back as its title and its rules.
pub proof fn law_profile_text_round_trip(title: Seq<char>, rs: Seq<(KeyTrigger, Seq<KeyAction>)>)
    requires
        plain_title(title),
        plain_rule_lines(rs),
    ensures
        parse_profile(profile_text(title, rs)) == ParseOutcome::Parsed((title, rs)),
{
    let texts = rule_texts(rs);
    let s = profile_text(title, rs);
    lemma_rule_lines(rs);
    lemma_trim_trimmed(title);
    lemma_split_no_sep(title, '\n', '\n');
    if rs.len() == 0 {
        assert(texts =~= Seq::<Seq<char>>::empty());
        assert(rules_text(rs) =~= Seq::<char>::empty());
        assert(s =~= title + seq!['\n']);
        assert(is_ws('\n'));
        assert(trim(s) == title) by {
            assert(s[0] == title[0]);
            assert(s.drop_last() =~= title);
            assert(crate::text::trim_start(s) == s);
            assert(crate::text::trim_end(s) == crate::text::trim_end(title));
        }
        let ls = lines(title);
        assert(ls =~= seq![title]);
        assert(ls.drop_first() =~= texts);
    } else {
        assert forall|i: int| 0 <= i < texts.len() implies (#[trigger] texts[i]).len() > 0
            && is_trimmed(texts[i]) && has_no_sep(texts[i], '\n', '\n') by {
            assert(plain_rule_line(rs[i]));
            lemma_rule_text(rs[i]);
        }
        lemma_join_ends(texts, seq!['\n']);
        let rt = rules_text(rs);
        assert(s == title + seq!['\n'] + rt);
        assert(s[0] == title[0]);
        assert(s.last() == rt.last());
        lemma_trim_trimmed(s);
        lemma_split_prefix(title, '\n', rt, '\n', '\n');
        lemma_split_join(texts, '\n', '\n', '\n');
        let ls = lines(s);
        assert(ls =~= seq![title] + texts);
        assert(ls.drop_first() =~= texts);
    }
}

} // verus!
