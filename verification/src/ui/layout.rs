//! Layouts: named sets of rules, with the icon, sounds and lighting that go with them.
use vstd::prelude::*;
use std::collections::HashMap;
use crate::keyboard::key_action::KeyAction;
use crate::keyboard::key_trigger::KeyTrigger;
use crate::keyboard::transform_rules::{rules_known, rules_text, KeyTransformRules};
use crate::text::{push_str, str_eq};
use crate::ui::kb_light::KeyboardZoneColors;

verus! {

/// The name of the layout that is always there.
pub const DEFAULT_LAYOUT: &'static str = "default";

/// A layout: its name, its title, its rules, and the icon, sounds (by keyboard locale) and
/// keyboard lighting that go with it.
#[derive(Debug, PartialEq)]
pub struct KeyTransformLayout {
    pub name: String,
    pub title: String,
    pub rules: Option<KeyTransformRules>,
    pub icon: Option<String>,
    pub sound: Option<HashMap<String, HashMap<String, String>>>,
    pub keyboard_lighting: Option<HashMap<String, HashMap<String, KeyboardZoneColors>>>,
}

/// The rules of a layout, if it has any; none otherwise.
pub open spec fn layout_rules(l: KeyTransformLayout) -> Seq<(KeyTrigger, Seq<KeyAction>)> {
    match l.rules {
        Some(r) => r@,
        None => Seq::empty(),
    }
}

/// The text of a layout: its title, then its rules from the next line on.
pub open spec fn layout_text(l: KeyTransformLayout) -> Seq<char> {
    l.title@ + seq!['\n'] + match l.rules {
        Some(r) => rules_text(r@),
        None => Seq::empty(),
    }
}

/// The title that a layout gets when its file gives none.
pub fn serde_untitled() -> (r: String)
    ensures
        r@ == "Untitled layout"@,
{
    "Untitled layout".to_string()
}

impl KeyTransformLayout {
    /// The text of the layout; see [`layout_text`].
    pub fn to_string(&self) -> (r: String)
        requires
            rules_known(layout_rules(*self)),
        ensures
            r@ == layout_text(*self),
    {
        let mut r = self.title.clone();
        push_str(&mut r, "\n");
        match &self.rules {
            Some(rules) => push_str(&mut r, &rules.to_string()),
            None => {},
        }
        proof {
            reveal_strlit("\n");
            assert("\n"@ =~= seq!['\n']);
            assert(r@ =~= layout_text(*self));
        }
        r
    }
}

impl Default for KeyTransformLayout {
    /// A layout with an empty name and title and nothing else.
    fn default() -> (r: Self)
        ensures
            r.name@ == Seq::<char>::empty(),
            r.title@ == Seq::<char>::empty(),
            r.rules is None,
            r.icon is None,
            r.sound is None,
            r.keyboard_lighting is None,
    {
        KeyTransformLayout {
            name: String::new(),
            title: String::new(),
            rules: None,
            icon: None,
            sound: None,
            keyboard_lighting: None,
        }
    }
}

/// The position of the first layout named `name`; -1 if there is none.
pub open spec fn layout_index(ls: Seq<KeyTransformLayout>, name: Seq<char>) -> int
    decreases ls.len(),
{
    if ls.len() == 0 {
        -1
    } else if ls[0].name@ == name {
        0
    } else {
        let r = layout_index(ls.skip(1), name);
        if r < 0 {
            -1
        } else {
            r + 1
        }
    }
}

/// The position of the layout after the first one named `name`, going round to the first
/// layout after the last one, and to the first layout when none is named so.
pub open spec fn next_index(ls: Seq<KeyTransformLayout>, name: Seq<char>) -> int {
    let i = layout_index(ls, name);
    if i >= 0 && i + 1 < ls.len() {
        i + 1
    } else {
        0
    }
}

/// The first layout named `name` is at `i` when the layouts before it have other names; none is
/// when no layout has that name.
proof fn lemma_layout_index(ls: Seq<KeyTransformLayout>, name: Seq<char>, i: int)
    requires
        0 <= i <= ls.len(),
        forall|j: int| 0 <= j < i ==> (#[trigger] ls[j]).name@ != name,
    ensures
        i < ls.len() && ls[i].name@ == name ==> layout_index(ls, name) == i,
        i == ls.len() ==> layout_index(ls, name) == -1,
        -1 <= layout_index(ls, name) < ls.len(),
    decreases ls.len(),
{
    if ls.len() > 0 && i > 0 {
        let rest = ls.skip(1);
        assert forall|j: int| 0 <= j < i - 1 implies (#[trigger] rest[j]).name@ != name by {
            assert(rest[j] == ls[j + 1]);
        }
        lemma_layout_index(rest, name, i - 1);
    } else if ls.len() > 0 {
        lemma_layout_index(ls.skip(1), name, 0);
    }
}

/// Whether title `a` comes before title `b`, as `str::cmp` orders texts: character by
/// character by code point, a text before the longer texts that it starts.
pub open spec fn title_lt(a: Seq<char>, b: Seq<char>) -> bool
    decreases a.len(),
{
    if b.len() == 0 {
        false
    } else if a.len() == 0 {
        true
    } else if a[0] != b[0] {
        (a[0] as u32) < (b[0] as u32)
    } else {
        title_lt(a.drop_first(), b.drop_first())
    }
}

/// The order of titles is transitive.
pub proof fn lemma_title_lt_transitive(a: Seq<char>, b: Seq<char>, c: Seq<char>)
    requires
        title_lt(a, b),
        title_lt(b, c),
    ensures
        title_lt(a, c),
    decreases a.len(),
{
    if a.len() > 0 && b.len() > 0 && c.len() > 0 && a[0] == b[0] && b[0] == c[0] {
        lemma_title_lt_transitive(a.drop_first(), b.drop_first(), c.drop_first());
    }
}

/// No title comes before itself.
pub proof fn lemma_title_lt_irreflexive(a: Seq<char>)
    ensures
        !title_lt(a, a),
    decreases a.len(),
{
    if a.len() > 0 {
        lemma_title_lt_irreflexive(a.drop_first());
    }
}

/// Titles are ordered by their first differing character, by code point, whatever follows
/// it; and a title comes before the longer titles that it starts.
pub proof fn law_title_order(p: Seq<char>, c: char, d: char, x: Seq<char>, y: Seq<char>)
    ensures
        c != d ==> (title_lt(p + seq![c] + x, p + seq![d] + y) <==> (c as u32) < (d as u32)),
        x.len() > 0 ==> title_lt(p, p + x) && !title_lt(p + x, p),
    decreases p.len(),
{
    let a = p + seq![c] + x;
    let b = p + seq![d] + y;
    if p.len() == 0 {
        assert(a[0] == c);
        assert(b[0] == d);
        assert(p + x =~= x);
        assert(p =~= Seq::<char>::empty());
    } else {
        law_title_order(p.drop_first(), c, d, x, y);
        assert(a.drop_first() =~= p.drop_first() + seq![c] + x);
        assert(b.drop_first() =~= p.drop_first() + seq![d] + y);
        assert(a[0] == p[0] && b[0] == p[0]);
        assert((p + x).drop_first() =~= p.drop_first() + x);
        assert((p + x)[0] == p[0]);
    }
}

/// Of two different titles, exactly one comes before the other.
pub proof fn law_title_total(a: Seq<char>, b: Seq<char>)
    ensures
        a != b ==> title_lt(a, b) || title_lt(b, a),
        !(title_lt(a, b) && title_lt(b, a)),
    decreases a.len(),
{
    if a.len() > 0 && b.len() > 0 && a[0] == b[0] {
        law_title_total(a.drop_first(), b.drop_first());
        if a != b {
            assert(a.drop_first() != b.drop_first()) by {
                if a.drop_first() == b.drop_first() {
                    assert(a =~= seq![a[0]] + a.drop_first());
                    assert(b =~= seq![b[0]] + b.drop_first());
                }
            }
        }
    } else if a.len() == 0 && b.len() == 0 {
        assert(a =~= b);
    } else if a.len() > 0 && b.len() > 0 {
        lemma_char_code(a[0]);
        lemma_char_code(b[0]);
    }
}

/// The code point of a character, as a `u32`, is the character's number.
proof fn lemma_char_code(c: char)
    ensures
        c as u32 == c as int,
{
    assert(0 <= c as int <= 0x10FFFF);
}

/// The position at which a layout goes into layouts sorted by title: before the first layout
/// whose title comes after its own, else at the end.
pub open spec fn insert_index(sorted: Seq<KeyTransformLayout>, x: KeyTransformLayout) -> int
    decreases sorted.len(),
{
    if sorted.len() == 0 {
        0
    } else if title_lt(x.title@, sorted[0].title@) {
        0
    } else {
        1 + insert_index(sorted.skip(1), x)
    }
}

/// The layouts sorted by title, layouts of equal titles in their order: each layout in turn
/// goes after the layouts sorted so far whose titles do not come after its own.
pub open spec fn sort_by_title_spec(s: Seq<KeyTransformLayout>) -> Seq<KeyTransformLayout>
    decreases s.len(),
{
    if s.len() == 0 {
        s
    } else {
        let t = sort_by_title_spec(s.drop_last());
        t.insert(insert_index(t, s.last()), s.last())
    }
}

/// Whether no layout has a title that comes before that of a layout in front of it.
pub open spec fn sorted_by_title(s: Seq<KeyTransformLayout>) -> bool {
    forall|i: int, j: int| 0 <= i < j < s.len() ==> !title_lt(#[trigger] s[j].title@, #[trigger] s[i].title@)
}

proof fn lemma_insert_index(sorted: Seq<KeyTransformLayout>, x: KeyTransformLayout, k: int)
    requires
        0 <= k <= sorted.len(),
        forall|j: int| 0 <= j < k ==> !title_lt(x.title@, #[trigger] sorted[j].title@),
        k == sorted.len() || title_lt(x.title@, sorted[k].title@),
    ensures
        insert_index(sorted, x) == k,
    decreases sorted.len(),
{
    if k > 0 {
        let rest = sorted.skip(1);
        assert forall|j: int| 0 <= j < k - 1 implies !title_lt(x.title@, #[trigger] rest[j].title@) by {
            assert(rest[j] == sorted[j + 1]);
        }
        if k < sorted.len() {
            assert(rest[k - 1] == sorted[k]);
        }
        lemma_insert_index(rest, x, k - 1);
    }
}

proof fn lemma_insert_index_bounds(sorted: Seq<KeyTransformLayout>, x: KeyTransformLayout)
    ensures
        0 <= insert_index(sorted, x) <= sorted.len(),
        forall|j: int| 0 <= j < insert_index(sorted, x) ==> !title_lt(x.title@, #[trigger] sorted[j].title@),
        insert_index(sorted, x) == sorted.len() || title_lt(x.title@, sorted[insert_index(sorted, x)].title@),
    decreases sorted.len(),
{
    if sorted.len() > 0 && !title_lt(x.title@, sorted[0].title@) {
        let rest = sorted.skip(1);
        lemma_insert_index_bounds(rest, x);
        assert forall|j: int| 0 <= j < insert_index(sorted, x) implies !title_lt(x.title@, #[trigger] sorted[j].title@) by {
            if j > 0 {
                assert(sorted[j] == rest[j - 1]);
            }
        }
        if insert_index(sorted, x) < sorted.len() {
            assert(sorted[insert_index(sorted, x)] == rest[insert_index(rest, x)]);
        }
    }
}

/// Sorting layouts by title gives them sorted by title, each of them as many times as before.
pub proof fn law_sort_by_title(s: Seq<KeyTransformLayout>)
    ensures
        sorted_by_title(sort_by_title_spec(s)),
        sort_by_title_spec(s).to_multiset() == s.to_multiset(),
    decreases s.len(),
{
    broadcast use vstd::seq_lib::to_multiset_build, vstd::seq_lib::to_multiset_insert;

    if s.len() > 0 {
        let init = s.drop_last();
        law_sort_by_title(init);
        let t = sort_by_title_spec(init);
        let x = s.last();
        let k = insert_index(t, x);
        lemma_insert_index_bounds(t, x);
        let r = t.insert(k, x);
        assert(r == sort_by_title_spec(s));
        assert(init.push(x) =~= s);
        assert forall|i: int, j: int| 0 <= i < j < r.len() implies !title_lt(#[trigger] r[j].title@, #[trigger] r[i].title@) by {
            if j < k {
                assert(r[i] == t[i] && r[j] == t[j]);
            } else if j == k {
                assert(r[i] == t[i]);
            } else if i == k {
                assert(r[j] == t[j - 1]);
                if title_lt(t[j - 1].title@, x.title@) {
                    lemma_title_lt_transitive(t[j - 1].title@, x.title@, t[k].title@);
                    if j - 1 == k {
                        lemma_title_lt_irreflexive(t[k].title@);
                    } else {
                        assert(!title_lt(t[j - 1].title@, t[k].title@));
                    }
                }
            } else if i < k {
                assert(r[i] == t[i] && r[j] == t[j - 1]);
            } else {
                assert(r[i] == t[i - 1] && r[j] == t[j - 1]);
            }
        }
    }
}

/// Whether title `a` comes before title `b`; see [`title_lt`].
fn title_less(a: &str, b: &str) -> (r: bool)
    ensures
        r == title_lt(a@, b@),
{
    let x = crate::text::chars_of(a);
    let y = crate::text::chars_of(b);
    let mut i: usize = 0;
    assert(x@.skip(0) =~= x@);
    assert(y@.skip(0) =~= y@);
    while i < x.len() && i < y.len() && x[i] == y[i]
        invariant
            i <= x@.len(),
            i <= y@.len(),
            title_lt(a@, b@) == title_lt(x@.skip(i as int), y@.skip(i as int)),
            x@ == a@,
            y@ == b@,
        decreases x.len() - i,
    {
        assert(x@.skip(i as int).drop_first() =~= x@.skip(i + 1));
        assert(y@.skip(i as int).drop_first() =~= y@.skip(i + 1));
        i = i + 1;
    }
    if i == y.len() {
        false
    } else if i == x.len() {
        true
    } else {
        (x[i] as u32) < (y[i] as u32)
    }
}

/// Cycling from a layout whose name no layout before it has gives the layout after it, and
/// the first layout after the last one.
pub proof fn law_cyclic_next(ls: Seq<KeyTransformLayout>, i: int)
    requires
        0 <= i < ls.len(),
        forall|j: int| 0 <= j < i ==> (#[trigger] ls[j]).name@ != ls[i].name@,
    ensures
        next_index(ls, ls[i].name@) == (if i + 1 < ls.len() {
            i + 1
        } else {
            0
        }),
{
    lemma_layout_index(ls, ls[i].name@, i);
}

/// Once the default layout is first, a layout by that name is there, so putting the default
/// layout first a second time changes nothing.
pub proof fn law_default_layout_found(ls: Seq<KeyTransformLayout>, d: KeyTransformLayout)
    requires
        d.name@ == DEFAULT_LAYOUT@,
    ensures
        layout_index(seq![d] + ls, DEFAULT_LAYOUT@) == 0,
{
    assert((seq![d] + ls)[0] == d);
}

/// An ordered list of layouts.
#[derive(Debug, PartialEq)]
pub struct TransformLayouts(pub Vec<KeyTransformLayout>);

impl TransformLayouts {
    /// The first layout named `name`, if there is one; see [`layout_index`].
    pub fn try_get(&self, name: &str) -> (r: Option<&KeyTransformLayout>)
        ensures
            match r {
                Some(l) => layout_index(self.0@, name@) >= 0 && *l == self.0@[layout_index(
                    self.0@,
                    name@,
                )],
                None => layout_index(self.0@, name@) == -1,
            },
    {
        let mut i: usize = 0;
        while i < self.0.len()
            invariant
                i <= self.0@.len(),
                forall|j: int| 0 <= j < i ==> (#[trigger] self.0@[j]).name@ != name@,
            decreases self.0.len() - i,
        {
            if str_eq(self.0[i].name.as_str(), name) {
                proof {
                    lemma_layout_index(self.0@, name@, i as int);
                }
                return Some(&self.0[i]);
            }
            i = i + 1;
        }
        proof {
            lemma_layout_index(self.0@, name@, i as int);
        }
        None
    }

    /// Whether a layout is named `name`.
    pub fn contains(&self, name: &str) -> (r: bool)
        ensures
            r == (layout_index(self.0@, name@) >= 0),
    {
        self.try_get(name).is_some()
    }

    /// The first layout named `name`, which must be there.
    pub fn get(&self, name: &str) -> (r: &KeyTransformLayout)
        requires
            layout_index(self.0@, name@) >= 0,
        ensures
            *r == self.0@[layout_index(self.0@, name@)],
    {
        match self.try_get(name) {
            Some(l) => l,
            None => {
                assert(false);
                &self.0[0]
            },
        }
    }

    /// The layout after the first one named `name`, going round; see [`next_index`]. There
    /// must be a layout.
    pub fn cyclic_next(&self, name: &str) -> (r: &KeyTransformLayout)
        requires
            self.0@.len() > 0,
        ensures
            *r == self.0@[next_index(self.0@, name@)],
    {
        let mut i: usize = 0;
        while i < self.0.len()
            invariant
                i <= self.0@.len(),
                forall|j: int| 0 <= j < i ==> (#[trigger] self.0@[j]).name@ != name@,
            decreases self.0.len() - i,
        {
            if str_eq(self.0[i].name.as_str(), name) {
                proof {
                    lemma_layout_index(self.0@, name@, i as int);
                }
                if i + 1 < self.0.len() {
                    return &self.0[i + 1];
                } else {
                    return &self.0[0];
                }
            }
            i = i + 1;
        }
        proof {
            lemma_layout_index(self.0@, name@, i as int);
        }
        &self.0[0]
    }

    /// Sorts the layouts by title, layouts of equal titles in their order; see
    /// [`sort_by_title_spec`].
    pub fn sort_by_title(&mut self)
        ensures
            final(self).0@ == sort_by_title_spec(old(self).0@),
    {
        let mut items: Vec<KeyTransformLayout> = Vec::new();
        std::mem::swap(&mut items, &mut self.0);
        let ghost all = items@;
        let n = items.len();
        let mut out: Vec<KeyTransformLayout> = Vec::new();
        assert(all.take(0) =~= Seq::<KeyTransformLayout>::empty());
        assert(all.skip(0) =~= all);
        while items.len() > 0
            invariant
                n == all.len(),
                items.len() <= n,
                items@ == all.skip(n - items.len()),
                out@ == sort_by_title_spec(all.take(n - items.len())),
            decreases items.len(),
        {
            let ghost done = n - items.len();
            let x = items.remove(0);
            assert(x == all[done]);
            assert(items@ =~= all.skip(done + 1));
            let mut k: usize = 0;
            while k < out.len() && !title_less(x.title.as_str(), out[k].title.as_str())
                invariant
                    k <= out@.len(),
                    forall|j: int| 0 <= j < k ==> !title_lt(x.title@, #[trigger] out@[j].title@),
                decreases out.len() - k,
            {
                k = k + 1;
            }
            proof {
                lemma_insert_index(out@, x, k as int);
                assert(all.take(done + 1).drop_last() =~= all.take(done));
                assert(all.take(done + 1).last() == x);
            }
            out.insert(k, x);
        }
        assert(all.take(n as int) =~= all);
        self.0 = out;
    }

    /// Puts the layout named `default`, titled `Default`, first, unless a layout has that name.
    pub fn ensure_default(&mut self)
        ensures
            layout_index(old(self).0@, DEFAULT_LAYOUT@) >= 0 ==> final(self).0@ == old(self).0@,
            layout_index(old(self).0@, DEFAULT_LAYOUT@) < 0 ==> {
                &&& final(self).0@.len() == old(self).0@.len() + 1
                &&& final(self).0@.skip(1) == old(self).0@
                &&& final(self).0@[0].name@ == DEFAULT_LAYOUT@
                &&& final(self).0@[0].title@ == "Default"@
                &&& final(self).0@[0].rules is None
                &&& final(self).0@[0].icon is None
                &&& final(self).0@[0].sound is None
                &&& final(self).0@[0].keyboard_lighting is None
            },
    {
        if !self.contains(DEFAULT_LAYOUT) {
            let layout = KeyTransformLayout {
                name: DEFAULT_LAYOUT.to_string(),
                title: "Default".to_string(),
                rules: None,
                icon: None,
                sound: None,
                keyboard_lighting: None,
            };
            self.0.insert(0, layout);
            assert(self.0@.skip(1) =~= old(self).0@);
        }
    }
}

} // verus!
