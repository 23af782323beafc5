//! Character-level text utilities with their mathematical models.
//!
//! Texts are modelled as `Seq<char>`. The executable functions work on
//! `Vec<char>` and `&str` and are proved to agree with the spec functions.
use vstd::prelude::*;

verus! {

/// The characters that `char::is_whitespace` accepts (Unicode `White_Space`).
pub open spec fn is_ws(c: char) -> bool {
    let u = c as u32;
    ||| 0x09 <= u <= 0x0D
    ||| u == 0x20
    ||| u == 0x85
    ||| u == 0xA0
    ||| u == 0x1680
    ||| 0x2000 <= u <= 0x200A
    ||| u == 0x2028
    ||| u == 0x2029
    ||| u == 0x202F
    ||| u == 0x205F
    ||| u == 0x3000
}

/// Drops the leading whitespace.
pub open spec fn trim_start(s: Seq<char>) -> Seq<char>
    decreases s.len(),
{
    if s.len() > 0 && is_ws(s[0]) {
        trim_start(s.drop_first())
    } else {
        s
    }
}

/// Drops the trailing whitespace.
pub open spec fn trim_end(s: Seq<char>) -> Seq<char>
    decreases s.len(),
{
    if s.len() > 0 && is_ws(s.last()) {
        trim_end(s.drop_last())
    } else {
        s
    }
}

/// Drops the leading and the trailing whitespace, as `str::trim` does.
pub open spec fn trim(s: Seq<char>) -> Seq<char> {
    trim_end(trim_start(s))
}

/// A text that `trim` leaves as it is: empty, or without whitespace at its ends.
pub open spec fn is_trimmed(s: Seq<char>) -> bool {
    s.len() == 0 || (!is_ws(s[0]) && !is_ws(s.last()))
}

/// Whether `c` is one of the two separators `a` and `b`.
pub open spec fn is_sep(c: char, a: char, b: char) -> bool {
    c == a || c == b
}

/// Whether no character of `s` is one of the separators `a` and `b`.
pub open spec fn has_no_sep(s: Seq<char>, a: char, b: char) -> bool {
    forall|i: int| 0 <= i < s.len() ==> !is_sep(#[trigger] s[i], a, b)
}

/// Whether `c` occurs in `s`.
pub open spec fn has_char(s: Seq<char>, c: char) -> bool {
    exists|i: int| 0 <= i < s.len() && s[i] == c
}

/// The parts of `s` between the separators `a` and `b`, as `str::split` gives them:
/// never empty, and with an empty part wherever two separators meet.
pub open spec fn split(s: Seq<char>, a: char, b: char) -> Seq<Seq<char>>
    decreases s.len(),
{
    if s.len() == 0 {
        seq![Seq::<char>::empty()]
    } else {
        let rest = split(s.drop_first(), a, b);
        if is_sep(s[0], a, b) {
            seq![Seq::<char>::empty()] + rest
        } else {
            rest.update(0, seq![s[0]] + rest[0])
        }
    }
}

/// The lines of a text, as `str::lines` gives them for a text that ends with no line break:
/// none for the empty text, else the parts between the `'\n'` characters.
pub open spec fn lines(s: Seq<char>) -> Seq<Seq<char>> {
    if s.len() == 0 {
        Seq::empty()
    } else {
        split(s, '\n', '\n')
    }
}

/// The parts joined with the separator `sep` between each two of them.
pub open spec fn join(parts: Seq<Seq<char>>, sep: Seq<char>) -> Seq<char>
    decreases parts.len(),
{
    if parts.len() == 0 {
        Seq::empty()
    } else if parts.len() == 1 {
        parts[0]
    } else {
        parts[0] + sep + join(parts.drop_first(), sep)
    }
}

/// Every part trimmed.
pub open spec fn trim_all(parts: Seq<Seq<char>>) -> Seq<Seq<char>> {
    parts.map_values(|p: Seq<char>| trim(p))
}

// ---------------------------------------------------------------------------
// Lemmas
// ---------------------------------------------------------------------------

pub proof fn lemma_split_not_empty(s: Seq<char>, a: char, b: char)
    ensures
        split(s, a, b).len() >= 1,
    decreases s.len(),
{
    if s.len() > 0 {
        lemma_split_not_empty(s.drop_first(), a, b);
    }
}

/// A text with no separator is a single part.
pub proof fn lemma_split_no_sep(p: Seq<char>, a: char, b: char)
    requires
        has_no_sep(p, a, b),
    ensures
        split(p, a, b) == seq![p],
    decreases p.len(),
{
    if p.len() > 0 {
        let t = p.drop_first();
        assert(has_no_sep(t, a, b)) by {
            assert forall|i: int| 0 <= i < t.len() implies !is_sep(#[trigger] t[i], a, b) by {
                assert(t[i] == p[i + 1]);
            }
        }
        lemma_split_no_sep(t, a, b);
        assert(!is_sep(p[0], a, b));
        assert(seq![p[0]] + t =~= p);
        assert(split(p, a, b) =~= seq![p]);
    } else {
        assert(p =~= Seq::<char>::empty());
    }
}

/// A separator after a part with no separator ends that part.
pub proof fn lemma_split_prefix(p: Seq<char>, c: char, rest: Seq<char>, a: char, b: char)
    requires
        has_no_sep(p, a, b),
        is_sep(c, a, b),
    ensures
        split(p + seq![c] + rest, a, b) == seq![p] + split(rest, a, b),
    decreases p.len(),
{
    let s = p + seq![c] + rest;
    if p.len() == 0 {
        assert(s.drop_first() =~= rest);
        assert(p =~= Seq::<char>::empty());
    } else {
        let t = p.drop_first();
        assert(has_no_sep(t, a, b)) by {
            assert forall|i: int| 0 <= i < t.len() implies !is_sep(#[trigger] t[i], a, b) by {
                assert(t[i] == p[i + 1]);
            }
        }
        lemma_split_prefix(t, c, rest, a, b);
        assert(s.drop_first() =~= t + seq![c] + rest);
        assert(s[0] == p[0]);
        assert(!is_sep(p[0], a, b));
        let r = split(t + seq![c] + rest, a, b);
        assert(r =~= seq![t] + split(rest, a, b));
        assert(seq![p[0]] + t =~= p);
        assert(split(s, a, b) =~= seq![p] + split(rest, a, b));
    }
}

/// Splitting parts joined by a separator character gives the parts back.
pub proof fn lemma_split_join(parts: Seq<Seq<char>>, c: char, a: char, b: char)
    requires
        parts.len() >= 1,
        is_sep(c, a, b),
        forall|i: int| 0 <= i < parts.len() ==> has_no_sep(#[trigger] parts[i], a, b),
    ensures
        split(join(parts, seq![c]), a, b) == parts,
    decreases parts.len(),
{
    if parts.len() == 1 {
        lemma_split_no_sep(parts[0], a, b);
        assert(seq![parts[0]] =~= parts);
    } else {
        let rest = parts.drop_first();
        assert forall|i: int| 0 <= i < rest.len() implies has_no_sep(#[trigger] rest[i], a, b) by {
            assert(rest[i] == parts[i + 1]);
        }
        lemma_split_join(rest, c, a, b);
        assert(has_no_sep(parts[0], a, b));
        lemma_split_prefix(parts[0], c, join(rest, seq![c]), a, b);
        assert(join(parts, seq![c]) == parts[0] + seq![c] + join(rest, seq![c]));
        assert(seq![parts[0]] + rest =~= parts);
    }
}

pub proof fn lemma_trim_start_no_ws(s: Seq<char>)
    requires
        s.len() == 0 || !is_ws(s[0]),
    ensures
        trim_start(s) == s,
{
}

pub proof fn lemma_trim_end_no_ws(s: Seq<char>)
    requires
        s.len() == 0 || !is_ws(s.last()),
    ensures
        trim_end(s) == s,
{
}

/// Trimming a trimmed text changes nothing.
pub proof fn lemma_trim_trimmed(s: Seq<char>)
    requires
        is_trimmed(s),
    ensures
        trim(s) == s,
{
}

/// One space at either end is trimmed away.
pub proof fn lemma_trim_padded(p: Seq<char>, left: bool, right: bool)
    requires
        is_trimmed(p),
    ensures
        trim(
            (if left {
                seq![' ']
            } else {
                Seq::empty()
            }) + p + (if right {
                seq![' ']
            } else {
                Seq::empty()
            }),
        ) == p,
{
    let l: Seq<char> = if left {
        seq![' ']
    } else {
        Seq::empty()
    };
    let r: Seq<char> = if right {
        seq![' ']
    } else {
        Seq::empty()
    };
    let s = l + p + r;
    assert(is_ws(' '));
    let s1 = p + r;
    if left {
        assert(s.drop_first() =~= s1);
        assert(trim_start(s) == trim_start(s1));
    } else {
        assert(s =~= s1);
    }
    if p.len() > 0 {
        assert(s1[0] == p[0]);
        assert(trim_start(s1) == s1);
    } else {
        if right {
            assert(s1 =~= seq![' ']);
            assert(s1[0] == ' ');
            assert(s1.drop_first() =~= Seq::<char>::empty());
            assert(trim_start(Seq::<char>::empty()) == Seq::<char>::empty());
            assert(trim_start(s1) =~= Seq::<char>::empty());
            assert(trim(s) =~= Seq::<char>::empty());
            assert(p =~= Seq::<char>::empty());
            return;
        } else {
            assert(s1 =~= p);
            return;
        }
    }
    if right {
        assert(s1.drop_last() =~= p);
        assert(s1.last() == ' ');
        assert(trim_end(s1) == trim_end(p));
    } else {
        assert(s1 =~= p);
    }
}

/// A leading space is trimmed away.
pub proof fn lemma_trim_leading_space(y: Seq<char>)
    ensures
        trim(seq![' '] + y) == trim(y),
{
    let s = seq![' '] + y;
    assert(is_ws(' '));
    assert(s.drop_first() =~= y);
}

/// Splitting a joined list of trimmed parts on `" c "` and trimming gives the parts back.
pub proof fn lemma_split_join_trim(parts: Seq<Seq<char>>, c: char, a: char, b: char)
    requires
        parts.len() >= 1,
        is_sep(c, a, b),
        !is_sep(' ', a, b),
        forall|i: int|
            0 <= i < parts.len() ==> has_no_sep(#[trigger] parts[i], a, b) && is_trimmed(parts[i]),
    ensures
        split(join(parts, seq![' ', c, ' ']), a, b).len() == parts.len(),
        trim_all(split(join(parts, seq![' ', c, ' ']), a, b)) == parts,
    decreases parts.len(),
{
    let sep3 = seq![' ', c, ' '];
    let j = join(parts, sep3);
    if parts.len() == 1 {
        assert(has_no_sep(parts[0], a, b));
        lemma_split_no_sep(parts[0], a, b);
        lemma_trim_trimmed(parts[0]);
        assert(trim_all(split(j, a, b)) =~= parts);
    } else {
        let rest = parts.drop_first();
        assert forall|i: int| 0 <= i < rest.len() implies has_no_sep(#[trigger] rest[i], a, b)
            && is_trimmed(rest[i]) by {
            assert(rest[i] == parts[i + 1]);
        }
        lemma_split_join_trim(rest, c, a, b);
        let x = join(rest, sep3);
        let p0 = parts[0] + seq![' '];
        assert(has_no_sep(parts[0], a, b));
        assert(has_no_sep(p0, a, b)) by {
            assert forall|k: int| 0 <= k < p0.len() implies !is_sep(#[trigger] p0[k], a, b) by {
                if k < parts[0].len() {
                    assert(p0[k] == parts[0][k]);
                }
            }
        }
        assert(j =~= p0 + seq![c] + (seq![' '] + x));
        lemma_split_prefix(p0, c, seq![' '] + x, a, b);
        let sx = split(x, a, b);
        lemma_split_not_empty(x, a, b);
        let s1 = seq![' '] + x;
        assert(s1.drop_first() =~= x);
        assert(split(s1, a, b) == sx.update(0, seq![' '] + sx[0]));
        let sj = split(j, a, b);
        assert(sj == seq![p0] + sx.update(0, seq![' '] + sx[0]));
        lemma_trim_padded(parts[0], false, true);
        assert(seq![' '] + sx[0] == seq![' '] + sx[0]);
        assert forall|i: int| 0 <= i < parts.len() implies #[trigger] trim_all(sj)[i] == parts[i] by {
            if i == 0 {
                assert(sj[0] == p0);
                assert(Seq::<char>::empty() + parts[0] + seq![' '] =~= p0);
            } else if i == 1 {
                assert(sj[1] == seq![' '] + sx[0]);
                lemma_trim_leading_space(sx[0]);
                assert(trim_all(sx)[0] == rest[0]);
            } else {
                assert(sj[i] == sx[i - 1]);
                assert(trim_all(sx)[i - 1] == rest[i - 1]);
            }
        }
        assert(trim_all(sj) =~= parts);
    }
}

// ---------------------------------------------------------------------------
// Executable functions
// ---------------------------------------------------------------------------

/// Whether `c` is whitespace, as `char::is_whitespace` tells.
pub fn is_whitespace(c: char) -> (r: bool)
    ensures
        r == is_ws(c),
{
    let u = c as u32;
    (0x09 <= u && u <= 0x0D) || u == 0x20 || u == 0x85 || u == 0xA0 || u == 0x1680 || (0x2000 <= u
        && u <= 0x200A) || u == 0x2028 || u == 0x2029 || u == 0x202F || u == 0x205F || u == 0x3000
}

/// The characters of a text.
pub fn chars_of(s: &str) -> (r: Vec<char>)
    ensures
        r@ == s@,
{
    let n = s.unicode_len();
    let mut r: Vec<char> = Vec::new();
    let mut i: usize = 0;
    while i < n
        invariant
            n == s@.len(),
            i <= n,
            r@ == s@.take(i as int),
        decreases n - i,
    {
        r.push(s.get_char(i));
        assert(r@ =~= s@.take(i + 1));
        i = i + 1;
    }
    assert(r@ =~= s@);
    r
}

/// The text of some characters.
pub fn string_of(chars: &Vec<char>) -> (r: String)
    ensures
        r@ == chars@,
{
    let mut r = String::new();
    let mut i: usize = 0;
    while i < chars.len()
        invariant
            i <= chars.len(),
            r@ == chars@.take(i as int),
        decreases chars.len() - i,
    {
        push_char(&mut r, chars[i]);
        assert(r@ =~= chars@.take(i + 1));
        i = i + 1;
    }
    assert(r@ =~= chars@);
    r
}

/// Appends one character to a text; calls `String::push`.
#[verifier::external_body]
pub(crate) fn push_char(s: &mut String, c: char)
    ensures
        final(s)@ == old(s)@.push(c),
{
    s.push(c);
}

/// Appends a text to a text.
pub fn push_str(s: &mut String, t: &str)
    ensures
        final(s)@ == old(s)@ + t@,
{
    s.append(t);
}

/// A part of some characters.
pub fn slice(s: &Vec<char>, from: usize, to: usize) -> (r: Vec<char>)
    requires
        from <= to <= s.len(),
    ensures
        r@ == s@.subrange(from as int, to as int),
{
    let mut r: Vec<char> = Vec::new();
    let mut i = from;
    while i < to
        invariant
            from <= i <= to <= s.len(),
            r@ == s@.subrange(from as int, i as int),
        decreases to - i,
    {
        r.push(s[i]);
        assert(r@ =~= s@.subrange(from as int, i + 1));
        i = i + 1;
    }
    r
}

proof fn lemma_trim_start_skip(s: Seq<char>, i: int)
    requires
        0 <= i <= s.len(),
        forall|j: int| 0 <= j < i ==> is_ws(#[trigger] s[j]),
    ensures
        trim_start(s) == trim_start(s.skip(i)),
    decreases i,
{
    if i > 0 {
        assert(s.drop_first().skip(i - 1) =~= s.skip(i));
        lemma_trim_start_skip(s.drop_first(), i - 1);
    } else {
        assert(s.skip(0) =~= s);
    }
}

proof fn lemma_trim_end_take(s: Seq<char>, i: int)
    requires
        0 <= i <= s.len(),
        forall|j: int| i <= j < s.len() ==> is_ws(#[trigger] s[j]),
    ensures
        trim_end(s) == trim_end(s.take(i)),
    decreases s.len() - i,
{
    if i < s.len() {
        assert(s.drop_last().take(i) =~= s.take(i));
        lemma_trim_end_take(s.drop_last(), i);
    } else {
        assert(s.take(i) =~= s);
    }
}

/// Appending a part appends the separator and the part.
pub proof fn lemma_join_push(parts: Seq<Seq<char>>, p: Seq<char>, sep: Seq<char>)
    requires
        parts.len() >= 1,
    ensures
        join(parts.push(p), sep) == join(parts, sep) + sep + p,
    decreases parts.len(),
{
    let q = parts.push(p);
    if parts.len() == 1 {
        assert(q.drop_first() =~= seq![p]);
        assert(join(q.drop_first(), sep) == p);
    } else {
        lemma_join_push(parts.drop_first(), p, sep);
        assert(q.drop_first() =~= parts.drop_first().push(p));
        assert(join(q, sep) =~= join(parts, sep) + sep + p);
    }
}

/// The joined text starts with the first part and ends with the last one.
pub proof fn lemma_join_ends(parts: Seq<Seq<char>>, sep: Seq<char>)
    requires
        parts.len() >= 1,
        forall|i: int| 0 <= i < parts.len() ==> (#[trigger] parts[i]).len() > 0,
    ensures
        join(parts, sep).len() > 0,
        join(parts, sep)[0] == parts[0][0],
        join(parts, sep).last() == parts.last().last(),
    decreases parts.len(),
{
    if parts.len() > 1 {
        let rest = parts.drop_first();
        assert forall|i: int| 0 <= i < rest.len() implies (#[trigger] rest[i]).len() > 0 by {
            assert(rest[i] == parts[i + 1]);
        }
        lemma_join_ends(rest, sep);
        let j = join(parts, sep);
        assert(j == parts[0] + sep + join(rest, sep));
        assert(j[0] == parts[0][0]);
        assert(rest.last() == parts.last());
    }
}

/// Parts that are not empty and are trimmed join to a trimmed text.
pub proof fn lemma_join_trimmed(parts: Seq<Seq<char>>, sep: Seq<char>)
    requires
        parts.len() >= 1,
        forall|i: int| 0 <= i < parts.len() ==> (#[trigger] parts[i]).len() > 0 && is_trimmed(parts[i]),
    ensures
        is_trimmed(join(parts, sep)),
{
    lemma_join_ends(parts, sep);
    assert(is_trimmed(parts[0]));
    assert(is_trimmed(parts.last()));
}

/// Parts and a separator with none of the characters `a` and `b` join into a text with none.
pub proof fn lemma_join_no_sep(parts: Seq<Seq<char>>, sep: Seq<char>, a: char, b: char)
    requires
        has_no_sep(sep, a, b),
        forall|i: int| 0 <= i < parts.len() ==> has_no_sep(#[trigger] parts[i], a, b),
    ensures
        has_no_sep(join(parts, sep), a, b),
    decreases parts.len(),
{
    if parts.len() > 1 {
        let rest = parts.drop_first();
        assert forall|i: int| 0 <= i < rest.len() implies has_no_sep(#[trigger] rest[i], a, b) by {
            assert(rest[i] == parts[i + 1]);
        }
        lemma_join_no_sep(rest, sep, a, b);
        let j = join(parts, sep);
        let p0 = parts[0];
        let jr = join(rest, sep);
        assert(has_no_sep(p0, a, b));
        assert(j == p0 + sep + jr);
        assert forall|i: int| 0 <= i < j.len() implies !is_sep(#[trigger] j[i], a, b) by {
            if i < p0.len() {
                assert(j[i] == p0[i]);
            } else if i < p0.len() + sep.len() {
                assert(j[i] == sep[i - p0.len()]);
            } else {
                assert(j[i] == jr[i - p0.len() - sep.len()]);
            }
        }
    } else if parts.len() == 1 {
        assert(has_no_sep(parts[0], a, b));
    }
}

/// The texts joined with the separator `sep` between each two of them.
pub fn join_strings(parts: &Vec<String>, sep: &str) -> (r: String)
    ensures
        r@ == join(parts@.map_values(|s: String| s@), sep@),
{
    let ghost views = parts@.map_values(|s: String| s@);
    let mut r = String::new();
    let mut i: usize = 0;
    assert(views.take(0) =~= Seq::<Seq<char>>::empty());
    while i < parts.len()
        invariant
            i <= parts.len(),
            views == parts@.map_values(|s: String| s@),
            r@ == join(views.take(i as int), sep@),
        decreases parts.len() - i,
    {
        if i > 0 {
            push_str(&mut r, sep);
            push_str(&mut r, parts[i].as_str());
            proof {
                assert(views.take(i + 1) =~= views.take(i as int).push(views[i as int]));
                lemma_join_push(views.take(i as int), views[i as int], sep@);
            }
        } else {
            push_str(&mut r, parts[i].as_str());
            assert(views.take(1) =~= seq![views[0]]);
        }
        i = i + 1;
    }
    assert(views.take(parts.len() as int) =~= views);
    r
}

/// The characters with the leading and trailing whitespace dropped.
pub fn trim_chars(s: &Vec<char>) -> (r: Vec<char>)
    ensures
        r@ == trim(s@),
{
    let mut lo: usize = 0;
    while lo < s.len() && is_whitespace(s[lo])
        invariant
            lo <= s.len(),
            forall|j: int| 0 <= j < lo ==> is_ws(#[trigger] s@[j]),
        decreases s.len() - lo,
    {
        lo = lo + 1;
    }
    proof {
        lemma_trim_start_skip(s@, lo as int);
    }
    let mut hi: usize = s.len();
    while hi > lo && is_whitespace(s[hi - 1])
        invariant
            lo <= hi <= s.len(),
            forall|j: int| hi <= j < s.len() ==> is_ws(#[trigger] s@[j]),
        decreases hi - lo,
    {
        hi = hi - 1;
    }
    let ghost t = s@.skip(lo as int);
    proof {
        assert(lo < s.len() ==> !is_ws(t[0]));
        lemma_trim_start_no_ws(t);
        assert forall|j: int| hi - lo <= j < t.len() implies is_ws(#[trigger] t[j]) by {
            assert(t[j] == s@[j + lo]);
        }
        lemma_trim_end_take(t, hi - lo);
        assert(t.take(hi - lo) =~= s@.subrange(lo as int, hi as int));
        let u = t.take(hi - lo);
        if hi > lo {
            assert(u.last() == s@[hi - 1]);
        }
        lemma_trim_end_no_ws(u);
    }
    slice(s, lo, hi)
}

/// Whether the characters are exactly those of the text.
pub fn chars_eq(s: &Vec<char>, t: &str) -> (r: bool)
    ensures
        r == (s@ == t@),
{
    let n = t.unicode_len();
    if n != s.len() {
        return false;
    }
    let mut i: usize = 0;
    while i < n
        invariant
            n == s.len(),
            n == t@.len(),
            i <= n,
            forall|j: int| 0 <= j < i ==> s@[j] == t@[j],
        decreases n - i,
    {
        if s[i] != t.get_char(i) {
            return false;
        }
        i = i + 1;
    }
    assert(s@ =~= t@);
    true
}

/// Whether two texts are the same.
pub fn str_eq(a: &str, b: &str) -> (r: bool)
    ensures
        r == (a@ == b@),
{
    chars_eq(&chars_of(a), b)
}

/// The parts of the characters between the separators `a` and `b`.
pub fn split_chars(s: &Vec<char>, a: char, b: char) -> (r: Vec<Vec<char>>)
    ensures
        r.len() == split(s@, a, b).len(),
        forall|i: int| 0 <= i < r.len() ==> (#[trigger] r[i])@ == split(s@, a, b)[i],
{
    let mut parts: Vec<Vec<char>> = Vec::new();
    let mut start: usize = 0;
    let mut i: usize = 0;
    let ghost mut done: Seq<Seq<char>> = Seq::empty();
    assert(s@.skip(0) =~= s@);
    assert(done + split(s@, a, b) =~= split(s@, a, b));
    while i < s.len()
        invariant
            start <= i <= s.len(),
            has_no_sep(s@.subrange(start as int, i as int), a, b),
            parts.len() == done.len(),
            forall|k: int| 0 <= k < parts.len() ==> (#[trigger] parts[k])@ == done[k],
            split(s@, a, b) == done + split(s@.skip(start as int), a, b),
        decreases s.len() - i,
    {
        if s[i] == a || s[i] == b {
            let p = slice(s, start, i);
            proof {
                let pre = s@.subrange(start as int, i as int);
                let rest = s@.skip(i + 1);
                assert(s@.skip(start as int) =~= pre + seq![s@[i as int]] + rest);
                lemma_split_prefix(pre, s@[i as int], rest, a, b);
                done = done.push(pre);
                assert(split(s@, a, b) =~= done + split(rest, a, b));
            }
            parts.push(p);
            start = i + 1;
            i = i + 1;
            proof {
                assert(s@.subrange(start as int, i as int) =~= Seq::<char>::empty());
            }
        } else {
            i = i + 1;
            proof {
                let q = s@.subrange(start as int, i as int);
                assert forall|j: int| 0 <= j < q.len() implies !is_sep(#[trigger] q[j], a, b) by {
                    if j < q.len() - 1 {
                        assert(q[j] == s@.subrange(start as int, i - 1)[j]);
                    }
                }
            }
        }
    }
    let p = slice(s, start, s.len());
    proof {
        let last = s@.subrange(start as int, s.len() as int);
        assert(s@.skip(start as int) =~= last);
        lemma_split_no_sep(last, a, b);
        done = done.push(last);
    }
    parts.push(p);
    assert(split(s@, a, b) =~= done);
    parts
}

/// The lines of the characters, each of them trimmed, for characters that were trimmed.
pub fn trimmed_lines(s: &Vec<char>) -> (r: Vec<Vec<char>>)
    ensures
        r.len() == lines(s@).len(),
        forall|i: int| 0 <= i < r.len() ==> (#[trigger] r[i])@ == trim(lines(s@)[i]),
{
    if s.len() == 0 {
        return Vec::new();
    }
    let parts = split_chars(s, '\n', '\n');
    let mut r: Vec<Vec<char>> = Vec::new();
    let mut i: usize = 0;
    while i < parts.len()
        invariant
            s@.len() > 0,
            i <= parts.len(),
            parts.len() == lines(s@).len(),
            forall|k: int| 0 <= k < parts.len() ==> (#[trigger] parts[k])@ == lines(s@)[k],
            r.len() == i,
            forall|k: int| 0 <= k < i ==> (#[trigger] r[k])@ == trim(lines(s@)[k]),
        decreases parts.len() - i,
    {
        r.push(trim_chars(&parts[i]));
        i = i + 1;
    }
    r
}

/// Whether the characters end with `c`.
pub fn ends_with(s: &Vec<char>, c: char) -> (r: bool)
    ensures
        r == (s@.len() >= 1 && s@.last() == c),
{
    s.len() >= 1 && s[s.len() - 1] == c
}

/// Whether the characters end with `c` then `d`.
pub fn ends_with2(s: &Vec<char>, c: char, d: char) -> (r: bool)
    ensures
        r == (s@.len() >= 2 && s@[s@.len() - 2] == c && s@.last() == d),
{
    s.len() >= 2 && s[s.len() - 2] == c && s[s.len() - 1] == d
}

} // verus!
