//! The colors of the lighting zones of the keyboard, and their text form `#RRGGBB`.
use vstd::prelude::*;
use crate::text::{chars_of, push_char};

verus! {

/// The colors of the four lighting zones of the keyboard.
#[derive(Copy, Clone, Debug, Default, PartialEq, Eq, Structural)]
pub struct KeyboardZoneColors {
    pub right: u64,
    pub center: u64,
    pub left: u64,
    pub game: u64,
}

/// The colors that the lighting library reads and writes, zone by zone.
#[derive(Copy, Clone, Debug, Default, PartialEq, Eq, Structural)]
pub struct ColorsData {
    pub right: u64,
    pub center: u64,
    pub left: u64,
    pub game: u64,
}

/// The hexadecimal digits, in upper case.
pub open spec fn hex_chars() -> Seq<char> {
    seq!['0', '1', '2', '3', '4', '5', '6', '7', '8', '9', 'A', 'B', 'C', 'D', 'E', 'F']
}

/// The hexadecimal digits of a number, in upper case, without leading zeros.
pub open spec fn hex_digits(v: nat) -> Seq<char>
    decreases v,
{
    if v < 16 {
        seq![hex_chars()[v as int]]
    } else {
        hex_digits(v / 16).push(hex_chars()[(v % 16) as int])
    }
}

/// The hexadecimal digits of a number, at least six of them.
pub open spec fn hex6(v: nat) -> Seq<char> {
    let d = hex_digits(v);
    if d.len() < 6 {
        Seq::new((6 - d.len()) as nat, |i: int| '0') + d
    } else {
        d
    }
}

/// The text of a color: `#` and at least six upper case hexadecimal digits.
pub open spec fn color_text(v: u64) -> Seq<char> {
    seq!['#'] + hex6(v as nat)
}

/// The value of a hexadecimal digit (either case), if the character is one.
pub open spec fn hex_digit_value(c: char) -> Option<nat> {
    if '0' <= c && c <= '9' {
        Some((c as int - '0' as int) as nat)
    } else if 'a' <= c && c <= 'f' {
        Some((c as int - 'a' as int + 10) as nat)
    } else if 'A' <= c && c <= 'F' {
        Some((c as int - 'A' as int + 10) as nat)
    } else {
        None
    }
}

/// Whether every character is a hexadecimal digit.
pub open spec fn all_hex(d: Seq<char>) -> bool {
    forall|i: int| 0 <= i < d.len() ==> (#[trigger] hex_digit_value(d[i])) is Some
}

/// The number that hexadecimal digits write.
pub open spec fn hex_value(d: Seq<char>) -> nat
    decreases d.len(),
{
    if d.len() == 0 {
        0
    } else {
        hex_value(d.drop_last()) * 16 + match hex_digit_value(d.last()) {
            Some(x) => x,
            None => 0,
        }
    }
}

/// A text without the `#` characters it starts with.
pub open spec fn strip_hashes(s: Seq<char>) -> Seq<char>
    decreases s.len(),
{
    if s.len() > 0 && s[0] == '#' {
        strip_hashes(s.drop_first())
    } else {
        s
    }
}

/// The color that a text writes: after the `#` characters it starts with, an optional `+`,
/// then one or more hexadecimal digits (either case) of a number that fits in 64 bits.
pub open spec fn parse_color(s: Seq<char>) -> Option<u64> {
    let t = strip_hashes(s);
    let d = if t.len() > 0 && t[0] == '+' {
        t.drop_first()
    } else {
        t
    };
    if d.len() > 0 && all_hex(d) && hex_value(d) <= u64::MAX {
        Some(hex_value(d) as u64)
    } else {
        None
    }
}

/// A character in lower case, for the letters `A` to `Z`; any other character as it is.
pub open spec fn ascii_lower(c: char) -> char {
    if 'A' <= c && c <= 'Z' {
        ((c as u32) + 32) as char
    } else {
        c
    }
}

/// A text with its letters `A` to `Z` in lower case.
pub open spec fn lower_text(s: Seq<char>) -> Seq<char> {
    s.map_values(|c: char| ascii_lower(c))
}

/// Each hexadecimal digit reads as its position among the digits, in upper case as in lower
/// case, and a letter reads the same in either case.
pub proof fn law_hex_digit_case(c: char)
    ensures
        hex_digit_value(ascii_lower(c)) == hex_digit_value(c),
        forall|i: int|
            0 <= i < 16 ==> hex_digit_value(#[trigger] hex_chars()[i]) == Some(i as nat)
                && hex_digit_value(ascii_lower(hex_chars()[i])) == Some(i as nat),
{
    assert forall|i: int|
        0 <= i < 16 implies hex_digit_value(#[trigger] hex_chars()[i]) == Some(i as nat)
        && hex_digit_value(ascii_lower(hex_chars()[i])) == Some(i as nat) by {
        let h = hex_chars();
        if i == 10 {
            assert(h[i] == 'A');
        } else if i == 11 {
            assert(h[i] == 'B');
        } else if i == 12 {
            assert(h[i] == 'C');
        } else if i == 13 {
            assert(h[i] == 'D');
        } else if i == 14 {
            assert(h[i] == 'E');
        } else if i == 15 {
            assert(h[i] == 'F');
        }
    }
}

proof fn lemma_strip_hashes_lower(s: Seq<char>)
    ensures
        strip_hashes(lower_text(s)) == lower_text(strip_hashes(s)),
    decreases s.len(),
{
    if s.len() > 0 {
        assert(lower_text(s)[0] == ascii_lower(s[0]));
        assert(lower_text(s).drop_first() =~= lower_text(s.drop_first()));
        if s[0] == '#' {
            lemma_strip_hashes_lower(s.drop_first());
        }
    }
}

proof fn lemma_hex_value_lower(d: Seq<char>)
    ensures
        hex_value(lower_text(d)) == hex_value(d),
        all_hex(lower_text(d)) == all_hex(d),
    decreases d.len(),
{
    if d.len() > 0 {
        lemma_hex_value_lower(d.drop_last());
        assert(lower_text(d).drop_last() =~= lower_text(d.drop_last()));
        law_hex_digit_case(d.last());
        assert(lower_text(d).last() == ascii_lower(d.last()));
    }
    assert forall|i: int| 0 <= i < d.len() implies hex_digit_value(#[trigger] lower_text(d)[i])
        == hex_digit_value(d[i]) by {
        law_hex_digit_case(d[i]);
    }
    if all_hex(d) {
        assert forall|i: int| 0 <= i < lower_text(d).len() implies (#[trigger] hex_digit_value(
            lower_text(d)[i],
        )) is Some by {
            assert(hex_digit_value(d[i]) is Some);
        }
    }
    if all_hex(lower_text(d)) {
        assert forall|i: int| 0 <= i < d.len() implies (#[trigger] hex_digit_value(d[i])) is Some by {
            assert(hex_digit_value(lower_text(d)[i]) is Some);
        }
    }
}

/// A color text reads the same with its letters in lower case: hexadecimal digits are read
/// in either case.
pub proof fn law_color_text_case(s: Seq<char>)
    ensures
        parse_color(lower_text(s)) == parse_color(s),
{
    lemma_strip_hashes_lower(s);
    let t = strip_hashes(s);
    let lt = lower_text(t);
    let d = if t.len() > 0 && t[0] == '+' {
        t.drop_first()
    } else {
        t
    };
    if t.len() > 0 {
        assert(lt[0] == ascii_lower(t[0]));
        assert(lt.drop_first() =~= lower_text(t.drop_first()));
    }
    lemma_hex_value_lower(d);
}

/// The texts of the colors of the zones, in the order right, center, left, game.
pub open spec fn zone_texts(c: KeyboardZoneColors) -> Seq<Seq<char>> {
    seq![color_text(c.right), color_text(c.center), color_text(c.left), color_text(c.game)]
}

/// Appends the hexadecimal digits of a number.
pub(crate) fn push_hex(s: &mut String, v: u64)
    ensures
        final(s)@ == old(s)@ + hex_digits(v as nat),
    decreases v,
{
    let digits = "0123456789ABCDEF";
    proof {
        reveal_strlit("0123456789ABCDEF");
        assert(digits@ =~= hex_chars());
    }
    if v >= 16 {
        push_hex(s, v / 16);
    }
    push_char(s, digits.get_char((v % 16) as usize));
    assert(final(s)@ =~= old(s)@ + hex_digits(v as nat)) by {
        if v >= 16 {
            assert(hex_digits(v as nat) == hex_digits((v / 16) as nat).push(
                hex_chars()[(v % 16) as int],
            ));
        }
    }
}

/// The text of a color; see [`color_text`].
fn color_string(v: u64) -> (r: String)
    ensures
        r@ == color_text(v),
{
    let mut digits = String::new();
    push_hex(&mut digits, v);
    let n = digits.unicode_len();
    let mut r = String::new();
    push_char(&mut r, '#');
    let mut k: usize = n;
    while k < 6
        invariant
            n == hex_digits(v as nat).len(),
            n <= k,
            k <= 6 || k == n,
            r@ == seq!['#'] + Seq::new((k - n) as nat, |i: int| '0'),
        decreases 6 - k,
    {
        push_char(&mut r, '0');
        assert(r@ =~= seq!['#'] + Seq::new((k + 1 - n) as nat, |i: int| '0'));
        k = k + 1;
    }
    crate::text::push_str(&mut r, digits.as_str());
    assert(r@ =~= color_text(v));
    r
}

/// The value of a hexadecimal digit; see [`hex_digit_value`].
fn digit_value(c: char) -> (r: Option<u64>)
    ensures
        match hex_digit_value(c) {
            Some(x) => r == Some(x as u64),
            None => r is None,
        },
{
    if '0' <= c && c <= '9' {
        Some((c as u32 - '0' as u32) as u64)
    } else if 'a' <= c && c <= 'f' {
        Some((c as u32 - 'a' as u32 + 10) as u64)
    } else if 'A' <= c && c <= 'F' {
        Some((c as u32 - 'A' as u32 + 10) as u64)
    } else {
        None
    }
}

/// The number of the first digits is at most that of all of them.
proof fn lemma_hex_value_prefix(d: Seq<char>, i: int)
    requires
        0 <= i <= d.len(),
    ensures
        hex_value(d.take(i)) <= hex_value(d),
    decreases d.len(),
{
    if i < d.len() {
        assert(d.drop_last().take(i) =~= d.take(i));
        lemma_hex_value_prefix(d.drop_last(), i);
    } else {
        assert(d.take(i) =~= d);
    }
}

/// Reads a color from a text; see [`parse_color`].
pub fn parse_color_text(s: &str) -> (r: Option<u64>)
    ensures
        r == parse_color(s@),
{
    let c = chars_of(s);
    let n = c.len();
    let mut i: usize = 0;
    assert(c@.skip(0) =~= c@);
    while i < n && c[i] == '#'
        invariant
            i <= n,
            n == c@.len(),
            strip_hashes(c@.skip(i as int)) == strip_hashes(c@),
        decreases n - i,
    {
        assert(c@.skip(i as int).drop_first() =~= c@.skip(i + 1));
        i = i + 1;
    }
    assert(strip_hashes(c@.skip(i as int)) == c@.skip(i as int));
    let ghost t = c@.skip(i as int);
    if i < n && c[i] == '+' {
        i = i + 1;
    }
    let ghost d = c@.skip(i as int);
    assert(d == (if t.len() > 0 && t[0] == '+' {
        t.drop_first()
    } else {
        t
    }));
    if i == n {
        return None;
    }
    let start = i;
    let mut value: u64 = 0;
    while i < n
        invariant
            start <= i <= n,
            n == c@.len(),
            c@ == s@,
            t == strip_hashes(s@),
            d == (if t.len() > 0 && t[0] == '+' {
                t.drop_first()
            } else {
                t
            }),
            d == c@.skip(start as int),
            all_hex(d.take(i - start)),
            value == hex_value(d.take(i - start)),
        decreases n - i,
    {
        let ghost k = i - start;
        assert(d.take(k + 1).drop_last() =~= d.take(k));
        assert(d.take(k + 1).last() == c@[i as int]);
        assert(d[k] == c@[i as int]);
        match digit_value(c[i]) {
            None => {
                assert(!all_hex(d)) by {
                    assert(hex_digit_value(d[k]) is None);
                }
                return None;
            },
            Some(x) => {
                match value.checked_mul(16) {
                    None => {
                        proof {
                            lemma_hex_value_prefix(d, k + 1);
                        }
                        return None;
                    },
                    Some(m) => match m.checked_add(x) {
                        None => {
                            proof {
                                lemma_hex_value_prefix(d, k + 1);
                            }
                            return None;
                        },
                        Some(v) => {
                            value = v;
                        },
                    },
                }
            },
        }
        assert(all_hex(d.take(k + 1))) by {
            assert forall|j: int| 0 <= j < k + 1 implies (#[trigger] hex_digit_value(
                d.take(k + 1)[j],
            )) is Some by {
                if j < k {
                    assert(d.take(k + 1)[j] == d.take(k)[j]);
                }
            }
        }
        i = i + 1;
    }
    assert(d.take(n - start) =~= d);
    Some(value)
}

proof fn lemma_hex_char_value(d: int)
    requires
        0 <= d < 16,
    ensures
        hex_digit_value(hex_chars()[d]) == Some(d as nat),
        hex_chars()[d] != '+',
        hex_chars()[d] != '#',
{
    if d == 0 {
        assert(hex_chars()[0] == '0');
    }
    if d == 1 {
        assert(hex_chars()[1] == '1');
    }
    if d == 2 {
        assert(hex_chars()[2] == '2');
    }
    if d == 3 {
        assert(hex_chars()[3] == '3');
    }
    if d == 4 {
        assert(hex_chars()[4] == '4');
    }
    if d == 5 {
        assert(hex_chars()[5] == '5');
    }
    if d == 6 {
        assert(hex_chars()[6] == '6');
    }
    if d == 7 {
        assert(hex_chars()[7] == '7');
    }
    if d == 8 {
        assert(hex_chars()[8] == '8');
    }
    if d == 9 {
        assert(hex_chars()[9] == '9');
    }
    if d == 10 {
        assert(hex_chars()[10] == 'A');
    }
    if d == 11 {
        assert(hex_chars()[11] == 'B');
    }
    if d == 12 {
        assert(hex_chars()[12] == 'C');
    }
    if d == 13 {
        assert(hex_chars()[13] == 'D');
    }
    if d == 14 {
        assert(hex_chars()[14] == 'E');
    }
    if d == 15 {
        assert(hex_chars()[15] == 'F');
    }
}

proof fn lemma_hex_value_push(d: Seq<char>, c: char)
    ensures
        hex_value(d.push(c)) == hex_value(d) * 16 + match hex_digit_value(c) {
            Some(x) => x,
            None => 0,
        },
{
    assert(d.push(c).drop_last() =~= d);
}

proof fn lemma_hex_digits(v: nat)
    ensures
        hex_digits(v).len() >= 1,
        all_hex(hex_digits(v)),
        hex_value(hex_digits(v)) == v,
        hex_digits(v)[0] != '+',
        hex_digits(v)[0] != '#',
    decreases v,
{
    if v < 16 {
        lemma_hex_char_value(v as int);
        lemma_hex_value_push(Seq::empty(), hex_chars()[v as int]);
        assert(seq![hex_chars()[v as int]] =~= Seq::<char>::empty().push(hex_chars()[v as int]));
    } else {
        lemma_hex_digits(v / 16);
        lemma_hex_char_value((v % 16) as int);
        lemma_hex_value_push(hex_digits(v / 16), hex_chars()[(v % 16) as int]);
        let d = hex_digits(v);
        assert forall|i: int| 0 <= i < d.len() implies (#[trigger] hex_digit_value(d[i])) is Some by {
            if i < d.len() - 1 {
                assert(d[i] == hex_digits(v / 16)[i]);
            }
        }
    }
}

proof fn lemma_zeros_value(z: Seq<char>)
    requires
        forall|i: int| 0 <= i < z.len() ==> z[i] == '0',
    ensures
        hex_value(z) == 0,
    decreases z.len(),
{
    if z.len() > 0 {
        lemma_zeros_value(z.drop_last());
    }
}

proof fn lemma_leading_zeros(z: Seq<char>, d: Seq<char>)
    requires
        forall|i: int| 0 <= i < z.len() ==> z[i] == '0',
    ensures
        hex_value(z + d) == hex_value(d),
    decreases d.len(),
{
    if d.len() == 0 {
        assert(z + d =~= z);
        lemma_zeros_value(z);
    } else {
        assert((z + d).drop_last() =~= z + d.drop_last());
        assert((z + d).last() == d.last());
        lemma_leading_zeros(z, d.drop_last());
    }
}

/// Reading back the text of a color gives the color.
pub proof fn law_color_text_round_trip(v: u64)
    ensures
        parse_color(color_text(v)) == Some(v),
{
    let d = hex_digits(v as nat);
    lemma_hex_digits(v as nat);
    let h = hex6(v as nat);
    if d.len() < 6 {
        let z = Seq::new((6 - d.len()) as nat, |i: int| '0');
        lemma_leading_zeros(z, d);
        assert(h[0] == '0');
        assert forall|i: int| 0 <= i < h.len() implies (#[trigger] hex_digit_value(h[i])) is Some by {
            if i >= z.len() {
                assert(h[i] == d[i - z.len()]);
            }
        }
    }
    let s = color_text(v);
    assert(s.drop_first() =~= h);
    assert(strip_hashes(h) == h);
    assert(strip_hashes(s) == h);
}

/// The colors that the first four of some texts write, in the order right, center, left,
/// game, for texts that each write a color; see [`parse_color`].
pub open spec fn zone_colors(texts: Seq<Seq<char>>) -> KeyboardZoneColors {
    KeyboardZoneColors {
        right: parse_color(texts[0])->0,
        center: parse_color(texts[1])->0,
        left: parse_color(texts[2])->0,
        game: parse_color(texts[3])->0,
    }
}

/// Reading back the texts of the colors of the zones gives the colors: each text writes a
/// color, and the colors they write are those of the zones.
pub proof fn law_zone_texts_round_trip(c: KeyboardZoneColors)
    ensures
        parse_color(zone_texts(c)[0]) == Some(c.right),
        parse_color(zone_texts(c)[1]) == Some(c.center),
        parse_color(zone_texts(c)[2]) == Some(c.left),
        parse_color(zone_texts(c)[3]) == Some(c.game),
        zone_colors(zone_texts(c)) == c,
{
    law_color_text_round_trip(c.right);
    law_color_text_round_trip(c.center);
    law_color_text_round_trip(c.left);
    law_color_text_round_trip(c.game);
}

/// The texts that [`KeyboardZoneColors::to_strings`] gives for some colors are texts that
/// [`KeyboardZoneColors::from_strings`] accepts (four texts, each writing a color), and the
/// colors it reads from them are those colors.
pub proof fn law_zone_colors_round_trip(c: KeyboardZoneColors, texts: Seq<String>)
    requires
        texts.map_values(|s: String| s@) == zone_texts(c),
    ensures
        texts.len() >= 4,
        forall|i: int| 0 <= i < 4 ==> (#[trigger] parse_color(texts[i]@)) is Some,
        zone_colors(texts.map_values(|s: String| s@)) == c,
{
    law_zone_texts_round_trip(c);
    let ts = texts.map_values(|s: String| s@);
    assert(ts.len() == 4);
    assert forall|i: int| 0 <= i < 4 implies (#[trigger] parse_color(texts[i]@)) is Some by {
        assert(ts[i] == texts[i]@);
    }
}

impl KeyboardZoneColors {
    /// The texts of the colors, in the order right, center, left, game; see [`color_text`].
    pub fn to_strings(&self) -> (r: Vec<String>)
        ensures
            r@.map_values(|s: String| s@) == zone_texts(*self),
    {
        let mut r: Vec<String> = Vec::new();
        r.push(color_string(self.right));
        r.push(color_string(self.center));
        r.push(color_string(self.left));
        r.push(color_string(self.game));
        assert(r@.map_values(|s: String| s@) =~= zone_texts(*self));
        r
    }

    /// The colors that four texts write, in the order right, center, left, game; see
    /// [`parse_color`].
    pub fn from_strings(value: &Vec<String>) -> (r: Self)
        requires
            value@.len() >= 4,
            forall|i: int| 0 <= i < 4 ==> (#[trigger] parse_color(value@[i]@)) is Some,
        ensures
            Some(r.right) == parse_color(value@[0]@),
            Some(r.center) == parse_color(value@[1]@),
            Some(r.left) == parse_color(value@[2]@),
            Some(r.game) == parse_color(value@[3]@),
            r == zone_colors(value@.map_values(|s: String| s@)),
    {
        assert(parse_color(value@[0]@) is Some);
        assert(parse_color(value@[1]@) is Some);
        assert(parse_color(value@[2]@) is Some);
        assert(parse_color(value@[3]@) is Some);
        KeyboardZoneColors {
            right: parse_color_text(value[0].as_str()).unwrap(),
            center: parse_color_text(value[1].as_str()).unwrap(),
            left: parse_color_text(value[2].as_str()).unwrap(),
            game: parse_color_text(value[3].as_str()).unwrap(),
        }
    }
}

} // verus!
