//! What the log of keystrokes shows: a row of texts for each keystroke, its color, and the
//! last lines of a text log.
use vstd::prelude::*;
use crate::keyboard::key::{is_known_key, key_name};
use crate::keyboard::key_event::KeyEvent;
use crate::keyboard::key_action::KeyAction;
use crate::keyboard::key_modifiers::{trigger_modifiers_text, TriggerModifiers};
use crate::keyboard::key_trigger::{trigger_text, KeyTrigger};
use crate::keyboard::transform_rules::{rule_known, rule_text, KeyTransformRule};
use crate::key_transition::transition_text;
use crate::text::{push_char, push_str, split, split_chars};
use crate::ui::kb_light::{hex_digits, push_hex};

verus! {

/// The number of lines that a text log keeps.
pub const MAX_LOG_LINES: usize = 256;

/// The number of rows that the log of keystrokes keeps.
pub const MAX_LOG_ITEMS: usize = 256;

/// The decimal digits of a number, without leading zeros.
pub open spec fn dec_digits(v: nat) -> Seq<char>
    decreases v,
{
    let d = seq!['0', '1', '2', '3', '4', '5', '6', '7', '8', '9'];
    if v < 10 {
        seq![d[v as int]]
    } else {
        dec_digits(v / 10).push(d[(v % 10) as int])
    }
}

/// `0x`, then the upper case hexadecimal digits of a number, at least `width` of them.
pub open spec fn hex_text(v: nat, width: nat) -> Seq<char> {
    let d = hex_digits(v);
    seq!['0', 'x'] + if d.len() < width {
        Seq::new((width - d.len()) as nat, |i: int| '0') + d
    } else {
        d
    }
}

/// The trigger of a keystroke: its action with exactly the modifiers held.
pub open spec fn event_trigger(event: KeyEvent) -> KeyTrigger {
    KeyTrigger { action: event.action, modifiers: TriggerModifiers::All(event.modifiers_state) }
}

/// The scan code of a key with the extended prefix `0xE0` in its high byte when it is extended.
pub open spec fn scan_code_ext(event: KeyEvent) -> nat {
    if event.action.key.is_ext_scan_code {
        (0xE000 + event.action.key.scan_code) as nat
    } else {
        event.action.key.scan_code as nat
    }
}

/// The row that the log shows for a keystroke and the rule applied to it, if any: the trigger,
/// the rule, the modifiers, the key, the transition, the virtual key code, the scan code, the
/// time, and the flags `R` (a rule applied), `I` (injected) and `P` (sent by this library),
/// each `-` when it does not hold.
pub open spec fn log_row(event: KeyEvent, rule: Option<(KeyTrigger, Seq<KeyAction>)>) -> Seq<
    Seq<char>,
> {
    seq![
        trigger_text(event_trigger(event)),
        match rule {
            Some(r) => rule_text(r),
            None => Seq::empty(),
        },
        trigger_modifiers_text(TriggerModifiers::All(event.modifiers_state)),
        key_name(event.action.key),
        transition_text(event.action.transition),
        hex_text(event.action.key.vk_code as nat, 2),
        hex_text(scan_code_ext(event), 4),
        dec_digits(event.time as nat),
        seq![
            if rule is Some {
                'R'
            } else {
                '-'
            },
            if event.is_injected {
                'I'
            } else {
                '-'
            },
            if event.is_private {
                'P'
            } else {
                '-'
            },
        ],
    ]
}

/// The color (blue, green, red) of the row of a keystroke: grey when a rule applied, blue when
/// this library sent it, purple when another program injected it, none otherwise.
pub open spec fn log_color(event: KeyEvent, has_rule: bool) -> Option<u32> {
    if has_rule {
        Some(0xAAAAAA)
    } else if event.is_private {
        Some(0xCC0000)
    } else if event.is_injected {
        Some(0xCC00AA)
    } else {
        None
    }
}

/// Appends the decimal digits of a number.
fn push_dec(s: &mut String, v: u32)
    ensures
        final(s)@ == old(s)@ + dec_digits(v as nat),
    decreases v,
{
    let digits = "0123456789";
    proof {
        reveal_strlit("0123456789");
        assert(digits@ =~= seq!['0', '1', '2', '3', '4', '5', '6', '7', '8', '9']);
    }
    if v >= 10 {
        push_dec(s, v / 10);
    }
    push_char(s, digits.get_char((v % 10) as usize));
    assert(final(s)@ =~= old(s)@ + dec_digits(v as nat)) by {
        if v >= 10 {
            assert(dec_digits(v as nat) == dec_digits((v / 10) as nat).push(
                seq!['0', '1', '2', '3', '4', '5', '6', '7', '8', '9'][(v % 10) as int],
            ));
        }
    }
}

/// The text of a number in hexadecimal; see [`hex_text`].
fn hex_string(v: u64, width: usize) -> (r: String)
    requires
        width <= 16,
    ensures
        r@ == hex_text(v as nat, width as nat),
{
    let mut digits = String::new();
    push_hex(&mut digits, v);
    let n = digits.unicode_len();
    let mut r = String::new();
    push_char(&mut r, '0');
    push_char(&mut r, 'x');
    let mut k: usize = n;
    while k < width
        invariant
            n == hex_digits(v as nat).len(),
            n <= k,
            k <= width || k == n,
            r@ == seq!['0', 'x'] + Seq::new((k - n) as nat, |i: int| '0'),
        decreases width - k,
    {
        push_char(&mut r, '0');
        assert(r@ =~= seq!['0', 'x'] + Seq::new((k + 1 - n) as nat, |i: int| '0'));
        k = k + 1;
    }
    push_str(&mut r, digits.as_str());
    assert(r@ =~= hex_text(v as nat, width as nat));
    r
}

/// The row that the log shows for a keystroke; see [`log_row`].
pub fn log_row_texts(event: &KeyEvent, rule: Option<&KeyTransformRule>) -> (r: Vec<String>)
    requires
        is_known_key(event.action.key),
        rule matches Some(x) ==> rule_known(x@),
    ensures
        r@.map_values(|s: String| s@) == log_row(
            *event,
            match rule {
                Some(x) => Some(x@),
                None => None,
            },
        ),
{
    let trigger = KeyTrigger {
        action: event.action,
        modifiers: TriggerModifiers::All(event.modifiers_state),
    };
    let key = event.action.key;
    let sc_ext: u64 = if key.is_ext_scan_code {
        0xE000 + key.scan_code as u64
    } else {
        key.scan_code as u64
    };
    let mut flags = String::new();
    push_char(&mut flags, if rule.is_some() { 'R' } else { '-' });
    push_char(&mut flags, if event.is_injected { 'I' } else { '-' });
    push_char(&mut flags, if event.is_private { 'P' } else { '-' });
    let mut time = String::new();
    push_dec(&mut time, event.time);
    let mut r: Vec<String> = Vec::new();
    r.push(trigger.to_string());
    r.push(
        match rule {
            Some(x) => x.to_string(),
            None => String::new(),
        },
    );
    r.push(trigger.modifiers.to_string());
    let mut name = String::new();
    push_str(&mut name, key.name());
    r.push(name);
    r.push(event.action.transition.to_string());
    r.push(hex_string(key.vk_code as u64, 2));
    r.push(hex_string(sc_ext, 4));
    r.push(time);
    r.push(flags);
    let ghost row = log_row(
        *event,
        match rule {
            Some(x) => Some(x@),
            None => None,
        },
    );
    assert(r@.len() == 9);
    assert(r@[0]@ == row[0]);
    assert(r@[1]@ == row[1]);
    assert(r@[2]@ == row[2]);
    assert(r@[3]@ == row[3]);
    assert(r@[4]@ == row[4]);
    assert(r@[5]@ == row[5]);
    assert(sc_ext as nat == scan_code_ext(*event));
    assert(r@[6]@ == row[6]);
    assert(r@[7]@ == row[7]);
    assert(r@[8]@ =~= row[8]);
    assert(r@.map_values(|s: String| s@) =~= log_row(
        *event,
        match rule {
            Some(x) => Some(x@),
            None => None,
        },
    ));
    r
}

/// The color of the row of a keystroke; see [`log_color`].
pub fn log_row_color(event: &KeyEvent, has_rule: bool) -> (r: Option<u32>)
    ensures
        r == log_color(*event, has_rule),
{
    if has_rule {
        Some(0xAAAAAA)
    } else if event.is_private {
        Some(0xCC0000)
    } else if event.is_injected {
        Some(0xCC00AA)
    } else {
        None
    }
}

/// The rows of the log after a row is added: the oldest rows are dropped until at most
/// [`MAX_LOG_ITEMS`] are left, then the row goes at the end.
pub open spec fn rows_after_append<T>(rows: Seq<T>, row: T) -> Seq<T> {
    let drop = if rows.len() > MAX_LOG_ITEMS {
        rows.len() - MAX_LOG_ITEMS
    } else {
        0
    };
    rows.skip(drop).push(row)
}

/// Adds a row to the log of keystrokes; see [`rows_after_append`].
pub fn append_log_row<T>(rows: &mut Vec<T>, row: T)
    ensures
        final(rows)@ == rows_after_append(old(rows)@, row),
{
    let ghost start = rows@;
    let ghost drop: int = if start.len() > MAX_LOG_ITEMS {
        start.len() - MAX_LOG_ITEMS
    } else {
        0
    };
    let count = rows.len();
    let mut removed: usize = 0;
    while rows.len() > MAX_LOG_ITEMS
        invariant
            0 <= removed <= drop,
            drop == (if start.len() > MAX_LOG_ITEMS {
                start.len() - MAX_LOG_ITEMS
            } else {
                0
            }),
            drop <= start.len() == count,
            rows@ == start.skip(removed as int),
        decreases rows.len(),
    {
        assert(rows@.len() == start.len() - removed);
        rows.remove(0);
        assert(start.skip(removed as int).skip(1) =~= start.skip(removed + 1));
        removed = removed + 1;
    }
    rows.push(row);
}

/// A line without the `\r` at its end, if it has one.
pub open spec fn strip_cr(line: Seq<char>) -> Seq<char> {
    if line.len() > 0 && line.last() == '\r' {
        line.drop_last()
    } else {
        line
    }
}

/// The lines of a text, as `str::lines` gives them: the parts between the `\n` characters,
/// without a `\r` just before a `\n`, and without an empty last part after a final `\n`.
pub open spec fn text_lines(s: Seq<char>) -> Seq<Seq<char>> {
    let parts = split(s, '\n', '\n');
    if s.len() == 0 {
        Seq::empty()
    } else if s.last() == '\n' {
        parts.drop_last().map_values(|p: Seq<char>| strip_cr(p))
    } else {
        parts.drop_last().map_values(|p: Seq<char>| strip_cr(p)).push(parts.last())
    }
}

/// The lines, each followed by `\r\n`.
pub open spec fn crlf_lines(ls: Seq<Seq<char>>) -> Seq<char>
    decreases ls.len(),
{
    if ls.len() == 0 {
        Seq::empty()
    } else {
        crlf_lines(ls.drop_last()) + ls.last() + seq!['\r', '\n']
    }
}

/// The last `max` lines of a text (all of them when there are fewer), each followed by `\r\n`.
pub open spec fn log_tail(s: Seq<char>, max: nat) -> Seq<char> {
    let ls = text_lines(s);
    crlf_lines(ls.skip(if ls.len() > max { ls.len() - max } else { 0 }))
}

/// The last [`MAX_LOG_LINES`] lines of a text log, each followed by `\r\n`; see [`log_tail`].
pub fn trim_log_text(text: &str) -> (r: String)
    ensures
        r@ == log_tail(text@, MAX_LOG_LINES as nat),
{
    let chars = crate::text::chars_of(text);
    let parts = split_chars(&chars, '\n', '\n');
    proof {
        crate::text::lemma_split_not_empty(chars@, '\n', '\n');
    }
    let ghost ps = parts@.map_values(|p: Vec<char>| p@);
    let ghost ls = text_lines(text@);
    let n = chars.len();
    let count: usize = if n == 0 {
        0
    } else if chars[n - 1] == '\n' {
        parts.len() - 1
    } else {
        parts.len()
    };
    assert(count == ls.len());
    let skip: usize = if count > MAX_LOG_LINES {
        count - MAX_LOG_LINES
    } else {
        0
    };
    let mut r = String::new();
    let mut i: usize = skip;
    assert(ls.skip(skip as int).take(0) =~= Seq::<Seq<char>>::empty());
    while i < count
        invariant
            skip <= i <= count,
            count == ls.len(),
            ls == text_lines(text@),
            ps == parts@.map_values(|p: Vec<char>| p@),
            ps == split(chars@, '\n', '\n'),
            chars@ == text@,
            n == chars@.len(),
            n > 0 ==> ps.len() >= 1,
            count <= parts@.len(),
            r@ == crlf_lines(ls.skip(skip as int).take(i - skip)),
        decreases count - i,
    {
        let part = &parts[i];
        let m = part.len();
        let is_last_unterminated = i + 1 == parts.len();
        let line_len: usize = if !is_last_unterminated && m > 0 && part[m - 1] == '\r' {
            m - 1
        } else {
            m
        };
        let ghost before = r@;
        let mut k: usize = 0;
        while k < line_len
            invariant
                k <= line_len <= m,
                m == part@.len(),
                r@ == before + part@.take(k as int),
            decreases line_len - k,
        {
            push_char(&mut r, part[k]);
            assert(part@.take(k + 1) =~= part@.take(k as int).push(part@[k as int]));
            k = k + 1;
        }
        push_char(&mut r, '\r');
        push_char(&mut r, '\n');
        proof {
            assert(ps[i as int] == part@);
            let line = part@.take(line_len as int);
            if is_last_unterminated {
                assert(ls[i as int] == ps.last());
                assert(line =~= part@);
            } else {
                assert(ls[i as int] == strip_cr(ps[i as int]));
                assert(line =~= strip_cr(part@));
            }
            let tail = ls.skip(skip as int);
            assert(tail.take(i + 1 - skip).drop_last() =~= tail.take(i - skip));
            assert(tail.take(i + 1 - skip).last() == ls[i as int]);
            assert(r@ =~= before + line + seq!['\r', '\n']);
        }
        i = i + 1;
    }
    assert(ls.skip(skip as int).take(count - skip) =~= ls.skip(skip as int));
    r
}

} // verus!
