//! Small helpers: line endings for the system's text controls, and a shared flag.
use vstd::prelude::*;
use std::sync::atomic::AtomicBool;
use crate::text::push_char;

verus! {

/// A text with each line break (`\r\n`, a lone `\r` or a lone `\n`) written as `\r\n`.
pub open spec fn dos_text(s: Seq<char>) -> Seq<char>
    decreases s.len(),
{
    if s.len() == 0 {
        Seq::empty()
    } else if s[0] == '\r' && s.len() >= 2 && s[1] == '\n' {
        seq!['\r', '\n'] + dos_text(s.skip(2))
    } else if s[0] == '\r' || s[0] == '\n' {
        seq!['\r', '\n'] + dos_text(s.skip(1))
    } else {
        seq![s[0]] + dos_text(s.skip(1))
    }
}

/// Writes each line break of a text (`\r\n`, a lone `\r` or a lone `\n`) as `\r\n`.
pub fn dos_line_endings(unix_text: &str) -> (r: String)
    ensures
        r@ == dos_text(unix_text@),
{
    let s = crate::text::chars_of(unix_text);
    let n = s.len();
    let mut r = String::new();
    let mut i: usize = 0;
    assert(s@.skip(0) =~= s@);
    while i < n
        invariant
            n == s@.len(),
            s@ == unix_text@,
            i <= n,
            r@ + dos_text(s@.skip(i as int)) == dos_text(s@),
        decreases n - i,
    {
        let ghost rest = s@.skip(i as int);
        let ghost before = r@;
        if s[i] == '\r' && i + 1 < n && s[i + 1] == '\n' {
            push_char(&mut r, '\r');
            push_char(&mut r, '\n');
            assert(rest.skip(2) =~= s@.skip(i + 2));
            assert(r@ =~= before + seq!['\r', '\n']);
            i = i + 2;
        } else if s[i] == '\r' || s[i] == '\n' {
            push_char(&mut r, '\r');
            push_char(&mut r, '\n');
            assert(rest.skip(1) =~= s@.skip(i + 1));
            assert(r@ =~= before + seq!['\r', '\n']);
            i = i + 1;
        } else {
            push_char(&mut r, s[i]);
            assert(rest.skip(1) =~= s@.skip(i + 1));
            assert(r@ =~= before + seq![rest[0]]);
            i = i + 1;
        }
        assert(r@ + dos_text(s@.skip(i as int)) =~= dos_text(s@));
    }
    assert(s@.skip(n as int) =~= Seq::<char>::empty());
    assert(r@ =~= r@ + dos_text(s@.skip(n as int)));
    r
}

/// Writing line breaks as `\r\n` goes piece by piece, when the first piece does not end in
/// a `\r` that the second would complete.
proof fn lemma_dos_text_concat(a: Seq<char>, b: Seq<char>)
    requires
        a.len() > 0,
        a.last() != '\r',
    ensures
        dos_text(a + b) == dos_text(a) + dos_text(b),
    decreases a.len(),
{
    let s = a + b;
    let k: int = if a[0] == '\r' && a.len() >= 2 && a[1] == '\n' {
        2
    } else {
        1
    };
    assert(s[0] == a[0]);
    if a.len() >= 2 {
        assert(s[1] == a[1]);
    }
    let head = if a[0] == '\r' || a[0] == '\n' {
        seq!['\r', '\n']
    } else {
        seq![a[0]]
    };
    assert(dos_text(a) == head + dos_text(a.skip(k)));
    assert(dos_text(s) == head + dos_text(s.skip(k)));
    if a.len() > k {
        assert(s.skip(k) =~= a.skip(k) + b);
        lemma_dos_text_concat(a.skip(k), b);
        assert(dos_text(s) =~= head + (dos_text(a.skip(k)) + dos_text(b)));
    } else {
        assert(s.skip(k) =~= b);
        assert(a.skip(k) =~= Seq::<char>::empty());
        assert(dos_text(a.skip(k)) =~= Seq::<char>::empty());
    }
    assert(dos_text(s) =~= dos_text(a) + dos_text(b));
}

/// The text of one piece that `dos_text` writes is left as it is.
proof fn lemma_dos_text_piece(p: Seq<char>)
    requires
        p == seq!['\r', '\n'] || (p.len() == 1 && p[0] != '\r' && p[0] != '\n'),
    ensures
        dos_text(p) == p,
{
    let k: int = if p.len() == 2 {
        2
    } else {
        1
    };
    assert(p.skip(k) =~= Seq::<char>::empty());
    assert(dos_text(p.skip(k)) =~= Seq::<char>::empty());
    assert(dos_text(p) =~= p);
}

/// Writing the line breaks of a text as `\r\n` a second time changes nothing.
pub proof fn law_dos_line_endings_idempotent(s: Seq<char>)
    ensures
        dos_text(dos_text(s)) == dos_text(s),
    decreases s.len(),
{
    if s.len() > 0 {
        let k: int = if s[0] == '\r' && s.len() >= 2 && s[1] == '\n' {
            2
        } else {
            1
        };
        let rest = s.skip(k);
        law_dos_line_endings_idempotent(rest);
        let head = if s[0] == '\r' || s[0] == '\n' {
            seq!['\r', '\n']
        } else {
            seq![s[0]]
        };
        assert(dos_text(s) == head + dos_text(rest));
        lemma_dos_text_piece(head);
        lemma_dos_text_concat(head, dos_text(rest));
    }
}

/// A flag shared between threads, read and written with relaxed ordering.
pub struct RelaxedAtomicBool(pub AtomicBool);

impl RelaxedAtomicBool {
    /// The value of the flag, as this thread sees it now. Other threads may change it at any
    /// time, so nothing is promised of it.
    pub fn load(&self) -> bool {
        self.0.load(std::sync::atomic::Ordering::Relaxed)
    }

    /// Sets the flag.
    pub fn store(&self, val: bool) {
        self.0.store(val, std::sync::atomic::Ordering::Relaxed)
    }

    /// Sets the flag to the opposite of the value just read.
    pub fn toggle(&self) {
        self.store(!self.load());
    }
}

impl Default for RelaxedAtomicBool {
    /// A flag that is not set.
    fn default() -> (r: Self) {
        RelaxedAtomicBool(AtomicBool::new(false))
    }
}

} // verus!
