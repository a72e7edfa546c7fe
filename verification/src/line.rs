//! One stored line: blank or comment, a section header in brackets, or a
//! `key = value` pair. Parsing trims surrounding blanks, so the format stays
//! editable by hand; the shapes this crate writes parse back exactly.

use vstd::prelude::*;
use crate::escape::{spec_escape, spec_unescape};

verus! {

// ---------------------------------------------------------------------------
// Blanks and trimming
// ---------------------------------------------------------------------------

/// `c` is horizontal whitespace (or the remnant of a CRLF line end).
pub open spec fn is_ws(c: char) -> bool {
    c == ' ' || c == '\t' || c == '\r'
}

/// `s` without leading whitespace.
pub open spec fn trim_front(s: Seq<char>) -> Seq<char>
    decreases s.len(),
{
    if s.len() > 0 && is_ws(s[0]) {
        trim_front(s.skip(1))
    } else {
        s
    }
}

/// `s` without trailing whitespace.
pub open spec fn trim_back(s: Seq<char>) -> Seq<char>
    decreases s.len(),
{
    if s.len() > 0 && is_ws(s.last()) {
        trim_back(s.drop_last())
    } else {
        s
    }
}

/// `s` without surrounding whitespace.
pub open spec fn spec_trim(s: Seq<char>) -> Seq<char> {
    trim_back(trim_front(s))
}

/// Text that neither starts nor ends with whitespace trims to itself.
pub proof fn lemma_trim_noop(s: Seq<char>)
    requires
        s.len() == 0 || (!is_ws(s[0]) && !is_ws(s.last())),
    ensures
        spec_trim(s) == s,
{
}

// ---------------------------------------------------------------------------
// Finding the key/value separator
// ---------------------------------------------------------------------------

/// Index of the first equals sign of `s`, or its length when there is none.
pub open spec fn find_eq(s: Seq<char>) -> int
    decreases s.len(),
{
    if s.len() == 0 {
        0
    } else if s[0] == '=' {
        0
    } else {
        1 + find_eq(s.skip(1))
    }
}

/// A position with no equals sign before it and an equals sign (or the end)
/// at it is where the first equals sign lies.
pub proof fn lemma_find_eq_at(s: Seq<char>, k: int)
    requires
        0 <= k <= s.len(),
        forall|i: int| 0 <= i < k ==> s[i] != '=',
        k == s.len() || s[k] == '=',
    ensures
        find_eq(s) == k,
    decreases s.len(),
{
    if s.len() == 0 {
    } else if k == 0 {
    } else {
        assert(s[0] != '=');
        assert forall|i: int| 0 <= i < k - 1 implies s.skip(1)[i] != '=' by {
            assert(s.skip(1)[i] == s[i + 1]);
        }
        if k < s.len() {
            assert(s.skip(1)[k - 1] == s[k]);
        }
        lemma_find_eq_at(s.skip(1), k - 1);
    }
}

// ---------------------------------------------------------------------------
// The three kinds of line
// ---------------------------------------------------------------------------

/// View of one parsed line.
pub ghost enum LineItemV {
    /// Empty or comment-only: carries nothing.
    Blank,
    /// `[name]`: opens the named section.
    Sect(Seq<char>),
    /// `key = value`, the value still as raw text.
    Kv(Seq<char>, Seq<char>),
}

/// One parsed line.
pub enum LineItem {
    Blank,
    Sect(Vec<char>),
    Kv(Vec<char>, Vec<char>),
}

impl View for LineItem {
    type V = LineItemV;

    open spec fn view(&self) -> LineItemV {
        match self {
            LineItem::Blank => LineItemV::Blank,
            LineItem::Sect(n) => LineItemV::Sect(n@),
            LineItem::Kv(k, v) => LineItemV::Kv(k@, v@),
        }
    }
}

/// What one trimmed line means: nothing, a section header, or a pair; and
/// which lines are malformed.
pub open spec fn spec_parse_line(l: Seq<char>) -> Option<LineItemV> {
    let t = spec_trim(l);
    if t.len() == 0 {
        Some(LineItemV::Blank)
    } else if t[0] == '#' {
        Some(LineItemV::Blank)
    } else if t[0] == '[' {
        if t.len() >= 2 && t.last() == ']' {
            Some(LineItemV::Sect(t.subrange(1, t.len() - 1)))
        } else {
            None
        }
    } else {
        let e = find_eq(t);
        if e >= t.len() {
            None
        } else {
            let key = spec_trim(t.take(e));
            let raw = spec_trim(t.skip(e + 1));
            if key.len() == 0 || raw.len() == 0 {
                None
            } else {
                Some(LineItemV::Kv(key, raw))
            }
        }
    }
}

// ---------------------------------------------------------------------------
// Raw values
// ---------------------------------------------------------------------------

/// What a raw string value means: the unescaped inside of its quotes.
pub open spec fn spec_val_str(raw: Seq<char>) -> Option<Seq<char>> {
    if raw.len() >= 2 && raw[0] == '"' && raw.last() == '"' {
        spec_unescape(raw.subrange(1, raw.len() - 1))
    } else {
        None
    }
}

/// How a string value is written: its escape between quotes.
pub open spec fn spec_str_raw(v: Seq<char>) -> Seq<char> {
    seq!['"'] + spec_escape(v) + seq!['"']
}

/// A written string value reads back as the original characters.
pub proof fn lemma_val_str_round_trip(v: Seq<char>)
    ensures
        spec_val_str(spec_str_raw(v)) == Some(v),
{
    let raw = spec_str_raw(v);
    assert(raw[0] == '"');
    assert(raw.last() == '"');
    assert(raw.subrange(1, raw.len() - 1) =~= spec_escape(v));
    crate::escape::lemma_unescape_escape(v);
}

// ---------------------------------------------------------------------------
// Executable trimming and parsing
// ---------------------------------------------------------------------------

fn ws(c: char) -> (r: bool)
    ensures
        r == is_ws(c),
{
    c == ' ' || c == '\t' || c == '\r'
}

/// Trim surrounding whitespace.
pub fn trim_chars(s: &[char]) -> (r: Vec<char>)
    ensures
        r@ == spec_trim(s@),
{
    let n = s.len();
    let mut a: usize = 0;
    proof {
        assert(s@.skip(0) =~= s@);
    }
    while a < n && ws(s[a])
        invariant
            n == s@.len(),
            a <= n,
            trim_front(s@) == trim_front(s@.skip(a as int)),
        decreases n - a,
    {
        proof {
            let t = s@.skip(a as int);
            assert(t[0] == s@[a as int]);
            assert(t.skip(1) =~= s@.skip(a as int + 1));
        }
        a += 1;
    }
    proof {
        let t = s@.skip(a as int);
        assert(a < n ==> t[0] == s@[a as int]);
        assert(trim_front(t) == t);
    }
    let mut b: usize = n;
    while b > a && ws(s[b - 1])
        invariant
            n == s@.len(),
            a <= b <= n,
            trim_back(s@.skip(a as int)) == trim_back(s@.subrange(a as int, b as int)),
            trim_front(s@) == s@.skip(a as int),
        decreases b,
    {
        proof {
            let t = s@.subrange(a as int, b as int);
            assert(t.last() == s@[b as int - 1]);
            assert(t.drop_last() =~= s@.subrange(a as int, b as int - 1));
        }
        b -= 1;
    }
    proof {
        let t = s@.subrange(a as int, b as int);
        assert(b > a ==> t.last() == s@[b as int - 1]);
        assert(trim_back(t) == t);
        assert(s@.skip(a as int) =~= s@.subrange(a as int, n as int));
    }
    let mut out: Vec<char> = Vec::new();
    let mut i: usize = a;
    while i < b
        invariant
            a <= i <= b <= n,
            n == s@.len(),
            out@ == s@.subrange(a as int, i as int),
        decreases b - i,
    {
        out.push(s[i]);
        proof {
            assert(out@ =~= s@.subrange(a as int, i as int + 1));
        }
        i += 1;
    }
    out
}

/// Parse one stored line.
pub fn parse_line(l: &[char]) -> (r: Option<LineItem>)
    ensures
        match r {
            Some(it) => spec_parse_line(l@) == Some(it@),
            None => spec_parse_line(l@) == None::<LineItemV>,
        },
{
    let t = trim_chars(l);
    let n = t.len();
    if n == 0 {
        return Some(LineItem::Blank);
    }
    if t[0] == '#' {
        return Some(LineItem::Blank);
    }
    if t[0] == '[' {
        if n >= 2 && t[n - 1] == ']' {
            let mut name: Vec<char> = Vec::new();
            let mut i: usize = 1;
            while i < n - 1
                invariant
                    2 <= n == t@.len(),
                    1 <= i <= n - 1,
                    name@ == t@.subrange(1, i as int),
                decreases n - i,
            {
                name.push(t[i]);
                proof {
                    assert(name@ =~= t@.subrange(1, i as int + 1));
                }
                i += 1;
            }
            return Some(LineItem::Sect(name));
        } else {
            return None;
        }
    }
    // find the first equals sign
    let mut e: usize = 0;
    while e < n && t[e] != '='
        invariant
            n == t@.len(),
            e <= n,
            forall|i: int| 0 <= i < e ==> t@[i] != '=',
        decreases n - e,
    {
        e += 1;
    }
    proof {
        lemma_find_eq_at(t@, e as int);
    }
    if e == n {
        return None;
    }
    let mut keypart: Vec<char> = Vec::new();
    let mut i: usize = 0;
    while i < e
        invariant
            e <= n == t@.len(),
            i <= e,
            keypart@ == t@.take(e as int).take(i as int),
        decreases e - i,
    {
        proof {
            assert(t@.take(e as int)[i as int] == t@[i as int]);
        }
        keypart.push(t[i]);
        proof {
            assert(keypart@ =~= t@.take(e as int).take(i as int + 1));
        }
        i += 1;
    }
    proof {
        assert(t@.take(e as int).take(e as int) =~= t@.take(e as int));
    }
    let mut rawpart: Vec<char> = Vec::new();
    let mut j: usize = e + 1;
    while j < n
        invariant
            e < n == t@.len(),
            e + 1 <= j <= n,
            rawpart@ == t@.skip(e as int + 1).take(j as int - e - 1),
        decreases n - j,
    {
        proof {
            assert(t@.skip(e as int + 1)[j as int - e - 1] == t@[j as int]);
        }
        rawpart.push(t[j]);
        proof {
            assert(rawpart@ =~= t@.skip(e as int + 1).take(j as int - e));
        }
        j += 1;
    }
    proof {
        assert(t@.skip(e as int + 1).take(n as int - e - 1) =~= t@.skip(e as int + 1));
    }
    let key = trim_chars(keypart.as_slice());
    let raw = trim_chars(rawpart.as_slice());
    if key.len() == 0 || raw.len() == 0 {
        return None;
    }
    Some(LineItem::Kv(key, raw))
}

/// Read a raw string value.
pub fn val_str(raw: &[char]) -> (r: Option<Vec<char>>)
    ensures
        match r {
            Some(v) => spec_val_str(raw@) == Some(v@),
            None => spec_val_str(raw@) == None::<Seq<char>>,
        },
{
    let n = raw.len();
    if n < 2 || raw[0] != '"' || raw[n - 1] != '"' {
        return None;
    }
    let mut inner: Vec<char> = Vec::new();
    let mut i: usize = 1;
    while i < n - 1
        invariant
            2 <= n == raw@.len(),
            1 <= i <= n - 1,
            inner@ == raw@.subrange(1, i as int),
        decreases n - i,
    {
        inner.push(raw[i]);
        proof {
            assert(inner@ =~= raw@.subrange(1, i as int + 1));
        }
        i += 1;
    }
    crate::escape::unescape_chars(inner.as_slice())
}

} // verus!
