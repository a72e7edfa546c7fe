//! Escaping of string values for the stored document. A value is written
//! between double quotes; the quote, the backslash and every control
//! character are escaped so that a stored line never breaks and a value
//! always reads back as the exact characters that were written.

use vstd::prelude::*;

verus! {

// ---------------------------------------------------------------------------
// Hexadecimal digits
// ---------------------------------------------------------------------------

/// `c` is a hexadecimal digit, either case.
pub open spec fn is_hex_digit(c: char) -> bool {
    (0x30 <= (c as u32) <= 0x39) || (0x61 <= (c as u32) <= 0x66) || (0x41 <= (c as u32) <= 0x46)
}

/// Numeric value of a hexadecimal digit.
pub open spec fn spec_hex_val(c: char) -> nat {
    if 0x30 <= (c as u32) <= 0x39 {
        ((c as u32) - 0x30) as nat
    } else if 0x61 <= (c as u32) <= 0x66 {
        ((c as u32) - 0x57) as nat
    } else {
        ((c as u32) - 0x37) as nat
    }
}

/// The lowercase hexadecimal digit for a value below sixteen.
pub open spec fn spec_hex_char(d: nat) -> char {
    if d < 10 {
        crate::numtext::spec_digit_char(d)
    } else if d == 10 {
        'a'
    } else if d == 11 {
        'b'
    } else if d == 12 {
        'c'
    } else if d == 13 {
        'd'
    } else if d == 14 {
        'e'
    } else {
        'f'
    }
}

/// Every character of `s` is a hexadecimal digit.
pub open spec fn all_hex(s: Seq<char>) -> bool {
    forall|i: int| 0 <= i < s.len() ==> is_hex_digit(#[trigger] s[i])
}

/// Four hexadecimal digits for a value below `0x10000`, most significant
/// first.
pub open spec fn spec_hex4(v: nat) -> Seq<char> {
    seq![
        spec_hex_char(v / 0x1000 % 16),
        spec_hex_char(v / 0x100 % 16),
        spec_hex_char(v / 0x10 % 16),
        spec_hex_char(v % 16),
    ]
}

/// Value of a run of four hexadecimal digits.
pub open spec fn spec_hex4_val(s: Seq<char>) -> nat {
    spec_hex_val(s[0]) * 0x1000 + spec_hex_val(s[1]) * 0x100 + spec_hex_val(s[2]) * 0x10
        + spec_hex_val(s[3])
}

/// The hexadecimal digit of a value below sixteen is a digit worth that
/// value.
pub proof fn lemma_hex_char_val(d: nat)
    requires
        d < 16,
    ensures
        is_hex_digit(spec_hex_char(d)),
        spec_hex_val(spec_hex_char(d)) == d,
{
}

/// Four rendered hexadecimal digits read back as the rendered value.
pub proof fn lemma_hex4_props(v: nat)
    requires
        v < 0x10000,
    ensures
        spec_hex4(v).len() == 4,
        all_hex(spec_hex4(v)),
        spec_hex4_val(spec_hex4(v)) == v,
{
    lemma_hex_char_val(v / 0x1000 % 16);
    lemma_hex_char_val(v / 0x100 % 16);
    lemma_hex_char_val(v / 0x10 % 16);
    lemma_hex_char_val(v % 16);
    let u = v as u32;
    assert((u / 0x1000 % 16) * 0x1000 + (u / 0x100 % 16) * 0x100 + (u / 0x10 % 16) * 0x10 + (u
        % 16) == u) by (bit_vector)
        requires
            u < 0x10000,
    ;
}

// ---------------------------------------------------------------------------
// One character's escape
// ---------------------------------------------------------------------------

/// `c` may stand for itself inside a quoted value.
pub open spec fn is_plain(c: char) -> bool {
    c != '"' && c != '\\' && (c as u32) >= 0x20 && (c as u32) != 0x7f
}

/// `e` is the second character of a two-character escape.
pub open spec fn is_named_esc(e: char) -> bool {
    e == '"' || e == '\\' || e == 'n' || e == 't' || e == 'r'
}

/// The character a two-character escape stands for.
pub open spec fn spec_named_unesc(e: char) -> char {
    if e == '"' {
        '"'
    } else if e == '\\' {
        '\\'
    } else if e == 'n' {
        '\n'
    } else if e == 't' {
        '\t'
    } else {
        '\r'
    }
}

/// How one character is written inside a quoted value.
pub open spec fn spec_esc_char(c: char) -> Seq<char> {
    if c == '"' {
        seq!['\\', '"']
    } else if c == '\\' {
        seq!['\\', '\\']
    } else if c == '\n' {
        seq!['\\', 'n']
    } else if c == '\t' {
        seq!['\\', 't']
    } else if c == '\r' {
        seq!['\\', 'r']
    } else if !is_plain(c) {
        seq!['\\', 'u'] + spec_hex4((c as u32) as nat)
    } else {
        seq![c]
    }
}

/// How a whole value is written inside its quotes.
pub open spec fn spec_escape(s: Seq<char>) -> Seq<char>
    decreases s.len(),
{
    if s.len() == 0 {
        Seq::<char>::empty()
    } else {
        spec_esc_char(s[0]) + spec_escape(s.skip(1))
    }
}

/// What reading a quoted value's inside yields: the characters the escapes
/// stand for, or nothing when an escape is malformed or a character stands
/// raw that may not.
pub open spec fn spec_unescape(s: Seq<char>) -> Option<Seq<char>>
    decreases s.len(),
{
    if s.len() == 0 {
        Some(Seq::<char>::empty())
    } else if s[0] == '\\' {
        if s.len() >= 2 && is_named_esc(s[1]) {
            match spec_unescape(s.skip(2)) {
                Some(t) => Some(seq![spec_named_unesc(s[1])] + t),
                None => None,
            }
        } else if s.len() >= 6 && s[1] == 'u' && all_hex(s.subrange(2, 6)) && spec_hex4_val(
            s.subrange(2, 6),
        ) < 0x80 {
            match spec_unescape(s.skip(6)) {
                Some(t) => Some(seq![(((spec_hex4_val(s.subrange(2, 6)) as u32) as u8) as char)] + t),
                None => None,
            }
        } else {
            None
        }
    } else if is_plain(s[0]) {
        match spec_unescape(s.skip(1)) {
            Some(t) => Some(seq![s[0]] + t),
            None => None,
        }
    } else {
        None
    }
}

// ---------------------------------------------------------------------------
// The escape round trip and the shape of escaped text
// ---------------------------------------------------------------------------

/// A character whose code is below `0x80` survives the trip through its
/// code: casting the code down to a byte and back to a character is the
/// identity.
proof fn lemma_low_cast(c: char)
    requires
        (c as u32) < 0x80,
    ensures
        (((c as u32) as u8) as char) == c,
{
    broadcast use vstd::utf8::char_u32_cast;

    let v = c as u32;
    assert((v as u8) as u32 == v);
}

/// Reading back an escaped value yields the original characters.
pub proof fn lemma_unescape_escape(s: Seq<char>)
    ensures
        spec_unescape(spec_escape(s)) == Some(s),
    decreases s.len(),
{
    if s.len() == 0 {
        assert(spec_escape(s) =~= Seq::<char>::empty());
        assert(Some(spec_escape(s)) == Some(s));
    } else {
        let c = s[0];
        let rest = s.skip(1);
        lemma_unescape_escape(rest);
        let e = spec_esc_char(c);
        let er = spec_escape(rest);
        let total = e + er;
        assert(spec_escape(s) == total);
        if c == '"' || c == '\\' || c == '\n' || c == '\t' || c == '\r' {
            assert(total[0] == '\\');
            assert(total.len() >= 2);
            assert(is_named_esc(total[1]));
            assert(total.skip(2) =~= er);
            assert(spec_named_unesc(total[1]) == c);
            assert(seq![c] + rest =~= s);
        } else if !is_plain(c) {
            let u: u32 = c as u32;
            let v = u as nat;
            assert(v < 0x80);
            lemma_hex4_props(v);
            assert(total[0] == '\\');
            assert(total[1] == 'u');
            assert(!is_named_esc(total[1]));
            assert(total.len() >= 6);
            assert(total.subrange(2, 6) =~= spec_hex4(v));
            assert(total.skip(6) =~= er);
            lemma_low_cast(c);
            assert((v as u32) == (c as u32));
            assert((((v as u32) as u8) as char) == c);
            assert(seq![c] + rest =~= s);
        } else {
            assert(total[0] == c);
            assert(total.skip(1) =~= er);
            assert(seq![c] + rest =~= s);
        }
    }
}

/// Escaped text never holds a line break, so a stored line stays one line.
pub proof fn lemma_escape_no_newline(s: Seq<char>)
    ensures
        forall|i: int| 0 <= i < spec_escape(s).len() ==> #[trigger] spec_escape(s)[i] != '\n',
    decreases s.len(),
{
    if s.len() > 0 {
        lemma_escape_no_newline(s.skip(1));
        let c = s[0];
        let e = spec_esc_char(c);
        let er = spec_escape(s.skip(1));
        assert(spec_escape(s) == e + er);
        if !(c == '"' || c == '\\' || c == '\n' || c == '\t' || c == '\r') && !is_plain(c) {
            lemma_hex4_props((c as u32) as nat);
        }
        assert forall|i: int| 0 <= i < spec_escape(s).len() implies #[trigger] spec_escape(s)[i]
            != '\n' by {
            if i < e.len() {
                assert(spec_escape(s)[i] == e[i]);
                if c == '"' || c == '\\' || c == '\n' || c == '\t' || c == '\r' {
                } else if !is_plain(c) {
                    if i >= 2 {
                        let h = spec_hex4((c as u32) as nat);
                        assert(e[i] == h[i - 2]);
                        assert(is_hex_digit(h[i - 2]));
                    }
                } else {
                    assert(e[i] == c);
                }
            } else {
                assert(spec_escape(s)[i] == er[i - e.len()]);
            }
        }
    }
}

// ---------------------------------------------------------------------------
// Executable escape and unescape
// ---------------------------------------------------------------------------

/// Appending one more character escapes it after the text escaped so far.
proof fn lemma_escape_snoc(s: Seq<char>, x: char)
    ensures
        spec_escape(s.push(x)) == spec_escape(s) + spec_esc_char(x),
    decreases s.len(),
{
    if s.len() == 0 {
        assert(s.push(x)[0] == x);
        assert(s.push(x).skip(1) =~= Seq::<char>::empty());
        assert(spec_escape(Seq::<char>::empty()) =~= Seq::<char>::empty());
        assert(spec_escape(s.push(x)) == spec_esc_char(x) + spec_escape(s.push(x).skip(1)));
        assert(spec_esc_char(x) + Seq::<char>::empty() =~= spec_esc_char(x));
        assert(spec_escape(s) + spec_esc_char(x) =~= spec_esc_char(x));
    } else {
        lemma_escape_snoc(s.skip(1), x);
        assert(s.push(x)[0] == s[0]);
        assert(s.push(x).skip(1) =~= s.skip(1).push(x));
        assert(spec_escape(s) + spec_esc_char(x) =~= spec_esc_char(s[0]) + (spec_escape(s.skip(1))
            + spec_esc_char(x)));
    }
}

fn hex_char(d: u32) -> (c: char)
    requires
        d < 16,
    ensures
        c == spec_hex_char(d as nat),
{
    if d == 0 {
        '0'
    } else if d == 1 {
        '1'
    } else if d == 2 {
        '2'
    } else if d == 3 {
        '3'
    } else if d == 4 {
        '4'
    } else if d == 5 {
        '5'
    } else if d == 6 {
        '6'
    } else if d == 7 {
        '7'
    } else if d == 8 {
        '8'
    } else if d == 9 {
        '9'
    } else if d == 10 {
        'a'
    } else if d == 11 {
        'b'
    } else if d == 12 {
        'c'
    } else if d == 13 {
        'd'
    } else if d == 14 {
        'e'
    } else {
        'f'
    }
}

fn hex_val(c: char) -> (r: Option<u32>)
    ensures
        match r {
            Some(v) => is_hex_digit(c) && v == spec_hex_val(c) && v < 16,
            None => !is_hex_digit(c),
        },
{
    let code = c as u32;
    if 0x30 <= code && code <= 0x39 {
        Some(code - 0x30)
    } else if 0x61 <= code && code <= 0x66 {
        Some(code - 0x57)
    } else if 0x41 <= code && code <= 0x46 {
        Some(code - 0x37)
    } else {
        None
    }
}

/// Escape a value for storage between quotes.
pub fn escape_chars(s: &[char]) -> (r: Vec<char>)
    ensures
        r@ == spec_escape(s@),
{
    let n = s.len();
    let mut out: Vec<char> = Vec::new();
    let mut i: usize = 0;
    while i < n
        invariant
            n == s@.len(),
            i <= n,
            out@ == spec_escape(s@.take(i as int)),
        decreases n - i,
    {
        let c = s[i];
        proof {
            lemma_escape_snoc(s@.take(i as int), s@[i as int]);
            assert(s@.take(i as int).push(s@[i as int]) =~= s@.take(i as int + 1));
        }
        let code = c as u32;
        if c == '"' {
            out.push('\\');
            out.push('"');
            proof {
                assert(out@ =~= spec_escape(s@.take(i as int)) + spec_esc_char(c));
            }
        } else if c == '\\' {
            out.push('\\');
            out.push('\\');
            proof {
                assert(out@ =~= spec_escape(s@.take(i as int)) + spec_esc_char(c));
            }
        } else if c == '\n' {
            out.push('\\');
            out.push('n');
            proof {
                assert(out@ =~= spec_escape(s@.take(i as int)) + spec_esc_char(c));
            }
        } else if c == '\t' {
            out.push('\\');
            out.push('t');
            proof {
                assert(out@ =~= spec_escape(s@.take(i as int)) + spec_esc_char(c));
            }
        } else if c == '\r' {
            out.push('\\');
            out.push('r');
            proof {
                assert(out@ =~= spec_escape(s@.take(i as int)) + spec_esc_char(c));
            }
        } else if code < 0x20 || code == 0x7f {
            out.push('\\');
            out.push('u');
            out.push(hex_char(code / 0x1000 % 16));
            out.push(hex_char(code / 0x100 % 16));
            out.push(hex_char(code / 0x10 % 16));
            out.push(hex_char(code % 16));
            proof {
                assert(!is_plain(c));
                assert(out@ =~= spec_escape(s@.take(i as int)) + spec_esc_char(c));
            }
        } else {
            out.push(c);
            proof {
                assert(is_plain(c));
                assert(out@ =~= spec_escape(s@.take(i as int)) + spec_esc_char(c));
            }
        }
        i += 1;
    }
    proof {
        assert(s@.take(n as int) =~= s@);
    }
    out
}

/// Read a quoted value's inside back.
pub fn unescape_chars(s: &[char]) -> (r: Option<Vec<char>>)
    ensures
        match r {
            Some(v) => spec_unescape(s@) == Some(v@),
            None => spec_unescape(s@) == None::<Seq<char>>,
        },
{
    let n = s.len();
    let mut out: Vec<char> = Vec::new();
    let mut i: usize = 0;
    proof {
        assert(s@.skip(0) =~= s@);
    }
    while i < n
        invariant
            n == s@.len(),
            i <= n,
            (match spec_unescape(s@.skip(i as int)) {
                Some(t) => spec_unescape(s@) == Some(out@ + t),
                None => spec_unescape(s@) == None::<Seq<char>>,
            }),
        decreases n - i,
    {
        let ghost pending = s@.skip(i as int);
        proof {
            assert(pending.len() > 0);
            assert(pending[0] == s@[i as int]);
        }
        let c = s[i];
        if c == '\\' {
            if i + 1 >= n {
                proof {
                    assert(pending.len() < 2);
                    assert(spec_unescape(pending) == None::<Seq<char>>);
                }
                return None;
            }
            let e = s[i + 1];
            proof {
                assert(pending.len() >= 2);
                assert(pending[1] == s@[i as int + 1]);
            }
            if e == '"' || e == '\\' || e == 'n' || e == 't' || e == 'r' {
                let u: char = if e == '"' {
                    '"'
                } else if e == '\\' {
                    '\\'
                } else if e == 'n' {
                    '\n'
                } else if e == 't' {
                    '\t'
                } else {
                    '\r'
                };
                proof {
                    assert(u == spec_named_unesc(pending[1]));
                    assert(pending.skip(2) =~= s@.skip(i as int + 2));
                }
                let ghost old_out = out@;
                out.push(u);
                proof {
                    match spec_unescape(s@.skip(i as int + 2)) {
                        Some(t) => {
                            assert(spec_unescape(pending) == Some(seq![u] + t));
                            assert(old_out + (seq![u] + t) =~= out@ + t);
                        },
                        None => {},
                    }
                }
                i += 2;
            } else if e == 'u' {
                if n - i < 6 {
                    proof {
                        assert(pending.len() < 6);
                        assert(!is_named_esc(pending[1]));
                        assert(spec_unescape(pending) == None::<Seq<char>>);
                    }
                    return None;
                }
                proof {
                    assert(pending.len() >= 6);
                    assert(pending.subrange(2, 6) =~= s@.subrange(i as int + 2, i as int + 6));
                    assert(pending.subrange(2, 6)[0] == s@[i as int + 2]);
                    assert(pending.subrange(2, 6)[1] == s@[i as int + 3]);
                    assert(pending.subrange(2, 6)[2] == s@[i as int + 4]);
                    assert(pending.subrange(2, 6)[3] == s@[i as int + 5]);
                }
                let h0 = hex_val(s[i + 2]);
                let h1 = hex_val(s[i + 3]);
                let h2 = hex_val(s[i + 4]);
                let h3 = hex_val(s[i + 5]);
                match (h0, h1, h2, h3) {
                    (Some(v0), Some(v1), Some(v2), Some(v3)) => {
                        let v = v0 * 0x1000 + v1 * 0x100 + v2 * 0x10 + v3;
                        proof {
                            assert(all_hex(pending.subrange(2, 6))) by {
                                assert(forall|k: int|
                                    0 <= k < 4 ==> is_hex_digit(
                                        #[trigger] pending.subrange(2, 6)[k],
                                    ));
                            }
                            assert(v == spec_hex4_val(pending.subrange(2, 6)));
                        }
                        if v >= 0x80 {
                            proof {
                                assert(spec_unescape(pending) == None::<Seq<char>>);
                            }
                            return None;
                        }
                        let u: char = (v as u8) as char;
                        proof {
                            assert(pending.skip(6) =~= s@.skip(i as int + 6));
                        }
                        let ghost old_out = out@;
                        out.push(u);
                        proof {
                            match spec_unescape(s@.skip(i as int + 6)) {
                                Some(t) => {
                                    assert(spec_unescape(pending) == Some(seq![u] + t));
                                    assert(old_out + (seq![u] + t) =~= out@ + t);
                                },
                                None => {},
                            }
                        }
                        i += 6;
                    },
                    _ => {
                        proof {
                            assert(!all_hex(pending.subrange(2, 6)));
                            assert(!is_named_esc(pending[1]));
                            assert(spec_unescape(pending) == None::<Seq<char>>);
                        }
                        return None;
                    },
                }
            } else {
                proof {
                    assert(!is_named_esc(pending[1]));
                    assert(pending[1] != 'u');
                    assert(spec_unescape(pending) == None::<Seq<char>>);
                }
                return None;
            }
        } else {
            let code = c as u32;
            if code >= 0x20 && code != 0x7f && c != '"' {
                proof {
                    assert(is_plain(pending[0]));
                    assert(pending.skip(1) =~= s@.skip(i as int + 1));
                }
                let ghost old_out = out@;
                out.push(c);
                proof {
                    match spec_unescape(s@.skip(i as int + 1)) {
                        Some(t) => {
                            assert(spec_unescape(pending) == Some(seq![c] + t));
                            assert(old_out + (seq![c] + t) =~= out@ + t);
                        },
                        None => {},
                    }
                }
                i += 1;
            } else {
                proof {
                    assert(!is_plain(pending[0]));
                    assert(spec_unescape(pending) == None::<Seq<char>>);
                }
                return None;
            }
        }
    }
    proof {
        assert(s@.skip(n as int) =~= Seq::<char>::empty());
        assert(spec_unescape(s@.skip(n as int)) == Some(Seq::<char>::empty()));
        assert(out@ + Seq::<char>::empty() =~= out@);
    }
    Some(out)
}

} // verus!
