//! Width-aware text shaping for the wizard's terminal output: wrapping a
//! value into fixed-width lines, the side-by-side comparison banner, and
//! the centered section label. The front end chooses the width (falling
//! back to a fixed one when the terminal cannot say) and prints; nothing
//! here touches the terminal.

use vstd::prelude::*;
use vstd::string::StrSliceExecFns;

verus! {

/// The width the front end falls back to when the terminal's cannot be
/// read.
pub const FALLBACK_WIDTH: usize = 80;

// ---------------------------------------------------------------------------
// Wrapping
// ---------------------------------------------------------------------------

/// The lines of `s` wrapped at `w` characters: full chunks of exactly `w`,
/// then whatever remains. Empty text has no lines. Wrapping is by
/// characters, so a multi-byte character is never torn apart.
pub open spec fn spec_wrap(s: Seq<char>, w: nat) -> Seq<Seq<char>>
    decreases s.len(),
{
    if w == 0 {
        seq![s]
    } else if s.len() == 0 {
        Seq::<Seq<char>>::empty()
    } else if s.len() <= w {
        seq![s]
    } else {
        seq![s.take(w as int)] + spec_wrap(s.skip(w as int), w)
    }
}

/// The wrapped lines hold exactly the original characters in order, and no
/// line is longer than the width. In particular, when the text's length is
/// a multiple of the width, every line is exactly the width.
pub proof fn law_wrap(s: Seq<char>, w: nat)
    requires
        w >= 1,
    ensures
        spec_wrap(s, w).flatten() == s,
        forall|i: int| 0 <= i < spec_wrap(s, w).len() ==> #[trigger] spec_wrap(s, w)[i].len() <= w,
        (s.len() as int) % (w as int) == 0 ==> forall|i: int|
            0 <= i < spec_wrap(s, w).len() ==> #[trigger] spec_wrap(s, w)[i].len() == w,
    decreases s.len(),
{
    let ls = spec_wrap(s, w);
    assert(Seq::<Seq<char>>::empty().flatten() == Seq::<char>::empty());
    if s.len() == 0 {
        assert(ls =~= Seq::<Seq<char>>::empty());
        assert(ls.flatten() =~= s);
    } else if s.len() <= w {
        assert(ls == seq![s]);
        assert(ls.first() == s);
        assert(ls.drop_first() =~= Seq::<Seq<char>>::empty());
        assert(ls.flatten() =~= s);
        if (s.len() as int) % (w as int) == 0 {
            assert(s.len() == w) by {
                if s.len() < w {
                    vstd::arithmetic::div_mod::lemma_small_mod(s.len(), w);
                }
            }
        }
    } else {
        let head = s.take(w as int);
        let rest = s.skip(w as int);
        law_wrap(rest, w);
        assert(ls == seq![head] + spec_wrap(rest, w));
        assert(ls.first() == head);
        assert(ls.drop_first() =~= spec_wrap(rest, w));
        assert(ls.flatten() == head + spec_wrap(rest, w).flatten());
        assert(ls.flatten() =~= s);
        if (s.len() as int) % (w as int) == 0 {
            assert((rest.len() as int) % (w as int) == 0) by {
                vstd::arithmetic::div_mod::lemma_mod_sub_multiples_vanish(
                    s.len() as int,
                    w as int,
                );
            }
        }
        assert forall|i: int| 0 <= i < ls.len() implies #[trigger] ls[i].len() <= w by {
            if i >= 1 {
                assert(ls[i] == spec_wrap(rest, w)[i - 1]);
            }
        }
        if (s.len() as int) % (w as int) == 0 {
            assert forall|i: int| 0 <= i < ls.len() implies #[trigger] ls[i].len() == w by {
                if i >= 1 {
                    assert(ls[i] == spec_wrap(rest, w)[i - 1]);
                }
            }
        }
    }
}

/// Wrap a value into lines of at most `w` characters.
pub fn wrap(s: &str, w: usize) -> (r: Vec<String>)
    requires
        w >= 1,
    ensures
        r.deep_view() == spec_wrap(s@, w as nat),
{
    let cs = crate::text::str_to_chars(s);
    let n = cs.len();
    let mut out: Vec<String> = Vec::new();
    let mut pos: usize = 0;
    proof {
        assert(cs@.skip(0) =~= cs@);
        assert(out.deep_view() + spec_wrap(s@, w as nat) =~= spec_wrap(s@, w as nat));
    }
    while pos < n
        invariant
            w >= 1,
            n == cs@.len(),
            cs@ == s@,
            pos <= n,
            spec_wrap(s@, w as nat) == out.deep_view() + spec_wrap(s@.skip(pos as int), w as nat),
        decreases n - pos,
    {
        let end = if n - pos < w {
            n
        } else {
            pos + w
        };
        let mut chunk: Vec<char> = Vec::new();
        let mut k: usize = pos;
        while k < end
            invariant
                pos <= k <= end <= n,
                n == cs@.len(),
                chunk@ == cs@.subrange(pos as int, k as int),
            decreases end - k,
        {
            chunk.push(cs[k]);
            proof {
                assert(chunk@ =~= cs@.subrange(pos as int, k as int + 1));
            }
            k += 1;
        }
        let line = crate::text::chars_to_string(chunk.as_slice());
        let ghost before = out.deep_view();
        out.push(line);
        proof {
            let tail = s@.skip(pos as int);
            assert(out.deep_view() =~~= before.push(chunk@));
            if end == n {
                assert(tail.len() <= w as int);
                assert(chunk@ == tail) by {
                    assert(cs@.subrange(pos as int, n as int) =~= tail);
                }
                assert(spec_wrap(tail, w as nat) == seq![tail]);
                assert(before + spec_wrap(tail, w as nat) =~~= out.deep_view());
                assert(s@.skip(n as int) =~= Seq::<char>::empty());
                assert(spec_wrap(s@.skip(n as int), w as nat)
                    == Seq::<Seq<char>>::empty());
                assert(out.deep_view() + Seq::<Seq<char>>::empty() =~= out.deep_view());
            } else {
                assert(tail.len() > w as int);
                assert(chunk@ == tail.take(w as int)) by {
                    assert(cs@.subrange(pos as int, pos as int + w) =~= tail.take(w as int));
                }
                assert(spec_wrap(tail, w as nat) == seq![tail.take(w as int)] + spec_wrap(
                    tail.skip(w as int),
                    w as nat,
                ));
                assert(tail.skip(w as int) =~= s@.skip(pos as int + w));
                assert(before + spec_wrap(tail, w as nat) =~~= out.deep_view() + spec_wrap(
                    s@.skip(pos as int + w),
                    w as nat,
                ));
            }
        }
        pos = end;
    }
    proof {
        assert(s@.skip(n as int) =~= Seq::<char>::empty());
        assert(spec_wrap(s@.skip(n as int), w as nat) == Seq::<Seq<char>>::empty());
        assert(out.deep_view() + Seq::<Seq<char>>::empty() =~= out.deep_view());
    }
    out
}

// ---------------------------------------------------------------------------
// The comparison banner
// ---------------------------------------------------------------------------

/// `n` spaces.
pub open spec fn spec_spaces(n: nat) -> Seq<char> {
    Seq::new(n, |i: int| ' ')
}

/// One side of the banner, shaped to exactly `half` characters: the text
/// padded with spaces when it fits, else truncated with an ellipsis mark.
pub open spec fn spec_side(s: Seq<char>, half: nat) -> Seq<char> {
    if s.len() <= half {
        s + spec_spaces((half - s.len()) as nat)
    } else if half >= 3 {
        s.take(half - 3) + seq!['.', '.', '.']
    } else {
        s.take(half as int)
    }
}

/// The side-by-side banner: both sides shaped to half the width left of
/// the separator, the separator between them.
pub open spec fn spec_banner(l: Seq<char>, r: Seq<char>, width: nat, sep: Seq<char>) -> Seq<char>
{
    let half = ((width - sep.len()) / 2) as nat;
    spec_side(l, half) + sep + spec_side(r, half)
}

/// Each side of the banner is exactly half the width left of the
/// separator — in particular, never more.
pub proof fn law_banner_sides(s: Seq<char>, half: nat)
    ensures
        spec_side(s, half).len() == half,
{
}

/// Render the side-by-side comparison banner.
pub fn compare_banner(left: &str, right: &str, width: usize, sep: &str) -> (r: String)
    requires
        sep@.len() + 8 <= width,
    ensures
        r@ == spec_banner(left@, right@, width as nat, sep@),
        r@.len() == width - (width - sep@.len()) % 2,
{
    let sc = crate::text::str_to_chars(sep);
    let half = (width - sc.len()) / 2;
    let lc = crate::text::str_to_chars(left);
    let rc = crate::text::str_to_chars(right);
    let mut out = banner_side(lc, half);
    crate::text::append_chars(&mut out, sc.as_slice());
    let rs = banner_side(rc, half);
    crate::text::append_chars(&mut out, rs.as_slice());
    proof {
        law_banner_sides(left@, half as nat);
        law_banner_sides(right@, half as nat);
        assert(out@ =~= spec_banner(left@, right@, width as nat, sep@));
    }
    crate::text::chars_to_string(out.as_slice())
}

fn banner_side(s: Vec<char>, half: usize) -> (r: Vec<char>)
    requires
        half >= 3,
    ensures
        r@ == spec_side(s@, half as nat),
{
    let n = s.len();
    if n <= half {
        let ghost orig = s@;
        let mut out = s;
        let pad = half - n;
        let mut i: usize = 0;
        proof {
            assert(out@ =~= orig + spec_spaces(0));
        }
        while i < pad
            invariant
                i <= pad,
                out@ == orig + spec_spaces(i as nat),
            decreases pad - i,
        {
            out.push(' ');
            proof {
                assert(out@ =~= orig + spec_spaces(i as nat + 1));
            }
            i += 1;
        }
        out
    } else {
        let mut out: Vec<char> = Vec::new();
        let mut i: usize = 0;
        while i < half - 3
            invariant
                half >= 3,
                half < n == s@.len(),
                i <= half - 3,
                out@ == s@.take(i as int),
            decreases half - 3 - i,
        {
            out.push(s[i]);
            proof {
                assert(out@ =~= s@.take(i as int + 1));
            }
            i += 1;
        }
        out.push('.');
        out.push('.');
        out.push('.');
        proof {
            assert(out@ =~= s@.take(half - 3) + seq!['.', '.', '.']);
        }
        out
    }
}

// ---------------------------------------------------------------------------
// Section labels
// ---------------------------------------------------------------------------

/// A full-width horizontal rule.
pub open spec fn spec_rule(width: nat) -> Seq<char> {
    Seq::new(width, |i: int| '-')
}

/// The message centered in the width: padded on both sides, the left pad
/// no larger than the right.
pub open spec fn spec_centered(s: Seq<char>, width: nat) -> Seq<char> {
    if s.len() >= width {
        s
    } else {
        let lead = ((width - s.len()) / 2) as nat;
        spec_spaces(lead) + s + spec_spaces((width - s.len() - lead) as nat)
    }
}

/// The three lines of a section label: a rule, the centered message, a
/// rule.
pub fn section_label_lines(message: &str, width: usize) -> (r: Vec<String>)
    ensures
        r.deep_view() =~= seq![
            spec_rule(width as nat),
            spec_centered(message@, width as nat),
            spec_rule(width as nat),
        ],
{
    let mut rule: Vec<char> = Vec::new();
    let mut i: usize = 0;
    while i < width
        invariant
            i <= width,
            rule@ =~= spec_rule(i as nat),
        decreases width - i,
    {
        rule.push('-');
        proof {
            assert(rule@ =~= spec_rule(i as nat + 1));
        }
        i += 1;
    }
    let mc = crate::text::str_to_chars(message);
    let mut mid: Vec<char> = Vec::new();
    if mc.len() >= width {
        mid = mc;
    } else {
        let lead = (width - mc.len()) / 2;
        let trail = width - mc.len() - lead;
        let mut k: usize = 0;
        while k < lead
            invariant
                k <= lead,
                mid@ =~= spec_spaces(k as nat),
            decreases lead - k,
        {
            mid.push(' ');
            proof {
                assert(mid@ =~= spec_spaces(k as nat + 1));
            }
            k += 1;
        }
        crate::text::append_chars(&mut mid, mc.as_slice());
        let mut t: usize = 0;
        let ghost base = mid@;
        while t < trail
            invariant
                t <= trail,
                mid@ =~= base + spec_spaces(t as nat),
            decreases trail - t,
        {
            mid.push(' ');
            proof {
                assert(mid@ =~= base + spec_spaces(t as nat + 1));
            }
            t += 1;
        }
        proof {
            assert(mid@ =~= spec_centered(message@, width as nat));
        }
    }
    let mut out: Vec<String> = Vec::new();
    out.push(crate::text::chars_to_string(rule.as_slice()));
    out.push(crate::text::chars_to_string(mid.as_slice()));
    out.push(crate::text::chars_to_string(rule.as_slice()));
    proof {
        assert(out.deep_view() =~~= seq![
            spec_rule(width as nat),
            spec_centered(message@, width as nat),
            spec_rule(width as nat),
        ]);
    }
    out
}

} // verus!
