//! The stored document is a sequence of newline-terminated lines. This
//! module joins lines into one text and splits a text back, with the proof
//! that splitting what was joined returns the original lines, provided no
//! line holds a newline itself.

use vstd::prelude::*;

verus! {

/// `l` holds no line break.
pub open spec fn line_clean(l: Seq<char>) -> bool {
    forall|i: int| 0 <= i < l.len() ==> l[i] != '\n'
}

/// No line of `ls` holds a line break.
pub open spec fn all_clean(ls: Seq<Seq<char>>) -> bool {
    forall|i: int| 0 <= i < ls.len() ==> line_clean(#[trigger] ls[i])
}

/// The text of the lines, each terminated by a newline.
pub open spec fn spec_join(ls: Seq<Seq<char>>) -> Seq<char>
    decreases ls.len(),
{
    if ls.len() == 0 {
        Seq::<char>::empty()
    } else {
        ls[0] + seq!['\n'] + spec_join(ls.skip(1))
    }
}

/// Index of the first newline of `s`, or its length when there is none.
pub open spec fn find_nl(s: Seq<char>) -> int
    decreases s.len(),
{
    if s.len() == 0 {
        0
    } else if s[0] == '\n' {
        0
    } else {
        1 + find_nl(s.skip(1))
    }
}

/// The lines of a text: each newline ends a line; a final run without a
/// newline is a line of its own.
pub open spec fn spec_split(s: Seq<char>) -> Seq<Seq<char>>
    decreases s.len(),
    via spec_split_decreases
{
    if s.len() == 0 {
        Seq::<Seq<char>>::empty()
    } else {
        let k = find_nl(s);
        if k == s.len() {
            seq![s]
        } else {
            seq![s.take(k)] + spec_split(s.skip(k + 1))
        }
    }
}

#[via_fn]
proof fn spec_split_decreases(s: Seq<char>) {
    lemma_find_nl(s);
}

/// Where the first newline lies: before it none, at it one, and it is
/// within the text.
pub proof fn lemma_find_nl(s: Seq<char>)
    ensures
        0 <= find_nl(s) <= s.len(),
        find_nl(s) < s.len() ==> s[find_nl(s)] == '\n',
        forall|i: int| 0 <= i < find_nl(s) ==> s[i] != '\n',
    decreases s.len(),
{
    if s.len() == 0 {
    } else if s[0] == '\n' {
    } else {
        lemma_find_nl(s.skip(1));
        let k = find_nl(s.skip(1));
        assert forall|i: int| 0 <= i < 1 + k implies s[i] != '\n' by {
            if i >= 1 {
                assert(s.skip(1)[i - 1] != '\n');
            }
        }
        if 1 + k < s.len() {
            assert(s[1 + k] == s.skip(1)[k]);
        }
    }
}

/// Conversely: a position with no newline before it and a newline (or the
/// end) at it is where the first newline lies.
pub proof fn lemma_find_nl_at(s: Seq<char>, k: int)
    requires
        0 <= k <= s.len(),
        forall|i: int| 0 <= i < k ==> s[i] != '\n',
        k == s.len() || s[k] == '\n',
    ensures
        find_nl(s) == k,
    decreases s.len(),
{
    if s.len() == 0 {
    } else if k == 0 {
    } else {
        assert(s[0] != '\n');
        assert forall|i: int| 0 <= i < k - 1 implies s.skip(1)[i] != '\n' by {
            assert(s.skip(1)[i] == s[i + 1]);
        }
        if k < s.len() {
            assert(s.skip(1)[k - 1] == s[k]);
        }
        lemma_find_nl_at(s.skip(1), k - 1);
    }
}

/// Splitting the joined lines returns the lines.
pub proof fn lemma_split_join(ls: Seq<Seq<char>>)
    requires
        all_clean(ls),
    ensures
        spec_split(spec_join(ls)) == ls,
    decreases ls.len(),
{
    if ls.len() == 0 {
        assert(spec_split(spec_join(ls)) =~= ls);
    } else {
        let head = ls[0];
        let rest = spec_join(ls.skip(1));
        let s = spec_join(ls);
        assert(s == head + seq!['\n'] + rest);
        assert(line_clean(head));
        assert forall|i: int| 0 <= i < head.len() implies s[i] != '\n' by {
            assert(s[i] == head[i]);
        }
        assert(s[head.len() as int] == '\n');
        lemma_find_nl_at(s, head.len() as int);
        assert(s.len() > 0);
        assert(find_nl(s) < s.len());
        assert(s.take(head.len() as int) =~= head);
        assert(s.skip(head.len() as int + 1) =~= rest);
        assert(forall|i: int| 0 <= i < ls.skip(1).len() ==> line_clean(#[trigger] ls.skip(1)[i]));
        lemma_split_join(ls.skip(1));
        assert(spec_split(s) == seq![head] + spec_split(rest));
        assert(seq![head] + ls.skip(1) =~= ls);
    }
}

/// The joined lines hold exactly the lines' characters and one newline for
/// each line.
pub fn join_lines(ls: &Vec<Vec<char>>) -> (r: Vec<char>)
    ensures
        r@ == spec_join(ls.deep_view()),
{
    let mut out: Vec<char> = Vec::new();
    let mut i: usize = 0;
    proof {
        assert(ls.deep_view().len() == ls@.len());
        assert(ls.deep_view().skip(0) =~= ls.deep_view());
        assert(out@ + spec_join(ls.deep_view()) =~= spec_join(ls.deep_view()));
    }
    while i < ls.len()
        invariant
            i <= ls@.len(),
            ls.deep_view().len() == ls@.len(),
            spec_join(ls.deep_view()) == out@ + spec_join(ls.deep_view().skip(i as int)),
        decreases ls@.len() - i,
    {
        let ghost before = out@;
        crate::text::append_chars(&mut out, ls[i].as_slice());
        out.push('\n');
        proof {
            let tail = ls.deep_view().skip(i as int);
            assert(tail[0] == ls.deep_view()[i as int]);
            assert(ls.deep_view()[i as int] =~= ls@[i as int]@);
            assert(tail.skip(1) =~= ls.deep_view().skip(i as int + 1));
            assert(spec_join(tail) == tail[0] + seq!['\n'] + spec_join(tail.skip(1)));
            assert(out@ =~= before + ls@[i as int]@ + seq!['\n']);
            assert(before + spec_join(tail) =~= out@ + spec_join(ls.deep_view().skip(i as int + 1)));
        }
        i += 1;
    }
    proof {
        assert(ls.deep_view().skip(ls@.len() as int) =~= Seq::<Seq<char>>::empty());
        assert(spec_join(Seq::<Seq<char>>::empty()) == Seq::<char>::empty());
        assert(out@ + Seq::<char>::empty() =~= out@);
    }
    out
}

/// The lines of a text.
pub fn split_lines(s: &[char]) -> (r: Vec<Vec<char>>)
    ensures
        r.deep_view() == spec_split(s@),
{
    let n = s.len();
    let mut out: Vec<Vec<char>> = Vec::new();
    let mut pos: usize = 0;
    proof {
        assert(s@.skip(0) =~= s@);
        assert(out.deep_view() + spec_split(s@) =~= spec_split(s@));
    }
    while pos < n
        invariant
            n == s@.len(),
            pos <= n,
            spec_split(s@) == out.deep_view() + spec_split(s@.skip(pos as int)),
        decreases n - pos,
    {
        let ghost tail = s@.skip(pos as int);
        // scan to the next newline or the end
        let mut j: usize = pos;
        while j < n && s[j] != '\n'
            invariant
                n == s@.len(),
                pos <= j <= n,
                forall|k: int| pos <= k < j ==> s@[k] != '\n',
            decreases n - j,
        {
            j += 1;
        }
        proof {
            assert forall|i: int| 0 <= i < j - pos implies tail[i] != '\n' by {
                assert(tail[i] == s@[pos + i]);
            }
            if j < n {
                assert(tail[j - pos] == s@[j as int]);
            }
            lemma_find_nl_at(tail, j - pos as int);
        }
        let mut line: Vec<char> = Vec::new();
        let mut k: usize = pos;
        while k < j
            invariant
                pos <= k <= j <= n,
                n == s@.len(),
                line@ == s@.subrange(pos as int, k as int),
            decreases j - k,
        {
            line.push(s[k]);
            proof {
                assert(line@ =~= s@.subrange(pos as int, k as int + 1));
            }
            k += 1;
        }
        let ghost before = out.deep_view();
        out.push(line);
        proof {
            assert(out.deep_view() =~~= before.push(line@));
            assert(tail.take(j - pos as int) =~= s@.subrange(pos as int, j as int));
        }
        if j == n {
            // final line without a terminator
            proof {
                assert(tail =~= s@.subrange(pos as int, n as int));
                assert(find_nl(tail) == tail.len());
                assert(spec_split(tail) == seq![tail]);
                assert(line@ == tail);
                assert(before + spec_split(tail) =~~= out.deep_view());
                assert(spec_split(s@) == out.deep_view() + spec_split(
                    s@.skip(n as int),
                )) by {
                    assert(s@.skip(n as int) =~= Seq::<char>::empty());
                    assert(spec_split(Seq::<char>::empty())
                        == Seq::<Seq<char>>::empty());
                    assert(out.deep_view() + Seq::<Seq<char>>::empty() =~= out.deep_view());
                }
            }
            pos = n;
        } else {
            proof {
                assert(tail.len() > 0);
                assert(find_nl(tail) == j - pos);
                assert(find_nl(tail) < tail.len());
                assert(spec_split(tail) == seq![tail.take(j - pos as int)] + spec_split(
                    tail.skip(j - pos as int + 1),
                ));
                assert(tail.skip(j - pos as int + 1) =~= s@.skip(j as int + 1));
                assert(before + spec_split(tail) =~~= out.deep_view() + spec_split(
                    s@.skip(j as int + 1),
                ));
            }
            pos = j + 1;
        }
    }
    proof {
        assert(s@.skip(n as int) =~= Seq::<char>::empty());
        assert(spec_split(Seq::<char>::empty()) == Seq::<Seq<char>>::empty());
        assert(out.deep_view() + Seq::<Seq<char>>::empty() =~= out.deep_view());
    }
    out
}

} // verus!
