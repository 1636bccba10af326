use vstd::prelude::*;
use vstd::string::*;

verus! {

/// `text` with `rep` written before each of its characters and once more at
/// the end: what replacing the empty pattern gives.
pub open spec fn interleaved(text: Seq<char>, rep: Seq<char>) -> Seq<char>
    decreases text.len(),
{
    if text.len() == 0 {
        rep
    } else {
        rep + seq![text[0]] + interleaved(text.drop_first(), rep)
    }
}

/// `text` with every occurrence of `pat`, found left to right and without
/// overlap, replaced by `rep`; nothing else changes.
pub open spec fn replaced(text: Seq<char>, pat: Seq<char>, rep: Seq<char>) -> Seq<char>
    decreases text.len(),
{
    if pat.len() == 0 {
        interleaved(text, rep)
    } else if text.len() < pat.len() {
        text
    } else if text.subrange(0, pat.len() as int) == pat {
        rep + replaced(text.subrange(pat.len() as int, text.len() as int), pat, rep)
    } else {
        seq![text[0]] + replaced(text.drop_first(), pat, rep)
    }
}

/// `pat` stands somewhere in `text`.
pub open spec fn occurs_in(text: Seq<char>, pat: Seq<char>) -> bool {
    exists|i: int|
        0 <= i && i + pat.len() <= text.len() && #[trigger] text.subrange(i, i + pat.len()) == pat
}

/// Replacing a non-empty pattern that does not occur in the text leaves the
/// text as it was.
pub proof fn lemma_replace_absent_is_identity(text: Seq<char>, pat: Seq<char>, rep: Seq<char>)
    requires
        pat.len() > 0,
        !occurs_in(text, pat),
    ensures
        replaced(text, pat, rep) == text,
    decreases text.len(),
{
    if text.len() >= pat.len() {
        assert(text.subrange(0, pat.len() as int) != pat) by {
            if text.subrange(0, pat.len() as int) == pat {
                assert(text.subrange(0int, 0int + pat.len()) == pat);
            }
        }
        let rest = text.drop_first();
        assert forall|i: int|
            0 <= i && i + pat.len() <= rest.len() implies #[trigger] rest.subrange(i, i + pat.len())
            != pat by {
            assert(rest.subrange(i, i + pat.len()) =~= text.subrange(i + 1, i + 1 + pat.len()));
        }
        lemma_replace_absent_is_identity(rest, pat, rep);
        assert(seq![text[0]] + rest =~= text);
    }
}

/// The characters of `s`, in order.
pub(crate) fn chars_of(s: &str) -> (r: Vec<char>)
    ensures
        r@ == s@,
{
    broadcast use vstd::string::group_string_axioms;
    let mut v: Vec<char> = Vec::new();
    for c in it: s.chars()
        invariant
            it.seq() == s@,
            v@ == it.seq().subrange(0, it.index() as int),
    {
        v.push(c);
    }
    assert(v@ =~= s@);
    v
}

/// Whether `pat` stands in `t` at position `at`.
fn matches_at(t: &Vec<char>, at: usize, pat: &Vec<char>) -> (r: bool)
    requires
        at + pat@.len() <= t@.len(),
    ensures
        r == (t@.subrange(at as int, at + pat@.len()) == pat@),
{
    let m = pat.len();
    let tl = t.len();
    let mut j: usize = 0;
    while j < m
        invariant
            m == pat@.len(),
            tl == t@.len(),
            at + m <= tl,
            j <= m,
            forall|k: int| 0 <= k < j ==> t@[at + k] == pat@[k],
        decreases m - j,
    {
        if t[at + j] != pat[j] {
            assert(t@.subrange(at as int, at + m)[j as int] != pat@[j as int]);
            return false;
        }
        j = j + 1;
    }
    assert(t@.subrange(at as int, at + m) =~= pat@);
    true
}

/// `text` with every occurrence of `pat` replaced by `rep`, left to right and
/// without overlap, as `str::replace` does.
pub fn replace_all(text: &str, pat: &str, rep: &str) -> (r: String)
    ensures
        r@ == replaced(text@, pat@, rep@),
{
    let t = chars_of(text);
    let p = chars_of(pat);
    let n = t.len();
    let m = p.len();
    let mut out = String::new();
    assert(t@.subrange(0, n as int) =~= t@);
    if m == 0 {
        let mut i: usize = 0;
        while i < n
            invariant
                n == t@.len(),
                t@ == text@,
                p@ == pat@,
                m == 0,
                i <= n,
                out@ + interleaved(t@.subrange(i as int, n as int), rep@) == replaced(text@, pat@, rep@),
            decreases n - i,
        {
            let ghost rest = t@.subrange(i as int, n as int);
            assert(rest.drop_first() =~= t@.subrange(i + 1, n as int));
            assert(rest[0] == t@[i as int]);
            let ghost before = out@;
            out.append(rep);
            out.append(text.substring_char(i, i + 1));
            assert(text@.subrange(i as int, i + 1) =~= seq![t@[i as int]]);
            assert(out@ + interleaved(t@.subrange(i + 1, n as int), rep@) =~= before + interleaved(rest, rep@));
            i = i + 1;
        }
        assert(t@.subrange(n as int, n as int) =~= Seq::<char>::empty());
        out.append(rep);
        return out;
    }
    let mut start: usize = 0;
    let mut i: usize = 0;
    assert(t@.subrange(0, 0) =~= Seq::<char>::empty());
    assert(out@ + Seq::<char>::empty() + replaced(t@, p@, rep@) =~= replaced(t@, p@, rep@));
    while i <= n && m <= n - i
        invariant
            n == t@.len(),
            t@ == text@,
            p@ == pat@,
            m == p@.len(),
            m > 0,
            start <= i <= n,
            out@ + t@.subrange(start as int, i as int) + replaced(t@.subrange(i as int, n as int), p@, rep@)
                == replaced(text@, pat@, rep@),
        decreases n - i,
    {
        let ghost rest = t@.subrange(i as int, n as int);
        let ghost before = out@;
        if matches_at(&t, i, &p) {
            assert(rest.subrange(0, m as int) =~= t@.subrange(i as int, i + m));
            assert(rest.subrange(m as int, rest.len() as int) =~= t@.subrange(i + m, n as int));
            let ghost old_start = start;
            let ghost old_i = i;
            out.append(text.substring_char(start, i));
            out.append(rep);
            i = i + m;
            start = i;
            assert(t@.subrange(start as int, i as int) =~= Seq::<char>::empty());
            assert(replaced(rest, p@, rep@) == rep@ + replaced(t@.subrange(i as int, n as int), p@, rep@));
            assert(out@ + t@.subrange(start as int, i as int) + replaced(t@.subrange(i as int, n as int), p@, rep@)
                =~= before + t@.subrange(old_start as int, old_i as int) + replaced(rest, p@, rep@));
        } else {
            assert(rest.subrange(0, m as int) =~= t@.subrange(i as int, i + m));
            assert(rest.drop_first() =~= t@.subrange(i + 1, n as int));
            let ghost old_start = start;
            i = i + 1;
            assert(t@.subrange(old_start as int, i as int) =~= t@.subrange(old_start as int, i - 1)
                + seq![t@[i - 1]]);
            assert(out@ + t@.subrange(start as int, i as int) + replaced(t@.subrange(i as int, n as int), p@, rep@)
                =~= before + t@.subrange(start as int, i - 1) + replaced(rest, p@, rep@));
        }
    }
    let ghost rest = t@.subrange(i as int, n as int);
    assert(replaced(rest, p@, rep@) == rest);
    assert(t@.subrange(start as int, i as int) + rest =~= t@.subrange(start as int, n as int));
    out.append(text.substring_char(start, n));
    assert(out@ =~= replaced(text@, pat@, rep@));
    out
}

} // verus!
