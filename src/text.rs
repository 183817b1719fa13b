//! Character-sequence helpers: hexadecimal formatting, substring search and
//! placeholder replacement.

use vstd::prelude::*;

verus! {

broadcast use vstd::string::group_string_axioms;

/// The sixteen upper-case hexadecimal digits, in order.
pub open spec fn hex_digit(d: int) -> char {
    "0123456789ABCDEF"@[d]
}

/// `v` as exactly four upper-case hexadecimal digits, most significant first.
pub open spec fn hex4(v: u16) -> Seq<char> {
    seq![
        hex_digit(v as int / 4096),
        hex_digit((v as int / 256) % 16),
        hex_digit((v as int / 16) % 16),
        hex_digit(v as int % 16),
    ]
}

fn hex_digit_str(d: u16) -> (r: &'static str)
    requires
        d < 16,
    ensures
        r@ == seq![hex_digit(d as int)],
{
    let digits = "0123456789ABCDEF";
    proof {
        reveal_strlit("0123456789ABCDEF");
    }
    digits.substring_char(d as usize, d as usize + 1)
}

/// Formats `v` as four upper-case hexadecimal digits, zero-padded.
pub fn format_hex4(v: u16) -> (r: String)
    ensures
        r@ == hex4(v),
{
    let mut r = String::new();
    r.append(hex_digit_str(v / 4096));
    r.append(hex_digit_str((v / 256) % 16));
    r.append(hex_digit_str((v / 16) % 16));
    r.append(hex_digit_str(v % 16));
    assert(r@ =~= hex4(v));
    r
}

/// Whether `pat` occurs in `s` starting at position `i`.
pub open spec fn occurs_at(s: Seq<char>, pat: Seq<char>, i: int) -> bool {
    0 <= i && i + pat.len() <= s.len() && s.subrange(i, i + pat.len()) == pat
}

/// Whether `pat` occurs anywhere in `s`.
pub open spec fn contains_seq(s: Seq<char>, pat: Seq<char>) -> bool {
    exists|i: int| occurs_at(s, pat, i)
}

/// `s` with every non-overlapping occurrence of `pat` replaced by `rep`,
/// scanning from the left; `s` itself when `pat` is empty.
pub open spec fn replace_seq(s: Seq<char>, pat: Seq<char>, rep: Seq<char>) -> Seq<char>
    decreases s.len(),
{
    if pat.len() == 0 || s.len() < pat.len() {
        s
    } else if s.subrange(0, pat.len() as int) == pat {
        rep + replace_seq(s.skip(pat.len() as int), pat, rep)
    } else {
        seq![s[0]] + replace_seq(s.skip(1), pat, rep)
    }
}

/// The characters of `s`, in order.
pub fn chars_of(s: &str) -> (r: Vec<char>)
    ensures
        r@ == s@,
{
    let n = s.unicode_len();
    let mut r: Vec<char> = Vec::new();
    let mut i: usize = 0;
    while i < n
        invariant
            n == s@.len(),
            i <= n,
            r@ == s@.subrange(0, i as int),
        decreases n - i,
    {
        r.push(s.get_char(i));
        i = i + 1;
        assert(r@ =~= s@.subrange(0, i as int));
    }
    assert(r@ =~= s@);
    r
}

fn occurs_at_exec(s: &Vec<char>, pat: &Vec<char>, i: usize) -> (r: bool)
    ensures
        r == occurs_at(s@, pat@, i as int),
{
    if i > s.len() || pat.len() > s.len() - i {
        return false;
    }
    let sl = s.len();
    let mut k: usize = 0;
    while k < pat.len()
        invariant
            sl == s@.len(),
            i + pat@.len() <= sl,
            k <= pat@.len(),
            forall|j: int| 0 <= j < k ==> s@[i + j] == pat@[j],
        decreases pat@.len() - k,
    {
        if s[i + k] != pat[k] {
            assert(s@.subrange(i as int, i + pat@.len())[k as int] != pat@[k as int]);
            return false;
        }
        k = k + 1;
    }
    assert(s@.subrange(i as int, i + pat@.len()) =~= pat@);
    true
}

/// Whether `pat` occurs in `s`.
pub fn contains_text(s: &str, pat: &str) -> (r: bool)
    ensures
        r == contains_seq(s@, pat@),
{
    let cs = chars_of(s);
    let ps = chars_of(pat);
    if ps.len() == 0 {
        assert(s@.subrange(0, 0) =~= pat@);
        assert(occurs_at(s@, pat@, 0));
        return true;
    }
    let n = cs.len();
    let mut i: usize = 0;
    while i < n && ps.len() <= n - i
        invariant
            cs@ == s@,
            ps@ == pat@,
            n == s@.len(),
            i <= n,
            forall|j: int| 0 <= j < i ==> !occurs_at(s@, pat@, j),
        decreases n - i,
    {
        if occurs_at_exec(&cs, &ps, i) {
            return true;
        }
        i = i + 1;
    }
    assert forall|j: int| !occurs_at(s@, pat@, j) by {
        if 0 <= j < i {
        }
    }
    false
}

proof fn lemma_replace_no_room(s: Seq<char>, pat: Seq<char>, rep: Seq<char>)
    requires
        s.len() < pat.len(),
    ensures
        replace_seq(s, pat, rep) == s,
{
}

proof fn lemma_replace_match(s: Seq<char>, pat: Seq<char>, rep: Seq<char>, i: int)
    requires
        pat.len() > 0,
        occurs_at(s, pat, i),
    ensures
        replace_seq(s.skip(i), pat, rep) == rep + replace_seq(s.skip(i + pat.len()), pat, rep),
{
    assert(s.skip(i).subrange(0, pat.len() as int) =~= s.subrange(i, i + pat.len()));
    assert(s.skip(i).skip(pat.len() as int) =~= s.skip(i + pat.len()));
}

proof fn lemma_replace_miss(s: Seq<char>, pat: Seq<char>, rep: Seq<char>, i: int)
    requires
        pat.len() > 0,
        0 <= i,
        i + pat.len() <= s.len(),
        !occurs_at(s, pat, i),
    ensures
        replace_seq(s.skip(i), pat, rep) == seq![s[i]] + replace_seq(s.skip(i + 1), pat, rep),
{
    assert(s.skip(i).subrange(0, pat.len() as int) =~= s.subrange(i, i + pat.len()));
    assert(s.skip(i).skip(1) =~= s.skip(i + 1));
}

/// `s` with every non-overlapping occurrence of `pat` replaced by `rep`,
/// left to right.
pub fn replace_text(s: &str, pat: &str, rep: &str) -> (r: String)
    requires
        pat@.len() > 0,
    ensures
        r@ == replace_seq(s@, pat@, rep@),
{
    let cs = chars_of(s);
    let ps = chars_of(pat);
    let n = cs.len();
    let m = ps.len();
    let mut out = String::new();
    let mut start: usize = 0;
    let mut i: usize = 0;
    assert(s@.skip(0) =~= s@);
    assert(out@ + s@.subrange(0, 0) =~= Seq::<char>::empty());
    while i < n && m <= n - i
        invariant
            cs@ == s@,
            ps@ == pat@,
            n == s@.len(),
            m == pat@.len(),
            m > 0,
            start <= i <= n,
            out@ + s@.subrange(start as int, i as int) + replace_seq(s@.skip(i as int), pat@, rep@)
                == replace_seq(s@, pat@, rep@),
        decreases n - i,
    {
        if occurs_at_exec(&cs, &ps, i) {
            proof {
                lemma_replace_match(s@, pat@, rep@, i as int);
            }
            let ghost before = out@;
            let ghost chunk = s@.subrange(start as int, i as int);
            let ghost rest = replace_seq(s@.skip(i + m), pat@, rep@);
            out.append(s.substring_char(start, i));
            out.append(rep);
            i = i + m;
            start = i;
            assert(out@ + s@.subrange(start as int, i as int) + rest =~= before + chunk + (rep@ + rest));
        } else {
            proof {
                lemma_replace_miss(s@, pat@, rep@, i as int);
                assert(s@.subrange(start as int, i as int) + seq![s@[i as int]]
                    =~= s@.subrange(start as int, i + 1));
            }
            i = i + 1;
        }
    }
    proof {
        if i < n {
            lemma_replace_no_room(s@.skip(i as int), pat@, rep@);
        }
        assert(s@.subrange(start as int, i as int) + s@.skip(i as int) =~= s@.subrange(start as int, n as int));
    }
    out.append(s.substring_char(start, n));
    out
}

} // verus!
