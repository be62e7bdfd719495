//! Verified helpers over strings: equality, substring search, splitting,
//! and decimal parsing. All contracts are stated over `Seq<char>` views.

use vstd::prelude::*;
use vstd::string::StrSliceExecFns;

verus! {

/// Relies on std's `String::push`: appends one character at the end.
#[verifier::external_body]
pub fn push_char(s: &mut String, c: char)
    ensures
        final(s)@ == old(s)@.push(c),
{
    s.push(c);
}

/// Character-for-character equality of two string slices.
pub fn str_eq(a: &str, b: &str) -> (r: bool)
    ensures
        r == (a@ == b@),
{
    let alen = a.unicode_len();
    let blen = b.unicode_len();
    if alen != blen {
        return false;
    }
    let mut i: usize = 0;
    while i < alen
        invariant
            a@.len() == alen,
            b@.len() == alen,
            i <= alen,
            forall|j: int| 0 <= j < i ==> a@[j] == b@[j],
        decreases alen - i,
    {
        if a.get_char(i) != b.get_char(i) {
            return false;
        }
        i += 1;
    }
    proof {
        assert(a@ =~= b@);
    }
    true
}

/// `p` occurs as a contiguous subsequence of `s` starting at `i`.
pub open spec fn matches_at(s: Seq<char>, p: Seq<char>, i: int) -> bool {
    0 <= i && i + p.len() <= s.len() && s.subrange(i, i + p.len()) == p
}

/// `p` occurs somewhere inside `s`.
pub open spec fn contains_seq(s: Seq<char>, p: Seq<char>) -> bool {
    exists|i: int| matches_at(s, p, i)
}

/// Substring search: does `p` occur anywhere in `s`?
pub fn contains_sub(s: &str, p: &str) -> (r: bool)
    ensures
        r == contains_seq(s@, p@),
{
    let slen = s.unicode_len();
    let plen = p.unicode_len();
    if plen > slen {
        proof {
            assert(forall|i: int| !matches_at(s@, p@, i));
        }
        return false;
    }
    let mut i: usize = 0;
    while i <= slen - plen
        invariant
            s@.len() == slen,
            p@.len() == plen,
            plen <= slen,
            i <= slen - plen + 1,
            forall|k: int| 0 <= k < i ==> !matches_at(s@, p@, k),
        decreases slen - plen - i + 1,
    {
        let mut j: usize = 0;
        let mut ok = true;
        while j < plen
            invariant
                s@.len() == slen,
                p@.len() == plen,
                plen <= slen,
                i <= slen - plen,
                j <= plen,
                ok ==> forall|t: int| 0 <= t < j ==> s@[i + t] == p@[t],
                !ok ==> exists|t: int| 0 <= t < j && s@[i + t] != p@[t],
            decreases plen - j,
        {
            if s.get_char(i + j) != p.get_char(j) {
                ok = false;
            }
            j += 1;
        }
        if ok {
            proof {
                assert(s@.subrange(i as int, i + p@.len()) =~= p@);
                assert(matches_at(s@, p@, i as int));
            }
            return true;
        }
        proof {
            let t = choose|t: int| 0 <= t < plen && s@[i + t] != p@[t];
            assert(s@.subrange(i as int, i + p@.len())[t] == s@[i + t]);
            assert(!matches_at(s@, p@, i as int));
        }
        i += 1;
    }
    proof {
        assert(forall|k: int| matches_at(s@, p@, k) ==> 0 <= k <= slen - plen);
    }
    false
}

/// Splitting a character sequence on a separator, the way std's `split`
/// behaves: an empty input gives one empty field, and every separator
/// starts a new field.
pub open spec fn split_seq(s: Seq<char>, sep: char) -> Seq<Seq<char>>
    decreases s.len(),
{
    if s.len() == 0 {
        seq![Seq::<char>::empty()]
    } else if s[0] == sep {
        seq![Seq::<char>::empty()] + split_seq(s.drop_first(), sep)
    } else {
        let rest = split_seq(s.drop_first(), sep);
        seq![seq![s[0]] + rest[0]] + rest.drop_first()
    }
}

pub proof fn lemma_split_seq_len(s: Seq<char>, sep: char)
    ensures
        split_seq(s, sep).len() >= 1,
    decreases s.len(),
{
    if s.len() > 0 {
        lemma_split_seq_len(s.drop_first(), sep);
    }
}

/// Prepends `c` to the first field of `parts`.
spec fn cons_first(c: Seq<char>, parts: Seq<Seq<char>>) -> Seq<Seq<char>> {
    seq![c + parts[0]] + parts.drop_first()
}

/// Splits `s` on `sep` into owned fields.
pub fn split_str(s: &str, sep: char) -> (parts: Vec<String>)
    ensures
        parts.deep_view() == split_seq(s@, sep),
{
    let n = s.unicode_len();
    let mut parts: Vec<String> = Vec::new();
    let ghost mut done: Seq<Seq<char>> = Seq::empty();
    let mut cur: String = String::new();
    let mut i: usize = 0;
    proof {
        assert(s@.subrange(0, n as int) =~= s@);
        assert(done + cons_first(cur@, split_seq(s@, sep)) =~~= cons_first(
            Seq::<char>::empty(),
            split_seq(s@, sep),
        ));
        lemma_split_seq_len(s@, sep);
        assert(cons_first(Seq::<char>::empty(), split_seq(s@, sep)) =~~= split_seq(s@, sep));
    }
    while i < n
        invariant
            s@.len() == n,
            i <= n,
            parts@.len() == done.len(),
            forall|k: int| 0 <= k < done.len() ==> #[trigger] parts@[k]@ == done[k],
            split_seq(s@, sep) == done + cons_first(
                cur@,
                split_seq(s@.subrange(i as int, n as int), sep),
            ),
        decreases n - i,
    {
        let ghost suffix = s@.subrange(i as int, n as int);
        let ghost suffix2 = s@.subrange(i + 1, n as int);
        let ghost r2 = split_seq(suffix2, sep);
        proof {
            assert(suffix.len() > 0);
            assert(suffix[0] == s@[i as int]);
            assert(suffix.drop_first() =~= suffix2);
            lemma_split_seq_len(suffix2, sep);
        }
        let c = s.get_char(i);
        if c == sep {
            proof {
                assert(split_seq(suffix, sep) == seq![Seq::<char>::empty()] + r2);
                assert(cons_first(cur@, seq![Seq::<char>::empty()] + r2) =~~= seq![cur@] + r2);
                assert(cons_first(Seq::<char>::empty(), r2) =~~= r2);
                assert(done + (seq![cur@] + r2) =~~= (done + seq![cur@]) + cons_first(
                    Seq::<char>::empty(),
                    r2,
                ));
            }
            let ghost curv = cur@;
            parts.push(cur);
            proof {
                done = done + seq![curv];
            }
            cur = String::new();
        } else {
            proof {
                assert(split_seq(suffix, sep) == seq![seq![s@[i as int]] + r2[0]]
                    + r2.drop_first());
                assert(cons_first(cur@, split_seq(suffix, sep)) =~~= cons_first(
                    cur@.push(s@[i as int]),
                    r2,
                ));
            }
            push_char(&mut cur, c);
        }
        i += 1;
    }
    proof {
        assert(s@.subrange(n as int, n as int) =~= Seq::<char>::empty());
        assert(cons_first(cur@, split_seq(s@.subrange(n as int, n as int), sep)) =~~= seq![cur@]);
    }
    let ghost curv = cur@;
    parts.push(cur);
    proof {
        assert(parts.deep_view() =~= done + seq![curv]);
    }
    parts
}

/// A decimal digit.
pub open spec fn is_digit(c: char) -> bool {
    '0' <= c && c <= '9'
}

pub open spec fn digit_val(c: char) -> int {
    c as int - '0' as int
}

pub open spec fn all_digits(s: Seq<char>) -> bool {
    forall|i: int| 0 <= i < s.len() ==> is_digit(#[trigger] s[i])
}

/// The value of a decimal digit string, most significant first.
pub open spec fn dec_val(s: Seq<char>) -> int
    decreases s.len(),
{
    if s.len() == 0 {
        0
    } else {
        dec_val(s.drop_last()) * 10 + digit_val(s.last())
    }
}

proof fn lemma_dec_val_nonneg(s: Seq<char>)
    requires
        all_digits(s),
    ensures
        dec_val(s) >= 0,
    decreases s.len(),
{
    if s.len() > 0 {
        assert(all_digits(s.drop_last())) by {
            assert(forall|i: int| 0 <= i < s.len() - 1 ==> s.drop_last()[i] == s[i]);
        }
        lemma_dec_val_nonneg(s.drop_last());
    }
}

proof fn lemma_dec_val_prefix_le(s: Seq<char>, i: int)
    requires
        all_digits(s),
        0 <= i <= s.len(),
    ensures
        dec_val(s.subrange(0, i)) <= dec_val(s),
    decreases s.len() - i,
{
    if i < s.len() {
        let p = s.subrange(0, i);
        let q = s.subrange(0, i + 1);
        assert(q.drop_last() =~= p);
        assert(all_digits(p));
        lemma_dec_val_nonneg(p);
        assert(dec_val(q) == dec_val(p) * 10 + digit_val(q.last()));
        assert(digit_val(q.last()) >= 0);
        assert(dec_val(p) * 10 >= dec_val(p)) by (nonlinear_arith)
            requires dec_val(p) >= 0;
        lemma_dec_val_prefix_le(s, i + 1);
    } else {
        assert(s.subrange(0, i) =~= s);
    }
}

/// Parses a non-empty all-digit decimal string as a `u16`.
/// Returns `None` on an empty string, a non-digit, or overflow.
pub fn parse_u16(s: &str) -> (r: Option<u16>)
    ensures
        match r {
            Some(v) => s@.len() > 0 && all_digits(s@) && dec_val(s@) == v as int,
            None => !(s@.len() > 0 && all_digits(s@) && dec_val(s@) <= u16::MAX as int),
        },
{
    let n = s.unicode_len();
    if n == 0 {
        return None;
    }
    let mut acc: u32 = 0;
    let mut i: usize = 0;
    while i < n
        invariant
            s@.len() == n,
            i <= n,
            all_digits(s@.subrange(0, i as int)),
            acc as int == dec_val(s@.subrange(0, i as int)),
            acc <= u16::MAX,
        decreases n - i,
    {
        let c = s.get_char(i);
        if !('0' <= c && c <= '9') {
            proof {
                assert(s@[i as int] == c);
                assert(!is_digit(s@[i as int]));
            }
            return None;
        }
        let d: u32 = (c as u32) - ('0' as u32);
        let next: u32 = acc * 10 + d;
        proof {
            let p = s@.subrange(0, i as int);
            let q = s@.subrange(0, i + 1);
            assert(q.drop_last() =~= p);
            assert(q.last() == s@[i as int]);
            assert(all_digits(q));
        }
        if next > u16::MAX as u32 {
            proof {
                let q = s@.subrange(0, i + 1);
                assert(dec_val(q) == next as int);
                if all_digits(s@) && dec_val(s@) <= u16::MAX as int {
                    lemma_dec_val_prefix_le(s@, i + 1);
                    assert(false);
                }
            }
            return None;
        }
        acc = next;
        i += 1;
    }
    proof {
        assert(s@.subrange(0, n as int) =~= s@);
    }
    Some(acc as u16)
}

/// `p` is an initial segment of `s`.
pub open spec fn starts_with_seq(s: Seq<char>, p: Seq<char>) -> bool {
    p.len() <= s.len() && s.subrange(0, p.len() as int) == p
}

/// Prefix test on string slices.
pub fn starts_with(s: &str, p: &str) -> (r: bool)
    ensures
        r == starts_with_seq(s@, p@),
{
    let slen = s.unicode_len();
    let plen = p.unicode_len();
    if plen > slen {
        return false;
    }
    let mut j: usize = 0;
    while j < plen
        invariant
            s@.len() == slen,
            p@.len() == plen,
            plen <= slen,
            j <= plen,
            forall|t: int| 0 <= t < j ==> s@[t] == p@[t],
        decreases plen - j,
    {
        if s.get_char(j) != p.get_char(j) {
            proof {
                assert(s@.subrange(0, plen as int)[j as int] == s@[j as int]);
            }
            return false;
        }
        j += 1;
    }
    proof {
        assert(s@.subrange(0, plen as int) =~= p@);
    }
    true
}

/// The characters of `s` with every occurrence of `c` removed.
pub open spec fn remove_char(s: Seq<char>, c: char) -> Seq<char> {
    s.filter(|x: char| x != c)
}

/// Removes every occurrence of `c` from `s`.
pub fn strip_char(s: &str, c: char) -> (r: String)
    ensures
        r@ == remove_char(s@, c),
{
    let n = s.unicode_len();
    let mut out = String::new();
    let mut i: usize = 0;
    proof {
        reveal(Seq::filter);
        assert(s@.subrange(0, 0) =~= Seq::<char>::empty());
    }
    while i < n
        invariant
            s@.len() == n,
            i <= n,
            out@ == remove_char(s@.subrange(0, i as int), c),
        decreases n - i,
    {
        let ch = s.get_char(i);
        proof {
            reveal(Seq::filter);
            let p = s@.subrange(0, i as int);
            let q = s@.subrange(0, i + 1);
            assert(q.drop_last() =~= p);
            assert(q.last() == s@[i as int]);
        }
        if ch != c {
            push_char(&mut out, ch);
        }
        i += 1;
    }
    proof {
        assert(s@.subrange(0, n as int) =~= s@);
    }
    out
}

/// The character of one decimal digit value.
pub open spec fn digit_char(d: int) -> char {
    ((d + 0x30) as u8) as char
}

/// The decimal digits of `n`, most significant first, no leading zero
/// except for zero itself.
pub open spec fn dec_digits(n: nat) -> Seq<char>
    decreases n,
{
    if n < 10 {
        seq![digit_char(n as int)]
    } else {
        dec_digits(n / 10).push(digit_char((n % 10) as int))
    }
}

/// Appends the decimal rendering of `n`.
pub fn push_dec_u16(out: &mut String, n: u16)
    ensures
        final(out)@ == old(out)@ + dec_digits(n as nat),
    decreases n,
{
    if n < 10 {
        let c = (0x30u8 + n as u8) as char;
        push_char(out, c);
        proof {
            assert(out@ =~= old(out)@ + dec_digits(n as nat));
        }
    } else {
        push_dec_u16(out, n / 10);
        let c = (0x30u8 + (n % 10) as u8) as char;
        push_char(out, c);
        proof {
            assert(out@ =~= old(out)@ + dec_digits(n as nat));
        }
    }
}

} // verus!
