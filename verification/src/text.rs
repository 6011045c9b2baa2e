//! Text primitives the rest of the library is built from: searching for a
//! pattern, cutting substrings, joining, and rendering integers in decimal.
use vstd::prelude::*;
use vstd::string::StrSliceExecFns;
use vstd::string::StringExecFns;

verus! {

/// `pat` occurs in `s` starting at index `i`.
pub open spec fn occurs_at(s: Seq<char>, pat: Seq<char>, i: int) -> bool {
    &&& 0 <= i
    &&& i + pat.len() <= s.len()
    &&& s.subrange(i, i + pat.len()) =~= pat
}

/// `pat` occurs somewhere in `s`.
pub open spec fn contains_seq(s: Seq<char>, pat: Seq<char>) -> bool {
    exists|i: int| #[trigger] occurs_at(s, pat, i)
}

/// `i` is the first place at or after `from` where `pat` occurs in `s`.
pub open spec fn is_first_occurrence_from(s: Seq<char>, pat: Seq<char>, from: int, i: int) -> bool {
    &&& from <= i
    &&& occurs_at(s, pat, i)
    &&& forall|j: int| from <= j < i ==> !#[trigger] occurs_at(s, pat, j)
}

/// `pat` does not occur in `s` at or after `from`.
pub open spec fn absent_from(s: Seq<char>, pat: Seq<char>, from: int) -> bool {
    forall|j: int| from <= j ==> !#[trigger] occurs_at(s, pat, j)
}

/// The index of the first occurrence of `pat` in `s` at or after `from`, if any.
pub open spec fn first_occurrence_from(s: Seq<char>, pat: Seq<char>, from: int) -> Option<int> {
    if exists|i: int| is_first_occurrence_from(s, pat, from, i) {
        Some(choose|i: int| is_first_occurrence_from(s, pat, from, i))
    } else {
        None
    }
}

/// The first occurrence is unique.
pub proof fn lemma_first_occurrence_unique(s: Seq<char>, pat: Seq<char>, from: int, i: int, k: int)
    requires
        is_first_occurrence_from(s, pat, from, i),
        is_first_occurrence_from(s, pat, from, k),
    ensures
        i == k,
{
    if i < k {
        assert(!occurs_at(s, pat, i));
    } else if k < i {
        assert(!occurs_at(s, pat, k));
    }
}

/// What `first_occurrence_from` gives, in terms of the two cases.
pub proof fn lemma_first_occurrence_from(s: Seq<char>, pat: Seq<char>, from: int)
    ensures
        match first_occurrence_from(s, pat, from) {
            Some(i) => is_first_occurrence_from(s, pat, from, i),
            None => absent_from(s, pat, from),
        },
{
    if !(exists|i: int| is_first_occurrence_from(s, pat, from, i)) {
        assert forall|j: int| from <= j implies !#[trigger] occurs_at(s, pat, j) by {
            if occurs_at(s, pat, j) {
                lemma_least_occurrence(s, pat, from, j);
            }
        }
    }
}

/// If `pat` occurs at `j >= from`, some occurrence at or after `from` is the first.
proof fn lemma_least_occurrence(s: Seq<char>, pat: Seq<char>, from: int, j: int)
    requires
        from <= j,
        occurs_at(s, pat, j),
    ensures
        exists|i: int| is_first_occurrence_from(s, pat, from, i),
    decreases j - from,
{
    if exists|k: int| from <= k < j && occurs_at(s, pat, k) {
        let k = choose|k: int| from <= k < j && occurs_at(s, pat, k);
        lemma_least_occurrence(s, pat, from, k);
    } else {
        assert(is_first_occurrence_from(s, pat, from, j));
    }
}

/// Does `pat` occur in `hay` at index `i`?
pub fn matches_at(hay: &Vec<char>, pat: &Vec<char>, i: usize) -> (r: bool)
    ensures
        r == occurs_at(hay@, pat@, i as int),
{
    if i > hay.len() || pat.len() > hay.len() - i {
        return false;
    }
    let mut k: usize = 0;
    while k < pat.len()
        invariant
            i + pat.len() <= hay.len(),
            k <= pat.len(),
            forall|m: int| 0 <= m < k ==> hay@[i + m] == pat@[m],
        decreases pat.len() - k,
    {
        if hay[i + k] != pat[k] {
            assert(hay@.subrange(i as int, i + pat.len())[k as int] != pat@[k as int]);
            return false;
        }
        k = k + 1;
    }
    assert(hay@.subrange(i as int, i + pat.len()) =~= pat@);
    true
}

/// The first index at or after `from` where `pat` occurs in `hay`.
pub fn find_from(hay: &Vec<char>, pat: &Vec<char>, from: usize) -> (r: Option<usize>)
    ensures
        r == match first_occurrence_from(hay@, pat@, from as int) {
            Some(i) => Some(i as usize),
            None => None::<usize>,
        },
        r matches Some(i) ==> is_first_occurrence_from(hay@, pat@, from as int, i as int),
        r is None ==> absent_from(hay@, pat@, from as int),
{
    proof {
        lemma_first_occurrence_from(hay@, pat@, from as int);
    }
    if from > hay.len() {
        return None;
    }
    let mut i: usize = from;
    while i < hay.len()
        invariant
            from <= i <= hay.len(),
            forall|j: int| from <= j < i ==> !#[trigger] occurs_at(hay@, pat@, j),
        decreases hay.len() - i,
    {
        if matches_at(hay, pat, i) {
            proof {
                let f = first_occurrence_from(hay@, pat@, from as int);
                assert(is_first_occurrence_from(hay@, pat@, from as int, i as int));
                lemma_first_occurrence_unique(hay@, pat@, from as int, i as int, f->0);
            }
            return Some(i);
        }
        i = i + 1;
    }
    if matches_at(hay, pat, i) {
        proof {
            let f = first_occurrence_from(hay@, pat@, from as int);
            assert(is_first_occurrence_from(hay@, pat@, from as int, i as int));
            lemma_first_occurrence_unique(hay@, pat@, from as int, i as int, f->0);
        }
        return Some(i);
    }
    None
}

/// The characters of `s`, in order.
pub fn chars_of(s: &str) -> (out: Vec<char>)
    ensures
        out@ == s@,
{
    let mut out: Vec<char> = Vec::new();
    for c in it: s.chars()
        invariant
            out@ == it.seq().take(it.index() as int),
    {
        out.push(c);
    }
    out
}

/// The characters of `s` from index `from` up to, not including, `to`.
pub fn substring(s: &str, from: usize, to: usize) -> (r: String)
    requires
        from <= to <= s@.len(),
    ensures
        r@ == s@.subrange(from as int, to as int),
{
    s.substring_char(from, to).to_owned()
}

/// `a` followed by `b`.
pub fn concat(a: &str, b: &str) -> (r: String)
    ensures
        r@ == a@ + b@,
{
    let mut r = a.to_owned();
    r.append(b);
    r
}

/// `a`, then `b`, then `c`.
pub fn concat3(a: &str, b: &str, c: &str) -> (r: String)
    ensures
        r@ == a@ + b@ + c@,
{
    let mut r = a.to_owned();
    r.append(b);
    r.append(c);
    r
}

/// Are `a` and `b` the same text?
pub fn str_eq(a: &str, b: &str) -> (r: bool)
    ensures
        r == (a@ == b@),
{
    let x = a.to_owned();
    let y = b.to_owned();
    x == y
}

/// The character that writes the digit `d`.
pub open spec fn digit_char(d: nat) -> char {
    seq!['0', '1', '2', '3', '4', '5', '6', '7', '8', '9'][d as int]
}

/// The decimal writing of `n`, most significant digit first, with no leading zeros.
pub open spec fn decimal(n: nat) -> Seq<char>
    decreases n,
{
    if n < 10 {
        seq![digit_char(n)]
    } else {
        decimal(n / 10).push(digit_char(n % 10))
    }
}

/// The decimal writing of a signed integer: a minus sign before negative ones.
pub open spec fn signed_decimal(n: int) -> Seq<char> {
    if n < 0 {
        seq!['-'] + decimal((-n) as nat)
    } else {
        decimal(n as nat)
    }
}

/// The one-character text of the digit `d`.
fn digit_str(d: u64) -> (r: String)
    requires
        d < 10,
    ensures
        r@ == seq![digit_char(d as nat)],
{
    let digits = "0123456789";
    proof {
        reveal_strlit("0123456789");
    }
    let r = substring(digits, d as usize, d as usize + 1);
    assert(r@ =~= seq![digit_char(d as nat)]);
    r
}

/// `n` written in decimal.
pub fn decimal_u64(n: u64) -> (r: String)
    ensures
        r@ == decimal(n as nat),
    decreases n,
{
    if n < 10 {
        digit_str(n)
    } else {
        let mut r = decimal_u64(n / 10);
        let d = digit_str(n % 10);
        r.append(d.as_str());
        assert(r@ =~= decimal((n / 10) as nat).push(digit_char((n % 10) as nat)));
        r
    }
}

/// `n` written in decimal, with a minus sign when negative.
pub fn decimal_i64(n: i64) -> (r: String)
    ensures
        r@ == signed_decimal(n as int),
{
    if n < 0 {
        let magnitude: u64 = if n == i64::MIN {
            9223372036854775808u64
        } else {
            (-n) as u64
        };
        let digits = decimal_u64(magnitude);
        proof {
            reveal_strlit("-");
        }
        let r = concat("-", digits.as_str());
        assert(r@ =~= signed_decimal(n as int));
        r
    } else {
        decimal_u64(n as u64)
    }
}

} // verus!
