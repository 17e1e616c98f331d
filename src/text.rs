use vstd::prelude::*;
use vstd::string::{StrSliceExecFns, StringExecFns};

verus! {

/// A decimal digit.
pub open spec fn is_digit(c: char) -> bool {
    '0' <= c && c <= '9'
}

/// The value of a decimal digit.
pub open spec fn digit_value(c: char) -> int {
    c as int - '0' as int
}

/// Every character of `s` is a decimal digit.
pub open spec fn all_digits(s: Seq<char>) -> bool {
    forall|i: int| 0 <= i < s.len() ==> is_digit(#[trigger] s[i])
}

/// The number that a run of decimal digits denotes, most significant first.
pub open spec fn digits_value(s: Seq<char>) -> int
    decreases s.len(),
{
    if s.len() == 0 {
        0
    } else {
        digits_value(s.drop_last()) * 10 + digit_value(s.last())
    }
}

/// The number of decimal digits at the start of `s`.
pub open spec fn digit_run_len(s: Seq<char>) -> nat
    decreases s.len(),
{
    if s.len() > 0 && is_digit(s[0]) {
        1 + digit_run_len(s.drop_first())
    } else {
        0
    }
}

/// The maximal run of decimal digits at the start of `s`.
pub open spec fn leading_digits(s: Seq<char>) -> Seq<char> {
    s.take(digit_run_len(s) as int)
}

/// `s` is a decimal numeral that fits an unsigned 64-bit integer: an optional
/// `+` followed by at least one digit and nothing else.
pub open spec fn is_u64_numeral(s: Seq<char>) -> bool {
    let ds = if s.len() > 0 && s[0] == '+' { s.drop_first() } else { s };
    ds.len() > 0 && all_digits(ds) && digits_value(ds) <= u64::MAX
}

/// The value of a numeral accepted by `is_u64_numeral`.
pub open spec fn numeral_value(s: Seq<char>) -> int {
    let ds = if s.len() > 0 && s[0] == '+' { s.drop_first() } else { s };
    digits_value(ds)
}

/// The decimal notation of `n`, without leading zeros.
pub open spec fn decimal(n: nat) -> Seq<char>
    decreases n,
{
    if n < 10 {
        seq![digit_char(n)]
    } else {
        decimal(n / 10).push(digit_char(n % 10))
    }
}

/// The character of a digit below ten.
pub open spec fn digit_char(d: nat) -> char {
    if d == 0 { '0' }
    else if d == 1 { '1' }
    else if d == 2 { '2' }
    else if d == 3 { '3' }
    else if d == 4 { '4' }
    else if d == 5 { '5' }
    else if d == 6 { '6' }
    else if d == 7 { '7' }
    else if d == 8 { '8' }
    else { '9' }
}

/// `pat` stands in `s` starting at index `i`.
pub open spec fn occurs_at(s: Seq<char>, pat: Seq<char>, i: int) -> bool {
    0 <= i && i + pat.len() <= s.len() && s.subrange(i, i + pat.len()) == pat
}

/// `pat` stands somewhere in `s`.
pub open spec fn contains(s: Seq<char>, pat: Seq<char>) -> bool {
    exists|i: int| occurs_at(s, pat, i)
}

/// `i` is the first index at which `pat` stands in `s`.
pub open spec fn is_first_occurrence(s: Seq<char>, pat: Seq<char>, i: int) -> bool {
    occurs_at(s, pat, i) && forall|j: int| 0 <= j < i ==> !occurs_at(s, pat, j)
}

/// The first index at which `pat` stands in `s`, when it stands there at all.
pub open spec fn first_occurrence(s: Seq<char>, pat: Seq<char>) -> int {
    choose|i: int| is_first_occurrence(s, pat, i)
}

pub proof fn lemma_first_occurrence_unique(s: Seq<char>, pat: Seq<char>, i: int)
    requires
        is_first_occurrence(s, pat, i),
    ensures
        contains(s, pat),
        first_occurrence(s, pat) == i,
{
    let k = first_occurrence(s, pat);
    assert(is_first_occurrence(s, pat, k));
    if k < i {
        assert(!occurs_at(s, pat, k));
    } else if i < k {
        assert(!occurs_at(s, pat, i));
    }
}

proof fn lemma_digit_run_split(s: Seq<char>, i: int)
    requires
        0 <= i < s.len(),
        is_digit(s[i]),
    ensures
        digit_run_len(s.subrange(i, s.len() as int)) == 1 + digit_run_len(
            s.subrange(i + 1, s.len() as int),
        ),
{
    let t = s.subrange(i, s.len() as int);
    assert(t.drop_first() =~= s.subrange(i + 1, s.len() as int));
}

pub proof fn lemma_digit_run_prefix(s: Seq<char>, k: nat)
    requires
        digit_run_len(s) == k,
    ensures
        k <= s.len(),
        all_digits(s.take(k as int)),
        k < s.len() ==> !is_digit(s[k as int]),
    decreases s.len(),
{
    if s.len() > 0 && is_digit(s[0]) {
        let t = s.drop_first();
        lemma_digit_run_prefix(t, (k - 1) as nat);
        assert forall|j: int| 0 <= j < k implies is_digit(#[trigger] s.take(k as int)[j]) by {
            if j > 0 {
                assert(s.take(k as int)[j] == t.take(k - 1)[j - 1]);
            }
        }
        if k < s.len() {
            assert(s[k as int] == t[k - 1]);
        }
    }
}

/// Digits to the right only make a numeral larger.
pub proof fn lemma_digits_prefix_le(s: Seq<char>, k: int)
    requires
        all_digits(s),
        0 <= k <= s.len(),
    ensures
        digits_value(s.take(k)) <= digits_value(s),
        0 <= digits_value(s.take(k)),
    decreases s.len(),
{
    lemma_digits_nonneg(s.take(k));
    if k < s.len() {
        let t = s.drop_last();
        assert(t.take(k) =~= s.take(k));
        assert forall|j: int| 0 <= j < t.len() implies is_digit(#[trigger] t[j]) by {
            assert(t[j] == s[j]);
        }
        assert(is_digit(s[s.len() - 1]));
        assert(digits_value(s) == digits_value(t) * 10 + digit_value(s.last()));
        lemma_digits_prefix_le(t, k);
        lemma_digits_nonneg(t);
        assert(digit_value(s.last()) >= 0);
        assert(digits_value(t) <= digits_value(t) * 10) by (nonlinear_arith)
            requires digits_value(t) >= 0;
    } else {
        assert(s.take(k) =~= s);
    }
}

pub proof fn lemma_digits_nonneg(s: Seq<char>)
    requires
        all_digits(s),
    ensures
        0 <= digits_value(s),
    decreases s.len(),
{
    if s.len() > 0 {
        lemma_digits_nonneg(s.drop_last());
        assert(is_digit(s[s.len() - 1]));
    }
}

/// Copies the characters of `s` into a vector.
pub fn chars_of(s: &str) -> (r: Vec<char>)
    ensures
        r@ == s@,
{
    let n = s.unicode_len();
    let mut out: Vec<char> = Vec::new();
    let mut i: usize = 0;
    while i < n
        invariant
            n == s@.len(),
            i <= n,
            out@ == s@.take(i as int),
        decreases n - i,
    {
        let c = s.get_char(i);
        out.push(c);
        i = i + 1;
        assert(out@ =~= s@.take(i as int));
    }
    assert(out@ =~= s@);
    out
}

/// The first index at or after `from` at which `pat` stands in `s`.
pub fn find_from(s: &Vec<char>, pat: &Vec<char>, from: usize) -> (r: Option<usize>)
    requires
        from <= s@.len(),
    ensures
        match r {
            Some(i) => from <= i && occurs_at(s@, pat@, i as int) && forall|j: int|
                from <= j < i ==> !occurs_at(s@, pat@, j),
            None => forall|j: int| from <= j ==> !occurs_at(s@, pat@, j),
        },
{
    let n = s.len();
    let m = pat.len();
    if m > n {
        return None;
    }
    if m == 0 {
        assert(s@.subrange(from as int, from as int) =~= pat@);
        return Some(from);
    }
    if from > n - m {
        return None;
    }
    let mut i: usize = from;
    while i <= n - m
        invariant
            n == s@.len(),
            m == pat@.len(),
            0 < m <= n,
            from <= i <= n - m + 1,
            forall|j: int| from <= j < i ==> !occurs_at(s@, pat@, j),
        decreases n - i,
    {
        if matches_at(s, pat, i) {
            return Some(i);
        }
        i = i + 1;
    }
    None
}

/// The first index at which `pat` stands in `s`.
pub fn find(s: &Vec<char>, pat: &Vec<char>) -> (r: Option<usize>)
    ensures
        match r {
            Some(i) => is_first_occurrence(s@, pat@, i as int) && contains(s@, pat@)
                && first_occurrence(s@, pat@) == i,
            None => !contains(s@, pat@),
        },
{
    let r = find_from(s, pat, 0);
    match r {
        Some(i) => {
            proof {
                lemma_first_occurrence_unique(s@, pat@, i as int);
            }
        },
        None => {},
    }
    r
}

/// The length of the run of decimal digits that starts at index `from`.
pub fn digit_run_at(s: &Vec<char>, from: usize) -> (r: usize)
    requires
        from <= s@.len(),
    ensures
        r == digit_run_len(s@.subrange(from as int, s@.len() as int)),
        from + r <= s@.len(),
{
    let n = s.len();
    let mut i: usize = from;
    while i < n && '0' <= s[i] && s[i] <= '9'
        invariant
            n == s@.len(),
            from <= i <= n,
            digit_run_len(s@.subrange(from as int, n as int)) == (i - from) + digit_run_len(
                s@.subrange(i as int, n as int),
            ),
        decreases n - i,
    {
        proof {
            lemma_digit_run_split(s@, i as int);
        }
        i = i + 1;
    }
    if i < n {
        assert(!is_digit(s@.subrange(i as int, n as int)[0]));
    } else {
        assert(s@.subrange(i as int, n as int).len() == 0);
    }
    i - from
}

/// Reads the digits `s[from..to]` as a number, or `None` when it exceeds `u64::MAX`.
pub fn digits_to_u64(s: &Vec<char>, from: usize, to: usize) -> (r: Option<u64>)
    requires
        from <= to <= s@.len(),
        all_digits(s@.subrange(from as int, to as int)),
    ensures
        match r {
            Some(v) => v == digits_value(s@.subrange(from as int, to as int)),
            None => digits_value(s@.subrange(from as int, to as int)) > u64::MAX,
        },
{
    let ghost ds = s@.subrange(from as int, to as int);
    let mut v: u64 = 0;
    let mut i: usize = from;
    while i < to
        invariant
            from <= i <= to <= s@.len(),
            ds == s@.subrange(from as int, to as int),
            all_digits(ds),
            v == digits_value(ds.take(i - from)),
        decreases to - i,
    {
        assert(ds[i - from] == s@[i as int]);
        assert(is_digit(ds[i - from]));
        let d = (s[i] as u32 - '0' as u32) as u64;
        assert(ds.take(i - from + 1).drop_last() =~= ds.take(i - from));
        if v > (u64::MAX - d) / 10 {
            proof {
                assert(v * 10 + d > u64::MAX) by (nonlinear_arith)
                    requires v > (u64::MAX - d) / 10, d <= 9;
                lemma_digits_prefix_le(ds, i - from + 1);
            }
            return None;
        }
        assert(v * 10 + d <= u64::MAX) by (nonlinear_arith)
            requires v <= (u64::MAX - d) / 10, d <= 9;
        v = v * 10 + d;
        i = i + 1;
    }
    assert(ds.take(to - from) =~= ds);
    Some(v)
}

/// Parses a decimal numeral (an optional `+`, then digits only) into a `u64`.
pub fn parse_u64(s: &str) -> (r: Option<u64>)
    ensures
        match r {
            Some(v) => is_u64_numeral(s@) && v == numeral_value(s@),
            None => !is_u64_numeral(s@),
        },
{
    let cs = chars_of(s);
    let n = cs.len();
    let start: usize = if n > 0 && cs[0] == '+' { 1 } else { 0 };
    let ghost ds = s@.subrange(start as int, n as int);
    assert(s@.len() > 0 && s@[0] == '+' ==> ds =~= s@.drop_first());
    assert(!(s@.len() > 0 && s@[0] == '+') ==> ds =~= s@);
    let run = digit_run_at(&cs, start);
    if run == 0 || start + run != n {
        proof {
            lemma_digit_run_prefix(ds, run as nat);
            if run != 0 && start + run != n {
                assert(!is_digit(ds[run as int]));
            }
        }
        return None;
    }
    proof {
        lemma_digit_run_prefix(ds, run as nat);
        assert(ds.take(run as int) =~= ds);
    }
    digits_to_u64(&cs, start, n)
}

/// Whether `pat` stands in `s` at index `i`.
pub fn matches_at(s: &Vec<char>, pat: &Vec<char>, i: usize) -> (r: bool)
    ensures
        r == occurs_at(s@, pat@, i as int),
{
    let n = s.len();
    let m = pat.len();
    if i > n || m > n - i {
        return false;
    }
    let mut k: usize = 0;
    while k < m
        invariant
            n == s@.len(),
            m == pat@.len(),
            i + m <= n,
            k <= m,
            forall|t: int| 0 <= t < k ==> s@[i + t] == pat@[t],
        decreases m - k,
    {
        if s[i + k] != pat[k] {
            assert(s@.subrange(i as int, i + m)[k as int] != pat@[k as int]);
            return false;
        }
        k = k + 1;
    }
    assert(s@.subrange(i as int, i + m) =~= pat@);
    true
}

/// Whether two strings hold the same characters.
pub fn str_eq(a: &str, b: &str) -> (r: bool)
    ensures
        r == (a@ == b@),
{
    a.to_owned() == b.to_owned()
}

/// `s` with every leading repetition of `pat` removed.
pub open spec fn trim_start_all(s: Seq<char>, pat: Seq<char>) -> Seq<char>
    decreases s.len(),
{
    if pat.len() > 0 && occurs_at(s, pat, 0) {
        trim_start_all(s.skip(pat.len() as int), pat)
    } else {
        s
    }
}

/// `s` with every trailing repetition of `pat` removed.
pub open spec fn trim_end_all(s: Seq<char>, pat: Seq<char>) -> Seq<char>
    decreases s.len(),
{
    if pat.len() > 0 && pat.len() <= s.len() && occurs_at(s, pat, s.len() - pat.len()) {
        trim_end_all(s.take(s.len() - pat.len()), pat)
    } else {
        s
    }
}

/// Removes every leading repetition of `pat` from `s`.
pub fn trim_start_matches(s: &str, pat: &str) -> (r: String)
    ensures
        r@ == trim_start_all(s@, pat@),
{
    let cs = chars_of(s);
    let ps = chars_of(pat);
    let n = cs.len();
    let m = ps.len();
    let mut i: usize = 0;
    assert(cs@.skip(0) =~= cs@);
    if m > 0 {
        while matches_at(&cs, &ps, i)
            invariant
                n == cs@.len(),
                m == ps@.len(),
                cs@ == s@,
                ps@ == pat@,
                m > 0,
                i <= n,
                trim_start_all(s@, pat@) == trim_start_all(cs@.skip(i as int), pat@),
            decreases n - i,
        {
            proof {
                assert(cs@.skip(i as int).skip(m as int) =~= cs@.skip(i + m));
                assert(cs@.skip(i as int).subrange(0, m as int) =~= cs@.subrange(i as int, i + m));
                assert(occurs_at(cs@.skip(i as int), pat@, 0));
            }
            i = i + m;
        }
        proof {
            if i + m <= n {
                assert(cs@.skip(i as int).subrange(0, m as int) =~= cs@.subrange(i as int, i + m));
            }
        }
    }
    assert(cs@.skip(0) =~= cs@);
    let rest = s.substring_char(i, n);
    assert(rest@ =~= cs@.skip(i as int));
    rest.to_owned()
}

/// Removes every trailing repetition of `pat` from `s`.
pub fn trim_end_matches(s: &str, pat: &str) -> (r: String)
    ensures
        r@ == trim_end_all(s@, pat@),
{
    let cs = chars_of(s);
    let ps = chars_of(pat);
    let n = cs.len();
    let m = ps.len();
    let mut e: usize = n;
    assert(cs@.take(n as int) =~= cs@);
    if m > 0 {
        while m <= e && matches_at(&cs, &ps, e - m)
            invariant
                n == cs@.len(),
                m == ps@.len(),
                cs@ == s@,
                ps@ == pat@,
                m > 0,
                e <= n,
                trim_end_all(s@, pat@) == trim_end_all(cs@.take(e as int), pat@),
            decreases e,
        {
            proof {
                let t = cs@.take(e as int);
                assert(t.take(e - m) =~= cs@.take(e - m));
                assert(t.subrange(e - m, e as int) =~= cs@.subrange(e - m, e as int));
                assert(occurs_at(t, pat@, e - m));
            }
            e = e - m;
        }
        proof {
            let t = cs@.take(e as int);
            if m <= e {
                assert(t.subrange(e - m, e as int) =~= cs@.subrange(e - m, e as int));
            }
        }
    }
    let rest = s.substring_char(0, e);
    assert(rest@ =~= cs@.take(e as int));
    rest.to_owned()
}

/// The one-character string of a digit below ten.
fn digit_str(d: u64) -> (r: &'static str)
    requires
        d < 10,
    ensures
        r@ == seq![digit_char(d as nat)],
{
    proof {
        reveal_strlit("0");
        reveal_strlit("1");
        reveal_strlit("2");
        reveal_strlit("3");
        reveal_strlit("4");
        reveal_strlit("5");
        reveal_strlit("6");
        reveal_strlit("7");
        reveal_strlit("8");
        reveal_strlit("9");
    }
    if d == 0 {
        assert("0"@ =~= seq!['0']);
        "0"
    } else if d == 1 {
        assert("1"@ =~= seq!['1']);
        "1"
    } else if d == 2 {
        assert("2"@ =~= seq!['2']);
        "2"
    } else if d == 3 {
        assert("3"@ =~= seq!['3']);
        "3"
    } else if d == 4 {
        assert("4"@ =~= seq!['4']);
        "4"
    } else if d == 5 {
        assert("5"@ =~= seq!['5']);
        "5"
    } else if d == 6 {
        assert("6"@ =~= seq!['6']);
        "6"
    } else if d == 7 {
        assert("7"@ =~= seq!['7']);
        "7"
    } else if d == 8 {
        assert("8"@ =~= seq!['8']);
        "8"
    } else {
        assert("9"@ =~= seq!['9']);
        "9"
    }
}

/// Appends the decimal notation of `n` to `out`.
pub fn append_decimal(out: &mut String, n: u64)
    ensures
        final(out)@ == old(out)@ + decimal(n as nat),
    decreases n,
{
    if n >= 10 {
        append_decimal(out, n / 10);
    }
    out.append(digit_str(n % 10));
    proof {
        if n >= 10 {
            assert(old(out)@ + decimal(n as nat) =~= old(out)@ + decimal((n / 10) as nat) + seq![
                digit_char((n % 10) as nat),
            ]);
        }
    }
}

/// The decimal notation of `n`.
pub fn u64_to_decimal(n: u64) -> (r: String)
    ensures
        r@ == decimal(n as nat),
{
    let mut out = String::new();
    append_decimal(&mut out, n);
    assert(out@ =~= decimal(n as nat));
    out
}

} // verus!
