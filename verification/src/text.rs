use vstd::prelude::*;

verus! {

/// Character-for-character equality of two strings.
pub fn str_eq(a: &str, b: &str) -> (r: bool)
    ensures
        r == (a@ == b@),
{
    let an = a.unicode_len();
    let bn = b.unicode_len();
    if an != bn {
        return false;
    }
    let mut i: usize = 0;
    while i < an
        invariant
            an == a@.len(),
            an == b@.len(),
            i <= an,
            forall|j: int| 0 <= j < i ==> a@[j] == b@[j],
        decreases an - i,
    {
        if a.get_char(i) != b.get_char(i) {
            return false;
        }
        i = i + 1;
    }
    proof {
        assert(a@ =~= b@);
    }
    true
}

/// Whether `s` begins with the characters of `p`.
pub fn has_prefix(s: &str, p: &str) -> (r: bool)
    ensures
        r == (s@.len() >= p@.len() && s@.subrange(0, p@.len() as int) == p@),
{
    let sn = s.unicode_len();
    let pn = p.unicode_len();
    if sn < pn {
        return false;
    }
    let mut i: usize = 0;
    while i < pn
        invariant
            sn == s@.len(),
            pn == p@.len(),
            pn <= sn,
            i <= pn,
            forall|j: int| 0 <= j < i ==> s@[j] == p@[j],
        decreases pn - i,
    {
        if s.get_char(i) != p.get_char(i) {
            proof {
                if s@.subrange(0, p@.len() as int) == p@ {
                    assert(s@.subrange(0, p@.len() as int)[i as int] == s@[i as int]);
                }
            }
            return false;
        }
        i = i + 1;
    }
    proof {
        assert(s@.subrange(0, p@.len() as int) =~= p@);
    }
    true
}

/// Index of the first space in `s`, or `s.len()` when there is none.
pub open spec fn first_space(s: Seq<char>) -> int
    decreases s.len(),
{
    if s.len() == 0 {
        0
    } else if s[0] == ' ' {
        0
    } else {
        1 + first_space(s.drop_first())
    }
}

/// What `first_space` is: in bounds, nothing before it is a space, and
/// it lands on a space unless there is none.
pub proof fn lemma_first_space(s: Seq<char>)
    ensures
        0 <= first_space(s) <= s.len(),
        forall|j: int| 0 <= j < first_space(s) ==> s[j] != ' ',
        first_space(s) < s.len() ==> s[first_space(s)] == ' ',
    decreases s.len(),
{
    if s.len() == 0 {
    } else if s[0] == ' ' {
    } else {
        lemma_first_space(s.drop_first());
        assert(forall|j: int|
            0 <= j < first_space(s.drop_first()) ==> s.drop_first()[j] != ' ');
        assert forall|j: int| 0 <= j < first_space(s) implies s[j] != ' ' by {
            if j > 0 {
                assert(s.drop_first()[j - 1] != ' ');
                assert(s.drop_first()[j - 1] == s[j]);
            }
        }
        if first_space(s) < s.len() {
            assert(s.drop_first()[first_space(s.drop_first())] == s[first_space(s)]);
        }
    }
}

/// Finds the first space of `s`, or its length when there is none.
pub fn find_space(s: &str) -> (r: usize)
    ensures
        r == first_space(s@),
{
    proof {
        lemma_first_space(s@);
    }
    let n = s.unicode_len();
    let mut i: usize = 0;
    while i < n
        invariant
            n == s@.len(),
            i <= n,
            forall|j: int| 0 <= j < i ==> s@[j] != ' ',
            0 <= first_space(s@) <= s@.len(),
            forall|j: int| 0 <= j < first_space(s@) ==> s@[j] != ' ',
            first_space(s@) < s@.len() ==> s@[first_space(s@)] == ' ',
        decreases n - i,
    {
        if s.get_char(i) == ' ' {
            proof {
                if first_space(s@) < i as int {
                    assert(s@[first_space(s@)] != ' ');
                } else if first_space(s@) > i as int {
                    assert(s@[i as int] != ' ');
                }
            }
            return i;
        }
        i = i + 1;
    }
    proof {
        if first_space(s@) < n as int {
            assert(s@[first_space(s@)] != ' ');
        }
    }
    n
}

/// The first space-separated token of `s`, leading spaces skipped;
/// `None` when `s` is empty or all spaces.
pub open spec fn spec_first_token(s: Seq<char>) -> Option<Seq<char>>
    decreases s.len(),
{
    if s.len() == 0 {
        None
    } else if s[0] == ' ' {
        spec_first_token(s.drop_first())
    } else {
        Some(s.subrange(0, first_space(s)))
    }
}

proof fn lemma_first_token_skip(s: Seq<char>, i: int)
    requires
        0 <= i <= s.len(),
        forall|j: int| 0 <= j < i ==> s[j] == ' ',
    ensures
        spec_first_token(s) == spec_first_token(s.subrange(i, s.len() as int)),
    decreases i,
{
    if i == 0 {
        assert(s.subrange(0, s.len() as int) =~= s);
    } else {
        assert(s[0] == ' ');
        assert(s.drop_first() =~= s.subrange(1, s.len() as int));
        lemma_first_token_skip(s.drop_first(), i - 1);
        assert(s.drop_first().subrange(i - 1, s.drop_first().len() as int) =~= s.subrange(
            i,
            s.len() as int,
        ));
    }
}

/// Takes the first space-separated token of `s`, skipping any leading
/// spaces; `None` when no token exists.
pub fn first_token(s: &str) -> (r: Option<String>)
    ensures
        r is Some <==> spec_first_token(s@) is Some,
        (r matches Some(t) ==> Some(t@) == spec_first_token(s@)),
{
    let n = s.unicode_len();
    let mut i: usize = 0;
    while i < n
        invariant
            n == s@.len(),
            i <= n,
            forall|j: int| 0 <= j < i ==> s@[j] == ' ',
        decreases n - i,
    {
        if s.get_char(i) != ' ' {
            let tail = s.substring_char(i, n);
            let fs = find_space(tail);
            proof {
                lemma_first_token_skip(s@, i as int);
                lemma_first_space(tail@);
            }
            let tok = tail.substring_char(0, fs);
            proof {
                assert(spec_first_token(tail@) == Some(tail@.subrange(0, first_space(tail@))));
            }
            return Some(tok.to_owned());
        }
        i = i + 1;
    }
    proof {
        lemma_first_token_skip(s@, n as int);
        assert(s@.subrange(n as int, n as int).len() == 0);
    }
    None
}

/// Whether `c` is a decimal digit.
pub open spec fn is_digit(c: char) -> bool {
    '0' as u32 <= c as u32 <= '9' as u32
}

/// The value of a decimal digit.
pub open spec fn digit_val(c: char) -> int {
    c as u32 as int - '0' as u32 as int
}

/// A non-empty string of decimal digits.
pub open spec fn all_digits(s: Seq<char>) -> bool {
    s.len() > 0 && forall|j: int| 0 <= j < s.len() ==> is_digit(#[trigger] s[j])
}

/// The number a string of digits denotes, most significant first.
pub open spec fn digits_value(s: Seq<char>) -> int
    decreases s.len(),
{
    if s.len() == 0 {
        0
    } else {
        digits_value(s.drop_last()) * 10 + digit_val(s.last())
    }
}

proof fn lemma_digits_value_nonneg(s: Seq<char>)
    requires
        forall|j: int| 0 <= j < s.len() ==> is_digit(#[trigger] s[j]),
    ensures
        digits_value(s) >= 0,
    decreases s.len(),
{
    if s.len() > 0 {
        lemma_digits_value_nonneg(s.drop_last());
    }
}

proof fn lemma_digits_prefix_le(s: Seq<char>, j: int)
    requires
        forall|k: int| 0 <= k < s.len() ==> is_digit(#[trigger] s[k]),
        0 <= j <= s.len(),
    ensures
        digits_value(s.subrange(0, j)) <= digits_value(s),
    decreases s.len() - j,
{
    if j < s.len() {
        lemma_digits_prefix_le(s, j + 1);
        let p = s.subrange(0, j);
        let q = s.subrange(0, j + 1);
        assert(q.drop_last() =~= p);
        lemma_digits_value_nonneg(p);
    } else {
        assert(s.subrange(0, j) =~= s);
    }
}

/// Parses a non-empty, all-digit string into its value. `None` exactly
/// when the text is not such a string or its value does not fit in u64.
pub fn parse_u64(s: &str) -> (r: Option<u64>)
    ensures
        r is Some <==> all_digits(s@) && digits_value(s@) <= u64::MAX,
        (r matches Some(v) ==> v == digits_value(s@)),
{
    let n = s.unicode_len();
    if n == 0 {
        return None;
    }
    let mut acc: u64 = 0;
    let mut i: usize = 0;
    while i < n
        invariant
            n == s@.len(),
            0 < n,
            i <= n,
            forall|j: int| 0 <= j < i ==> is_digit(#[trigger] s@[j]),
            acc == digits_value(s@.subrange(0, i as int)),
        decreases n - i,
    {
        let c = s.get_char(i);
        if !('0' <= c && c <= '9') {
            return None;
        }
        let d: u64 = (c as u32 as u64) - ('0' as u32 as u64);
        proof {
            lemma_digits_value_nonneg(s@.subrange(0, i as int));
        }
        if acc > (u64::MAX - d) / 10 {
            proof {
                let p = s@.subrange(0, i as int);
                let q = s@.subrange(0, i as int + 1);
                assert(q.drop_last() =~= p);
                assert(digits_value(q) == acc * 10 + d);
                if all_digits(s@) {
                    lemma_digits_prefix_le(s@, i as int + 1);
                }
            }
            return None;
        }
        acc = acc * 10 + d;
        proof {
            let p = s@.subrange(0, i as int);
            let q = s@.subrange(0, i as int + 1);
            assert(q.drop_last() =~= p);
        }
        i = i + 1;
    }
    proof {
        assert(s@.subrange(0, n as int) =~= s@);
    }
    Some(acc)
}

/// The decimal digit character for a value below ten.
pub open spec fn spec_digit(d: int) -> char {
    if d == 0 {
        '0'
    } else if d == 1 {
        '1'
    } else if d == 2 {
        '2'
    } else if d == 3 {
        '3'
    } else if d == 4 {
        '4'
    } else if d == 5 {
        '5'
    } else if d == 6 {
        '6'
    } else if d == 7 {
        '7'
    } else if d == 8 {
        '8'
    } else {
        '9'
    }
}

/// The decimal writing of `n`, most significant digit first, no sign
/// and no leading zero except for zero itself.
pub open spec fn spec_u64_string(n: int) -> Seq<char>
    decreases n,
{
    if n < 10 {
        seq![spec_digit(n)]
    } else {
        spec_u64_string(n / 10).push(spec_digit(n % 10))
    }
}

fn digit_str(d: u64) -> (r: &'static str)
    requires
        d < 10,
    ensures
        r@ =~= seq![spec_digit(d as int)],
{
    proof {
        reveal_strlit("0");
        reveal_strlit("1");
        reveal_strlit("2");
        reveal_strlit("3");
        reveal_strlit("4");
        reveal_strlit("5");
        reveal_strlit("6");
        reveal_strlit("7");
        reveal_strlit("8");
        reveal_strlit("9");
    }
    match d {
        0 => "0",
        1 => "1",
        2 => "2",
        3 => "3",
        4 => "4",
        5 => "5",
        6 => "6",
        7 => "7",
        8 => "8",
        _ => "9",
    }
}

/// Writes `n` in decimal.
pub fn u64_to_string(n: u64) -> (r: String)
    ensures
        r@ == spec_u64_string(n as int),
    decreases n,
{
    if n < 10 {
        digit_str(n).to_owned()
    } else {
        let mut s = u64_to_string(n / 10);
        s.append(digit_str(n % 10));
        proof {
            assert(s@ =~= spec_u64_string(n as int));
        }
        s
    }
}

/// The digits of a parsed string give back its value: parsing and
/// writing are mutually inverse on canonical (no leading zero) text.
pub proof fn lemma_u64_string_value(n: int)
    requires
        0 <= n <= u64::MAX,
    ensures
        all_digits(spec_u64_string(n)),
        digits_value(spec_u64_string(n)) == n,
    decreases n,
{
    assert(digit_val(spec_digit(n % 10)) == n % 10);
    if n < 10 {
        let s = spec_u64_string(n);
        assert(s == seq![spec_digit(n)]);
        assert(s.last() == spec_digit(n));
        assert(s.drop_last() =~= Seq::<char>::empty());
        assert(digits_value(s.drop_last()) == 0);
        assert(digits_value(s) == digit_val(spec_digit(n)));
    } else {
        lemma_u64_string_value(n / 10);
        assert(spec_u64_string(n).drop_last() =~= spec_u64_string(n / 10));
        assert forall|j: int| 0 <= j < spec_u64_string(n).len() implies is_digit(
            #[trigger] spec_u64_string(n)[j],
        ) by {
            if j < spec_u64_string(n).len() - 1 {
                assert(spec_u64_string(n)[j] == spec_u64_string(n / 10)[j]);
            }
        }
    }
}

} // verus!
