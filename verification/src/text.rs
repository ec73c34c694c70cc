use vstd::prelude::*;
use vstd::string::StrSliceExecFns;

verus! {

// ---------------------------------------------------------------------------
// Digits
// ---------------------------------------------------------------------------

/// An ASCII decimal digit.
pub open spec fn is_digit(c: char) -> bool {
    '0' <= c && c <= '9'
}

/// Numeric value of an ASCII decimal digit.
pub open spec fn digit_val(c: char) -> int {
    c as int - '0' as int
}

/// Every character of `s` is a decimal digit.
pub open spec fn all_digits(s: Seq<char>) -> bool {
    forall|i: int| 0 <= i < s.len() ==> is_digit(#[trigger] s[i])
}

/// Value of a run of decimal digits, most significant first.
pub open spec fn digits_value(s: Seq<char>) -> int
    decreases s.len(),
{
    if s.len() == 0 {
        0
    } else {
        digits_value(s.drop_last()) * 10 + digit_val(s.last())
    }
}

pub proof fn lemma_digits_value_nonneg(s: Seq<char>)
    requires
        all_digits(s),
    ensures
        digits_value(s) >= 0,
    decreases s.len(),
{
    if s.len() > 0 {
        lemma_digits_value_nonneg(s.drop_last());
    }
}

/// Extending a digit run on the right multiplies its value by ten.
pub proof fn lemma_digits_value_step(s: Seq<char>, i: int)
    requires
        0 <= i < s.len(),
    ensures
        digits_value(s.subrange(0, i + 1)) == digits_value(s.subrange(0, i)) * 10 + digit_val(
            s[i],
        ),
{
    let p = s.subrange(0, i + 1);
    assert(p.drop_last() =~= s.subrange(0, i));
    assert(p.last() == s[i]);
}

/// The value of a digit run never drops as the run grows.
pub proof fn lemma_digits_value_prefix_le(s: Seq<char>, i: int)
    requires
        all_digits(s),
        0 <= i <= s.len(),
    ensures
        digits_value(s.subrange(0, i)) <= digits_value(s),
    decreases s.len() - i,
{
    if i == s.len() {
        assert(s.subrange(0, i) =~= s);
    } else {
        lemma_digits_value_step(s, i);
        assert(all_digits(s.subrange(0, i)));
        lemma_digits_value_nonneg(s.subrange(0, i));
        lemma_digits_value_prefix_le(s, i + 1);
    }
}

pub fn char_is_digit(c: char) -> (r: bool)
    ensures
        r == is_digit(c),
{
    '0' <= c && c <= '9'
}

/// Digit character to its numeric value.
pub fn digit_to_val(c: char) -> (r: u32)
    requires
        is_digit(c),
    ensures
        r == digit_val(c),
{
    c as u32 - '0' as u32
}

// ---------------------------------------------------------------------------
// String equality
// ---------------------------------------------------------------------------

/// Character-for-character equality of two string slices.
pub fn str_eq(a: &str, b: &str) -> (r: bool)
    ensures
        r == (a@ == b@),
{
    let alen = a.unicode_len();
    let blen = b.unicode_len();
    if alen != blen {
        return false;
    }
    let mut i: usize = 0;
    while i < alen
        invariant
            0 <= i <= alen,
            alen == a@.len(),
            alen == b@.len(),
            forall|j: int| 0 <= j < i ==> a@[j] == b@[j],
        decreases alen - i,
    {
        if a.get_char(i) != b.get_char(i) {
            return false;
        }
        i = i + 1;
    }
    proof {
        assert(a@ =~= b@);
    }
    true
}

// ---------------------------------------------------------------------------
// Decimal number grammar: [sign] digits [ '.' digits ]
// ---------------------------------------------------------------------------

/// Length of the optional leading sign.
pub open spec fn sign_len(s: Seq<char>) -> int {
    if s.len() > 0 && (s[0] == '-' || s[0] == '+') {
        1
    } else {
        0
    }
}

/// A plain decimal number: an optional sign, then digits, then optionally a
/// point followed by more digits. Deliberately narrower than general
/// floating-point notation — no bare or trailing point, no exponent, no
/// infinities: coordinates and buffers are plain decimal degrees and metres,
/// and anything else is treated as malformed.
pub open spec fn decimal_text(s: Seq<char>) -> bool {
    let t = s.subrange(sign_len(s), s.len() as int);
    t.len() > 0 && (all_digits(t) || (exists|k: int|
        0 < k && k + 1 < t.len() && #[trigger] t[k] == '.' && all_digits(t.subrange(0, k))
            && all_digits(t.subrange(k + 1, t.len() as int))))
}

/// A decimal number whose value is strictly greater than zero.
pub open spec fn decimal_positive(s: Seq<char>) -> bool {
    decimal_text(s) && s[0] != '-' && (exists|i: int|
        0 <= i < s.len() && is_digit(#[trigger] s[i]) && s[i] != '0')
}

/// Whether `s` is a decimal number.
pub fn is_decimal_text(s: &str) -> (r: bool)
    ensures
        r == decimal_text(s@),
{
    let len = s.unicode_len();
    let b: usize = if len > 0 && (s.get_char(0) == '-' || s.get_char(0) == '+') {
        1
    } else {
        0
    };
    let ghost t = s@.subrange(sign_len(s@), s@.len() as int);
    proof {
        assert(b == sign_len(s@));
        assert(forall|j: int| 0 <= j < t.len() ==> #[trigger] t[j] == s@[b + j]);
    }
    if len == b {
        return false;
    }
    // find the first point, if any
    let dot = find_dot(s, b, len);
    if dot == len {
        // no point: every character after the sign must be a digit
        let r = digits_between(s, b, len);
        proof {
            if r {
                assert(all_digits(t));
            } else {
                assert(!all_digits(t)) by {
                    if all_digits(t) {
                        assert forall|j: int| b <= j < len implies is_digit(
                            #[trigger] s@[j],
                        ) by {
                            assert(t[j - b] == s@[j]);
                        }
                    }
                }
                assert forall|k: int| !(0 < k && k + 1 < t.len() && #[trigger] t[k] == '.') by {
                    if 0 < k && k + 1 < t.len() {
                        assert(t[k] == s@[b + k]);
                    }
                }
            }
        }
        return r;
    }
    // point at index `dot`; digits are required on both sides
    let kd: usize = dot - b;
    let r1 = if dot == b {
        false
    } else {
        digits_between(s, b, dot)
    };
    let r2 = if dot + 1 >= len {
        false
    } else {
        digits_between(s, dot + 1, len)
    };
    let r = r1 && r2;
    proof {
        let k = kd as int;
        assert(t[k] == s@[b + k]);
        if r {
            assert(0 < k && k + 1 < t.len());
            assert(all_digits(t.subrange(0, k))) by {
                assert(forall|j: int| 0 <= j < k ==> #[trigger] t.subrange(0, k)[j] == s@[b + j]);
            }
            assert(all_digits(t.subrange(k + 1, t.len() as int))) by {
                assert(forall|j: int| 0 <= j < t.len() - k - 1 ==> #[trigger] t.subrange(
                    k + 1,
                    t.len() as int,
                )[j] == s@[b + k + 1 + j]);
            }
        } else {
            // no witness can work: any point lies at or after `dot`
            assert(!all_digits(t)) by {
                assert(t[k] == '.');
                assert(!is_digit('.'));
            }
            assert forall|k2: int|
                !(0 < k2 && k2 + 1 < t.len() && #[trigger] t[k2] == '.' && all_digits(
                    t.subrange(0, k2),
                ) && all_digits(t.subrange(k2 + 1, t.len() as int))) by {
                if 0 < k2 && k2 + 1 < t.len() && t[k2] == '.' && all_digits(t.subrange(0, k2))
                    && all_digits(t.subrange(k2 + 1, t.len() as int)) {
                    assert(s@[b + k2] == '.');
                    if k2 < k {
                        assert(s@[b + k2] != '.');
                    } else if k2 > k {
                        assert(t.subrange(0, k2)[k] == t[k]);
                        assert(!is_digit('.'));
                    } else {
                        // k2 == k: one of the two digit runs failed
                        if !r1 {
                            assert forall|j: int| b <= j < dot implies is_digit(
                                #[trigger] s@[j],
                            ) by {
                                assert(t.subrange(0, k)[j - b] == t[j - b]);
                                assert(t[j - b] == s@[j]);
                            }
                        } else {
                            assert(dot + 1 < len);
                            assert(!r2);
                            assert forall|j: int| dot + 1 <= j < len implies is_digit(
                                #[trigger] s@[j],
                            ) by {
                                assert(t.subrange(k + 1, t.len() as int)[j - b - k - 1] == t[j
                                    - b]);
                                assert(t[j - b] == s@[j]);
                            }
                        }
                    }
                }
            }
        }
    }
    r
}

/// Index of the first point character in `[from, to)`, or `to` if none.
fn find_dot(s: &str, from: usize, to: usize) -> (r: usize)
    requires
        from <= to <= s@.len(),
    ensures
        from <= r <= to,
        r < to ==> s@[r as int] == '.',
        forall|j: int| from <= j < r ==> s@[j] != '.',
{
    let mut i: usize = from;
    while i < to
        invariant
            from <= i <= to <= s@.len(),
            forall|j: int| from <= j < i ==> s@[j] != '.',
        decreases to - i,
    {
        if s.get_char(i) == '.' {
            return i;
        }
        i = i + 1;
    }
    to
}

/// Every character of `s` in `[from, to)` is a digit.
fn digits_between(s: &str, from: usize, to: usize) -> (r: bool)
    requires
        from <= to <= s@.len(),
    ensures
        r == forall|j: int| from <= j < to ==> is_digit(#[trigger] s@[j]),
{
    let mut i: usize = from;
    while i < to
        invariant
            from <= i <= to <= s@.len(),
            forall|j: int| from <= j < i ==> is_digit(#[trigger] s@[j]),
        decreases to - i,
    {
        if !char_is_digit(s.get_char(i)) {
            return false;
        }
        i = i + 1;
    }
    true
}

/// Whether `s` is a decimal number with a value strictly above zero.
pub fn is_decimal_positive(s: &str) -> (r: bool)
    ensures
        r == decimal_positive(s@),
{
    if !is_decimal_text(s) {
        return false;
    }
    if s.get_char(0) == '-' {
        return false;
    }
    let len = s.unicode_len();
    let mut i: usize = 0;
    while i < len
        invariant
            0 <= i <= len,
            len == s@.len(),
            decimal_text(s@),
            s@[0] != '-',
            forall|j: int| 0 <= j < i ==> !(is_digit(#[trigger] s@[j]) && s@[j] != '0'),
        decreases len - i,
    {
        let c = s.get_char(i);
        if char_is_digit(c) && c != '0' {
            proof {
                assert(is_digit(s@[i as int]) && s@[i as int] != '0');
                assert(decimal_positive(s@));
            }
            return true;
        }
        i = i + 1;
    }
    false
}

// ---------------------------------------------------------------------------
// Unsigned and signed integer parsing
// ---------------------------------------------------------------------------

/// A non-empty run of digits.
pub open spec fn int_digits(s: Seq<char>) -> bool {
    s.len() > 0 && all_digits(s)
}

/// What parsing a digit run as a 64-bit unsigned integer yields.
pub open spec fn parse_u64_spec(s: Seq<char>) -> Option<u64> {
    if int_digits(s) && digits_value(s) <= u64::MAX {
        Some(digits_value(s) as u64)
    } else {
        None
    }
}

/// Parse a non-empty digit run, rejecting values above `u64::MAX`.
pub fn parse_u64(s: &str) -> (r: Option<u64>)
    ensures
        r == parse_u64_spec(s@),
{
    let len = s.unicode_len();
    if len == 0 {
        return None;
    }
    let mut acc: u64 = 0;
    let mut i: usize = 0;
    while i < len
        invariant
            0 <= i <= len,
            len == s@.len(),
            forall|j: int| 0 <= j < i ==> is_digit(#[trigger] s@[j]),
            acc == digits_value(s@.subrange(0, i as int)),
        decreases len - i,
    {
        let c = s.get_char(i);
        if !char_is_digit(c) {
            return None;
        }
        let d = digit_to_val(c) as u64;
        proof {
            lemma_digits_value_step(s@, i as int);
        }
        if acc > 1844674407370955161u64 || (acc == 1844674407370955161u64 && d > 5) {
            proof {
                assert(digits_value(s@.subrange(0, i as int + 1)) > u64::MAX);
                if all_digits(s@) {
                    lemma_digits_value_prefix_le(s@, i as int + 1);
                }
            }
            return None;
        }
        acc = acc * 10 + d;
        i = i + 1;
    }
    proof {
        assert(s@.subrange(0, len as int) =~= s@);
    }
    Some(acc)
}

/// A signed run of digits: an optional sign, then at least one digit.
pub open spec fn signed_int_text(s: Seq<char>) -> bool {
    s.len() > sign_len(s) && all_digits(s.subrange(sign_len(s), s.len() as int))
}

/// Value of a signed digit run.
pub open spec fn signed_int_value(s: Seq<char>) -> int {
    let mag = digits_value(s.subrange(sign_len(s), s.len() as int));
    if s.len() > 0 && s[0] == '-' {
        -mag
    } else {
        mag
    }
}

/// What parsing as a 64-bit signed integer yields.
pub open spec fn parse_i64_spec(s: Seq<char>) -> Option<i64> {
    if signed_int_text(s) && i64::MIN <= signed_int_value(s) <= i64::MAX {
        Some(signed_int_value(s) as i64)
    } else {
        None
    }
}

/// Parse an optionally signed digit run, rejecting values outside `i64`.
pub fn parse_i64(s: &str) -> (r: Option<i64>)
    ensures
        r == parse_i64_spec(s@),
{
    let len = s.unicode_len();
    let neg = len > 0 && s.get_char(0) == '-';
    let b: usize = if len > 0 && (s.get_char(0) == '-' || s.get_char(0) == '+') {
        1
    } else {
        0
    };
    proof {
        assert(b == sign_len(s@));
    }
    if len == b {
        return None;
    }
    let digits = s.substring_char(b, len);
    proof {
        assert(digits@ =~= s@.subrange(sign_len(s@), s@.len() as int));
    }
    let mag = match parse_u64(digits) {
        Some(m) => m,
        None => {
            proof {
                if int_digits(digits@) {
                    // the magnitude alone exceeds u64, so it exceeds i64 too
                    assert(digits_value(digits@) > u64::MAX);
                }
            }
            return None;
        },
    };
    proof {
        assert(int_digits(digits@));
        assert(signed_int_text(s@));
        lemma_digits_value_nonneg(digits@);
        assert(digits_value(s@.subrange(sign_len(s@), s@.len() as int)) == mag as int);
        assert(neg == (s@.len() > 0 && s@[0] == '-'));
    }
    if neg {
        if mag <= 9223372036854775807u64 {
            Some((-(mag as i64)) as i64)
        } else if mag == 9223372036854775808u64 {
            Some(i64::MIN)
        } else {
            None
        }
    } else {
        if mag <= 9223372036854775807u64 {
            Some(mag as i64)
        } else {
            None
        }
    }
}

/// What parsing as a machine-sized unsigned integer yields.
pub open spec fn parse_usize_spec(s: Seq<char>) -> Option<usize> {
    if int_digits(s) && digits_value(s) <= usize::MAX {
        Some(digits_value(s) as usize)
    } else {
        None
    }
}

/// Parse a non-empty digit run, rejecting values above `usize::MAX`.
pub fn parse_usize(s: &str) -> (r: Option<usize>)
    ensures
        r == parse_usize_spec(s@),
{
    match parse_u64(s) {
        Some(m) => {
            proof {
                assert(int_digits(s@));
                lemma_digits_value_nonneg(s@);
                assert(digits_value(s@) == m as int);
            }
            if m <= usize::MAX as u64 {
                Some(m as usize)
            } else {
                None
            }
        },
        None => {
            proof {
                if int_digits(s@) {
                    assert(digits_value(s@) > u64::MAX);
                    assert(usize::MAX as u64 <= u64::MAX);
                }
            }
            None
        },
    }
}

// ---------------------------------------------------------------------------
// Splitting a delimited line into fields
// ---------------------------------------------------------------------------

/// The fields of `s` delimited by `c`: one more field than there are
/// delimiters, in order, each without the delimiter.
pub open spec fn split_fields(s: Seq<char>, c: char) -> Seq<Seq<char>>
    decreases s.len(),
{
    if s.len() == 0 {
        seq![Seq::<char>::empty()]
    } else if s[0] == c {
        seq![Seq::<char>::empty()] + split_fields(s.drop_first(), c)
    } else {
        let rest = split_fields(s.drop_first(), c);
        seq![seq![s[0]] + rest[0]] + rest.subrange(1, rest.len() as int)
    }
}

pub proof fn lemma_split_fields_len(s: Seq<char>, c: char)
    ensures
        split_fields(s, c).len() >= 1,
    decreases s.len(),
{
    if s.len() > 0 {
        lemma_split_fields_len(s.drop_first(), c);
    }
}

/// Appending one character extends the last field, or opens a new one.
proof fn lemma_split_fields_push(s: Seq<char>, c: char, ch: char)
    ensures
        ch == c ==> split_fields(s.push(ch), c) =~= split_fields(s, c).push(
            Seq::<char>::empty(),
        ),
        ch != c ==> split_fields(s.push(ch), c) =~= split_fields(s, c).update(
            split_fields(s, c).len() - 1,
            split_fields(s, c).last().push(ch),
        ),
    decreases s.len(),
{
    lemma_split_fields_len(s, c);
    if s.len() == 0 {
        let t = s.push(ch);
        assert(t[0] == ch);
        assert(t.drop_first() =~= Seq::<char>::empty());
        if ch == c {
            assert(split_fields(t, c) =~= seq![Seq::<char>::empty()] + split_fields(
                t.drop_first(),
                c,
            ));
        } else {
            let rest = split_fields(t.drop_first(), c);
            assert(rest =~= seq![Seq::<char>::empty()]);
            assert(seq![ch] + rest[0] =~= split_fields(s, c).last().push(ch));
        }
    } else {
        let t = s.push(ch);
        assert(t[0] == s[0]);
        assert(t.drop_first() =~= s.drop_first().push(ch));
        lemma_split_fields_push(s.drop_first(), c, ch);
        lemma_split_fields_len(s.drop_first(), c);
    }
}

/// Split `s` on the tab character.
pub fn split_tsv(s: &str) -> (r: Vec<String>)
    ensures
        r.deep_view() == split_fields(s@, '\t'),
{
    let len = s.unicode_len();
    let mut fields: Vec<String> = Vec::new();
    let mut cur: String = String::new();
    let mut i: usize = 0;
    proof {
        assert(s@.subrange(0, 0) =~= Seq::<char>::empty());
        assert(fields.deep_view().push(cur@) =~= split_fields(s@.subrange(0, 0), '\t'));
    }
    while i < len
        invariant
            0 <= i <= len,
            len == s@.len(),
            fields.deep_view().push(cur@) == split_fields(s@.subrange(0, i as int), '\t'),
        decreases len - i,
    {
        let c = s.get_char(i);
        proof {
            assert(s@.subrange(0, i as int + 1) =~= s@.subrange(0, i as int).push(s@[i as int]));
            lemma_split_fields_push(s@.subrange(0, i as int), '\t', s@[i as int]);
            lemma_split_fields_len(s@.subrange(0, i as int), '\t');
        }
        if c == '\t' {
            fields.push(cur);
            cur = String::new();
            proof {
                assert(fields.deep_view().push(cur@) =~= split_fields(
                    s@.subrange(0, i as int + 1),
                    '\t',
                ));
            }
        } else {
            let one = s.substring_char(i, i + 1);
            let ghost prev_cur = cur@;
            vstd::string::StringExecFns::append(&mut cur, one);
            proof {
                assert(one@ =~= seq![s@[i as int]]);
                let prev = split_fields(s@.subrange(0, i as int), '\t');
                assert(prev.last() == prev_cur);
                assert(cur@ =~= prev_cur.push(s@[i as int]));
                assert(fields.deep_view().push(cur@) =~= prev.update(
                    prev.len() - 1,
                    prev.last().push(s@[i as int]),
                ));
            }
        }
        i = i + 1;
    }
    proof {
        assert(s@.subrange(0, len as int) =~= s@);
    }
    let ghost done = fields.deep_view();
    let ghost last_field = cur@;
    fields.push(cur);
    proof {
        assert(fields.deep_view() =~= done.push(last_field));
    }
    fields
}

} // verus!
