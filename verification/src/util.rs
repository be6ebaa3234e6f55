//! Field-normalization helpers: trimming, separator stripping,
//! leading-zero-tolerant integer parsing, and date/time reading, as BAI2
//! field values require.
use chrono::Datelike;
use vstd::prelude::*;

verus! {

/// A calendar date, as read from a `yymmdd` field.
#[derive(Clone, Copy, Debug, PartialEq, Eq, Structural)]
pub struct Date {
    pub year: i32,
    pub month: u32,
    pub day: u32,
}

/// The (year, month, day) that `chrono::NaiveDate::parse_from_str` with
/// format `%y%m%d` reads from a string, or nothing when parsing fails; a
/// function of the characters alone.
pub uninterp spec fn date_of(s: Seq<char>) -> Option<(i32, u32, u32)>;

/// Relies on `chrono::NaiveDate::parse_from_str` with format `%y%m%d`, and
/// on the `Datelike` accessors, to read a two-digit-year calendar date.
#[verifier::external_body]
fn chrono_parse_date(s: &str) -> (r: Option<(i32, u32, u32)>)
    ensures
        r == date_of(s@),
{
    match chrono::NaiveDate::parse_from_str(s, "%y%m%d") {
        Ok(d) => Some((d.year(), d.month(), d.day())),
        Err(_) => None,
    }
}

/// The date a raw BAI2 date field denotes: the field is normalized, then
/// read as `yymmdd`.
pub open spec fn parse_date_spec(s: Seq<char>) -> Option<Date> {
    match date_of(normalize_spec(s)) {
        Some(ymd) => Some(Date { year: ymd.0, month: ymd.1, day: ymd.2 }),
        None => None,
    }
}

pub fn parse_date(s: &str) -> (r: Option<Date>)
    ensures
        r == parse_date_spec(s@),
{
    let t = parse_string(s);
    match chrono_parse_date(t.as_str()) {
        Some((y, m, d)) => Some(Date { year: y, month: m, day: d }),
        None => None,
    }
}

/// The text `chrono::NaiveTime::parse_from_str` with format `%H%M`, then
/// `NaiveTime`'s `Display`, renders for a string, or nothing when parsing
/// fails; a function of the characters alone.
pub uninterp spec fn time_of(s: Seq<char>) -> Option<Seq<char>>;

/// Relies on `chrono::NaiveTime::parse_from_str` with format `%H%M`, and
/// on `NaiveTime`'s `Display`, to read and render a clock time.
#[verifier::external_body]
fn chrono_parse_time(s: &str) -> (r: Option<String>)
    ensures
        match r {
            Some(t) => time_of(s@) == Some(t@),
            None => time_of(s@) is None,
        },
{
    match chrono::NaiveTime::parse_from_str(s, "%H%M") {
        Ok(t) => Some(t.to_string()),
        Err(_) => None,
    }
}

/// The rendered time a raw BAI2 time field denotes: nothing for an empty
/// field, the end-of-day sentinel for the literal `2400` and `9999`
/// values, and otherwise the field read as `HHMM`.
pub open spec fn parse_time_spec(s: Seq<char>) -> Option<Seq<char>> {
    let t = normalize_spec(s);
    if t.len() == 0 {
        None
    } else if t == "2400"@ || t == "9999"@ {
        Some("end of day"@)
    } else {
        time_of(t)
    }
}

pub fn parse_time(s: &str) -> (r: Option<String>)
    ensures
        match r {
            Some(x) => parse_time_spec(s@) == Some(x@),
            None => parse_time_spec(s@) is None,
        },
{
    let t = parse_string(s);
    let n = t.as_str().unicode_len();
    if n == 0 {
        return None;
    }
    let is_sentinel = if n == 4 {
        let c0 = t.as_str().get_char(0);
        let c1 = t.as_str().get_char(1);
        let c2 = t.as_str().get_char(2);
        let c3 = t.as_str().get_char(3);
        (c0 == '2' && c1 == '4' && c2 == '0' && c3 == '0') || (c0 == '9' && c1 == '9' && c2 == '9'
            && c3 == '9')
    } else {
        false
    };
    proof {
        reveal_strlit("2400");
        reveal_strlit("9999");
        if is_sentinel {
            assert(t@ =~= "2400"@ || t@ =~= "9999"@);
        } else {
            assert(t@ != "2400"@ && t@ != "9999"@);
        }
    }
    if is_sentinel {
        Some("end of day".to_owned())
    } else {
        chrono_parse_time(t.as_str())
    }
}

/// The characters `str::trim` treats as whitespace: those with the Unicode
/// `White_Space` property.
pub open spec fn is_space(c: char) -> bool {
    ||| c == ' '
    ||| c == '\t'
    ||| c == '\n'
    ||| c == '\r'
    ||| c == '\u{b}'
    ||| c == '\u{c}'
    ||| c == '\u{85}'
    ||| c == '\u{a0}'
    ||| c == '\u{1680}'
    ||| (0x2000 <= (c as u32) && (c as u32) <= 0x200a)
    ||| c == '\u{2028}'
    ||| c == '\u{2029}'
    ||| c == '\u{202f}'
    ||| c == '\u{205f}'
    ||| c == '\u{3000}'
}

pub fn char_is_space(c: char) -> (r: bool)
    ensures
        r == is_space(c),
{
    let u = c as u32;
    u == 0x20 || u == 0x9 || u == 0xa || u == 0xd || u == 0xb || u == 0xc || u == 0x85
        || u == 0xa0 || u == 0x1680 || (0x2000 <= u && u <= 0x200a) || u == 0x2028 || u == 0x2029
        || u == 0x202f || u == 0x205f || u == 0x3000
}

/// What remains of `s` after dropping its leading whitespace.
pub open spec fn trim_start_spec(s: Seq<char>) -> Seq<char>
    decreases s.len(),
{
    if s.len() == 0 {
        s
    } else if is_space(s[0]) {
        trim_start_spec(s.drop_first())
    } else {
        s
    }
}

/// What remains of `s` after dropping its trailing whitespace.
pub open spec fn trim_end_spec(s: Seq<char>) -> Seq<char>
    decreases s.len(),
{
    if s.len() == 0 {
        s
    } else if is_space(s.last()) {
        trim_end_spec(s.drop_last())
    } else {
        s
    }
}

/// What `str::trim` returns: `s` without surrounding whitespace.
pub open spec fn trim_spec(s: Seq<char>) -> Seq<char> {
    trim_end_spec(trim_start_spec(s))
}

/// `s` with every `/` removed, wherever it occurs.
pub open spec fn drop_slashes_spec(s: Seq<char>) -> Seq<char>
    decreases s.len(),
{
    if s.len() == 0 {
        s
    } else {
        let p = drop_slashes_spec(s.drop_last());
        if s.last() == '/' {
            p
        } else {
            p.push(s.last())
        }
    }
}

/// The normal form of a raw field value: surrounding whitespace trimmed,
/// then the continuation marker `/` removed wherever it occurs.
pub open spec fn normalize_spec(s: Seq<char>) -> Seq<char> {
    drop_slashes_spec(trim_spec(s))
}

proof fn lemma_trim_start_skip(s: Seq<char>, i: int)
    requires
        0 <= i <= s.len(),
        forall|j: int| 0 <= j < i ==> is_space(s[j]),
    ensures
        trim_start_spec(s) == trim_start_spec(s.subrange(i, s.len() as int)),
    decreases i,
{
    if i > 0 {
        assert(trim_start_spec(s) == trim_start_spec(s.drop_first()));
        lemma_trim_start_skip(s.drop_first(), i - 1);
        assert(s.drop_first().subrange(i - 1, s.drop_first().len() as int) =~= s.subrange(
            i,
            s.len() as int,
        ));
    } else {
        assert(s.subrange(0, s.len() as int) =~= s);
    }
}

proof fn lemma_trim_end_skip(s: Seq<char>, i: int)
    requires
        0 <= i <= s.len(),
        forall|j: int| i <= j < s.len() ==> is_space(s[j]),
    ensures
        trim_end_spec(s) == trim_end_spec(s.subrange(0, i)),
    decreases s.len() - i,
{
    if i < s.len() {
        assert(trim_end_spec(s) == trim_end_spec(s.drop_last()));
        lemma_trim_end_skip(s.drop_last(), i);
        assert(s.drop_last().subrange(0, i) =~= s.subrange(0, i));
    } else {
        assert(s.subrange(0, s.len() as int) =~= s);
    }
}

/// The bounds of `s` with surrounding whitespace dropped: the trimmed text
/// is `s@.subrange(r.0, r.1)`.
fn trim_bounds(s: &str) -> (r: (usize, usize))
    ensures
        0 <= r.0 <= r.1 <= s@.len(),
        trim_spec(s@) == s@.subrange(r.0 as int, r.1 as int),
{
    let n = s.unicode_len();
    let mut lo: usize = 0;
    while lo < n && char_is_space(s.get_char(lo))
        invariant
            0 <= lo <= n == s@.len(),
            forall|j: int| 0 <= j < lo ==> is_space(s@[j]),
        decreases n - lo,
    {
        lo = lo + 1;
    }
    let mut hi: usize = n;
    while hi > lo && char_is_space(s.get_char(hi - 1))
        invariant
            lo <= hi <= n == s@.len(),
            forall|j: int| 0 <= j < lo ==> is_space(s@[j]),
            forall|j: int| hi <= j < n ==> is_space(s@[j]),
        decreases hi,
    {
        hi = hi - 1;
    }
    proof {
        lemma_trim_start_skip(s@, lo as int);
        let t = s@.subrange(lo as int, s@.len() as int);
        assert(trim_start_spec(s@) == t);
        lemma_trim_end_skip(t, hi - lo);
        assert(t.subrange(0, hi - lo) =~= s@.subrange(lo as int, hi as int));
        if hi - lo > 0 {
            assert(!is_space(t[0]));
        }
        assert(trim_end_spec(s@.subrange(lo as int, hi as int)) =~= s@.subrange(
            lo as int,
            hi as int,
        ));
    }
    (lo, hi)
}

/// The normal form of a raw field value: surrounding whitespace is trimmed
/// and the continuation marker `/` is removed wherever it occurs.
pub fn parse_string(s: &str) -> (r: String)
    ensures
        r@ == normalize_spec(s@),
{
    let (lo, hi) = trim_bounds(s);
    let mut out = String::new();
    let mut i: usize = lo;
    while i < hi
        invariant
            lo <= i <= hi <= s@.len(),
            out@ == drop_slashes_spec(s@.subrange(lo as int, i as int)),
            trim_spec(s@) == s@.subrange(lo as int, hi as int),
        decreases hi - i,
    {
        let c = s.get_char(i);
        if c != '/' {
            let piece = s.substring_char(i, i + 1);
            out.append(piece);
        }
        proof {
            let prev = s@.subrange(lo as int, i as int);
            let cur = s@.subrange(lo as int, i + 1);
            assert(cur.drop_last() =~= prev);
            assert(cur.last() == s@[i as int]);
        }
        i = i + 1;
    }
    out
}

/// The normalized field value, or `default` when the field is empty after
/// normalization; BAI2 currency-code fields fall back to a caller-supplied
/// default currency.
pub open spec fn parse_currency_spec(s: Seq<char>, default: Seq<char>) -> Seq<char> {
    if normalize_spec(s).len() == 0 {
        default
    } else {
        normalize_spec(s)
    }
}

pub fn parse_currency(s: &str, default: &str) -> (r: String)
    ensures
        r@ == parse_currency_spec(s@, default@),
{
    let t = parse_string(s);
    if t.as_str().is_empty() {
        default.to_owned()
    } else {
        t
    }
}

pub open spec fn is_digit(c: char) -> bool {
    48 <= (c as u32) && (c as u32) <= 57
}

pub open spec fn digit_val(c: char) -> int {
    c as u32 - 48
}

pub open spec fn all_digits(s: Seq<char>) -> bool {
    forall|i: int| 0 <= i < s.len() ==> is_digit(s[i])
}

/// The number a sequence of decimal digits denotes.
pub open spec fn digits_val(s: Seq<char>) -> int
    decreases s.len(),
{
    if s.len() == 0 {
        0
    } else {
        10 * digits_val(s.drop_last()) + digit_val(s.last())
    }
}

/// One or more decimal digits, or nothing.
pub open spec fn parse_digits_spec(s: Seq<char>) -> Option<int> {
    if s.len() > 0 && all_digits(s) {
        Some(digits_val(s))
    } else {
        None
    }
}

/// What `str::parse` accepts for an unsigned integer type, unbounded: an
/// optional `+`, then one or more decimal digits.
pub open spec fn parse_unsigned_spec(s: Seq<char>) -> Option<int> {
    if s.len() > 0 && s[0] == '+' {
        parse_digits_spec(s.drop_first())
    } else {
        parse_digits_spec(s)
    }
}

/// What `str::parse` accepts for a signed integer type, unbounded: an
/// optional sign, then one or more decimal digits.
pub open spec fn parse_signed_spec(s: Seq<char>) -> Option<int> {
    if s.len() > 0 && s[0] == '-' {
        match parse_digits_spec(s.drop_first()) {
            Some(v) => Some(-v),
            None => None,
        }
    } else {
        parse_unsigned_spec(s)
    }
}

/// `s` with its leading `0` characters dropped.
pub open spec fn strip_zeros_spec(s: Seq<char>) -> Seq<char>
    decreases s.len(),
{
    if s.len() > 0 && s[0] == '0' {
        strip_zeros_spec(s.drop_first())
    } else {
        s
    }
}

/// The text an integer field is parsed from: the normalized field value
/// with leading zeros stripped.
pub open spec fn int_text_spec(s: Seq<char>) -> Seq<char> {
    strip_zeros_spec(normalize_spec(s))
}

proof fn lemma_digits_val_nonneg(s: Seq<char>)
    requires
        all_digits(s),
    ensures
        digits_val(s) >= 0,
    decreases s.len(),
{
    if s.len() > 0 {
        lemma_digits_val_nonneg(s.drop_last());
    }
}

proof fn lemma_digits_val_prefix(s: Seq<char>, i: int)
    requires
        all_digits(s),
        0 <= i <= s.len(),
    ensures
        digits_val(s.subrange(0, i)) <= digits_val(s),
    decreases s.len(),
{
    if i < s.len() {
        let p = s.drop_last();
        lemma_digits_val_nonneg(p);
        lemma_digits_val_prefix(p, i);
        assert(p.subrange(0, i) =~= s.subrange(0, i));
    } else {
        assert(s.subrange(0, i) =~= s);
    }
}

/// Reads a run of decimal digits from `s` starting at `from`, as long as the
/// value stays within `max`; anything else in the run, or a value beyond
/// `max`, is a failed parse.
fn parse_digits_exec(s: &str, from: usize, max: u64) -> (r: Option<u64>)
    requires
        from <= s@.len(),
        max >= 9,
    ensures
        ({
            let d = s@.subrange(from as int, s@.len() as int);
            match r {
                Some(v) => parse_digits_spec(d) == Some(v as int) && v <= max,
                None => parse_digits_spec(d) is None || parse_digits_spec(d).unwrap() > max,
            }
        }),
{
    let n = s.unicode_len();
    let ghost d = s@.subrange(from as int, s@.len() as int);
    if from == n {
        return None;
    }
    let mut acc: u64 = 0;
    let mut i: usize = from;
    while i < n
        invariant
            from <= i <= n == s@.len(),
            from < n,
            max >= 9,
            d == s@.subrange(from as int, s@.len() as int),
            all_digits(s@.subrange(from as int, i as int)),
            acc as int == digits_val(s@.subrange(from as int, i as int)),
            acc <= max,
        decreases n - i,
    {
        let c = s.get_char(i);
        let u = c as u32;
        if !(48 <= u && u <= 57) {
            assert(!is_digit(d[i - from]));
            return None;
        }
        let dv: u64 = (u - 48) as u64;
        let ghost prefix = s@.subrange(from as int, i as int);
        let ghost next_prefix = s@.subrange(from as int, i + 1);
        proof {
            assert(next_prefix.drop_last() =~= prefix);
            assert(next_prefix.last() == s@[i as int]);
            vstd::arithmetic::div_mod::lemma_fundamental_div_mod((max - dv) as int, 10);
            vstd::arithmetic::div_mod::lemma_mod_bound((max - dv) as int, 10);
        }
        if acc > (max - dv) / 10 {
            // the value no longer fits in `max`, and appending further
            // digits can only grow it
            proof {
                assert(digits_val(next_prefix) > max);
                if all_digits(d) {
                    lemma_digits_val_prefix(d, i + 1 - from);
                    assert(d.subrange(0, i + 1 - from) =~= next_prefix);
                }
            }
            return None;
        }
        acc = acc * 10 + dv;
        i = i + 1;
    }
    proof {
        assert(s@.subrange(from as int, i as int) =~= d);
    }
    Some(acc)
}

/// The value of an unsigned BAI2 integer field that fits in `max`: the
/// field is normalized, leading zeros are stripped, and the rest must be
/// an optional `+` and at least one digit.
fn parse_unsigned_exec(s: &str, max: u64) -> (r: Option<u64>)
    requires
        max >= 9,
    ensures
        ({
            match r {
                Some(v) => parse_unsigned_spec(int_text_spec(s@)) == Some(v as int) && v <= max,
                None => parse_unsigned_spec(int_text_spec(s@)) is None || parse_unsigned_spec(
                    int_text_spec(s@),
                ).unwrap() > max as int,
            }
        }),
{
    let t = parse_string(s);
    let n = t.as_str().unicode_len();
    let mut z: usize = 0;
    while z < n && t.as_str().get_char(z) == '0'
        invariant
            0 <= z <= n == t@.len(),
            forall|j: int| 0 <= j < z ==> t@[j] == '0',
        decreases n - z,
    {
        z = z + 1;
    }
    proof {
        lemma_strip_zeros_skip(t@, z as int);
    }
    let ghost u = int_text_spec(s@);
    assert(u =~= t@.subrange(z as int, n as int));
    if z < n && t.as_str().get_char(z) == '+' {
        let r = parse_digits_exec(t.as_str(), z + 1, max);
        proof {
            assert(u.drop_first() =~= t@.subrange(z + 1, n as int));
        }
        r
    } else {
        parse_digits_exec(t.as_str(), z, max)
    }
}

proof fn lemma_strip_zeros_skip(s: Seq<char>, i: int)
    requires
        0 <= i <= s.len(),
        forall|j: int| 0 <= j < i ==> s[j] == '0',
        i == s.len() || s[i] != '0',
    ensures
        strip_zeros_spec(s) == s.subrange(i, s.len() as int),
    decreases i,
{
    if i > 0 {
        lemma_strip_zeros_skip(s.drop_first(), i - 1);
        assert(s.drop_first().subrange(i - 1, s.drop_first().len() as int) =~= s.subrange(
            i,
            s.len() as int,
        ));
    } else {
        assert(s.subrange(0, s.len() as int) =~= s);
    }
}

/// What a BAI2 integer field denotes as a `u64`, or nothing: the field is
/// trimmed, stripped of `/` and of leading zeros, and what remains must
/// parse as an unsigned integer that fits.
pub open spec fn parse_u64_spec(s: Seq<char>) -> Option<u64> {
    match parse_unsigned_spec(int_text_spec(s)) {
        Some(v) => if v <= u64::MAX { Some(v as u64) } else { None },
        None => None,
    }
}

pub fn parse_int_u64(s: &str) -> (r: Option<u64>)
    ensures
        r == parse_u64_spec(s@),
{
    parse_unsigned_exec(s, u64::MAX)
}

/// As `parse_u64_spec`, for values that fit in a `u32`.
pub open spec fn parse_u32_spec(s: Seq<char>) -> Option<u32> {
    match parse_unsigned_spec(int_text_spec(s)) {
        Some(v) => if v <= u32::MAX { Some(v as u32) } else { None },
        None => None,
    }
}

pub fn parse_int_u32(s: &str) -> (r: Option<u32>)
    ensures
        r == parse_u32_spec(s@),
{
    match parse_unsigned_exec(s, u32::MAX as u64) {
        Some(v) => Some(v as u32),
        None => None,
    }
}

/// As `parse_u64_spec`, for values that fit in a `u16`.
pub open spec fn parse_u16_spec(s: Seq<char>) -> Option<u16> {
    match parse_unsigned_spec(int_text_spec(s)) {
        Some(v) => if v <= u16::MAX { Some(v as u16) } else { None },
        None => None,
    }
}

pub fn parse_int_u16(s: &str) -> (r: Option<u16>)
    ensures
        r == parse_u16_spec(s@),
{
    match parse_unsigned_exec(s, u16::MAX as u64) {
        Some(v) => Some(v as u16),
        None => None,
    }
}

/// As `parse_u64_spec`, for values that fit in a `u8`.
pub open spec fn parse_u8_spec(s: Seq<char>) -> Option<u8> {
    match parse_unsigned_spec(int_text_spec(s)) {
        Some(v) => if v <= u8::MAX { Some(v as u8) } else { None },
        None => None,
    }
}

pub fn parse_int_u8(s: &str) -> (r: Option<u8>)
    ensures
        r == parse_u8_spec(s@),
{
    match parse_unsigned_exec(s, u8::MAX as u64) {
        Some(v) => Some(v as u8),
        None => None,
    }
}

/// What a BAI2 integer field denotes as an `i64`, or nothing: the field is
/// trimmed, stripped of `/` and of leading zeros, and what remains must
/// parse as a signed integer that fits.
pub open spec fn parse_i64_spec(s: Seq<char>) -> Option<i64> {
    match parse_signed_spec(int_text_spec(s)) {
        Some(v) => if i64::MIN <= v <= i64::MAX { Some(v as i64) } else { None },
        None => None,
    }
}

pub fn parse_int(s: &str) -> (r: Option<i64>)
    ensures
        r == parse_i64_spec(s@),
{
    let t = parse_string(s);
    let n = t.as_str().unicode_len();
    let mut z: usize = 0;
    while z < n && t.as_str().get_char(z) == '0'
        invariant
            0 <= z <= n == t@.len(),
            forall|j: int| 0 <= j < z ==> t@[j] == '0',
        decreases n - z,
    {
        z = z + 1;
    }
    proof {
        lemma_strip_zeros_skip(t@, z as int);
    }
    let ghost u = int_text_spec(s@);
    assert(u =~= t@.subrange(z as int, n as int));
    if z < n && t.as_str().get_char(z) == '-' {
        let mag = parse_digits_exec(t.as_str(), z + 1, 9223372036854775808u64);
        proof {
            assert(u.drop_first() =~= t@.subrange(z + 1, n as int));
        }
        match mag {
            Some(v) => {
                if v == 9223372036854775808u64 {
                    Some(i64::MIN)
                } else {
                    Some(-(v as i64))
                }
            },
            None => None,
        }
    } else if z < n && t.as_str().get_char(z) == '+' {
        let mag = parse_digits_exec(t.as_str(), z + 1, i64::MAX as u64);
        proof {
            assert(u.drop_first() =~= t@.subrange(z + 1, n as int));
        }
        match mag {
            Some(v) => Some(v as i64),
            None => None,
        }
    } else {
        match parse_digits_exec(t.as_str(), z, i64::MAX as u64) {
            Some(v) => Some(v as i64),
            None => None,
        }
    }
}

/// The numeric value of an exactly-three-digit code string, or nothing.
pub open spec fn code_value_spec(s: Seq<char>) -> Option<u16> {
    if s.len() == 3 && all_digits(s) {
        Some((100 * digit_val(s[0]) + 10 * digit_val(s[1]) + digit_val(s[2])) as u16)
    } else {
        None
    }
}

pub fn code_value(s: &str) -> (r: Option<u16>)
    ensures
        r == code_value_spec(s@),
{
    let n = s.unicode_len();
    if n != 3 {
        return None;
    }
    let u0 = s.get_char(0) as u32;
    let u1 = s.get_char(1) as u32;
    let u2 = s.get_char(2) as u32;
    if 48 <= u0 && u0 <= 57 && 48 <= u1 && u1 <= 57 && 48 <= u2 && u2 <= 57 {
        Some((100 * (u0 - 48) + 10 * (u1 - 48) + (u2 - 48)) as u16)
    } else {
        None
    }
}

/// The integer a raw code string denotes to `str::parse`, with no
/// normalization; values beyond `i64` are reported as absent, which is all
/// the numeric-range tests on classification codes need.
pub fn parse_plain_int(s: &str) -> (r: Option<i64>)
    ensures
        match r {
            Some(v) => parse_signed_spec(s@) == Some(v as int),
            None => ({
                let p = parse_signed_spec(s@);
                p is None || p.unwrap() > i64::MAX as int || p.unwrap() < -(i64::MAX as int)
            }),
        },
{
    let n = s.unicode_len();
    if n > 0 && s.get_char(0) == '-' {
        let r = parse_digits_exec(s, 1, i64::MAX as u64);
        proof {
            assert(s@.drop_first() =~= s@.subrange(1, s@.len() as int));
        }
        match r {
            Some(v) => Some(-(v as i64)),
            None => None,
        }
    } else if n > 0 && s.get_char(0) == '+' {
        let r = parse_digits_exec(s, 1, i64::MAX as u64);
        proof {
            assert(s@.drop_first() =~= s@.subrange(1, s@.len() as int));
        }
        match r {
            Some(v) => Some(v as i64),
            None => None,
        }
    } else {
        proof {
            assert(s@.subrange(0, s@.len() as int) =~= s@);
        }
        match parse_digits_exec(s, 0, i64::MAX as u64) {
            Some(v) => Some(v as i64),
            None => None,
        }
    }
}

/// `x` does not contain the character `sep`.
pub open spec fn has_no(x: Seq<char>, sep: char) -> bool {
    forall|j: int| 0 <= j < x.len() ==> x[j] != sep
}

/// The pieces of `s` between occurrences of `sep`, in order; always at
/// least one piece, as `str::split` yields.
pub open spec fn split_spec(s: Seq<char>, sep: char) -> Seq<Seq<char>>
    decreases s.len(),
{
    if s.len() == 0 {
        seq![Seq::<char>::empty()]
    } else if s[0] == sep {
        seq![Seq::<char>::empty()] + split_spec(s.drop_first(), sep)
    } else {
        let r = split_spec(s.drop_first(), sep);
        seq![seq![s[0]] + r[0]] + r.drop_first()
    }
}

pub proof fn lemma_split_nonempty(s: Seq<char>, sep: char)
    ensures
        split_spec(s, sep).len() >= 1,
    decreases s.len(),
{
    if s.len() > 0 {
        lemma_split_nonempty(s.drop_first(), sep);
    }
}

/// A sequence without the separator splits into itself alone.
pub proof fn lemma_split_no_sep(s: Seq<char>, sep: char)
    requires
        has_no(s, sep),
    ensures
        split_spec(s, sep) == seq![s],
    decreases s.len(),
{
    if s.len() == 0 {
        assert(split_spec(s, sep) =~~= seq![s]);
    } else {
        assert(s[0] != sep);
        assert(forall|j: int| 0 <= j < s.drop_first().len() ==> s.drop_first()[j] == s[j + 1]);
        lemma_split_no_sep(s.drop_first(), sep);
        let r = split_spec(s.drop_first(), sep);
        assert(r[0] == s.drop_first());
        assert(r.drop_first() =~= Seq::<Seq<char>>::empty());
        assert(seq![s[0]] + s.drop_first() =~= s);
        assert(split_spec(s, sep) =~= seq![s]);
    }
}

/// Splitting distributes over concatenation at a separator.
pub proof fn lemma_split_append(a: Seq<char>, b: Seq<char>, sep: char)
    ensures
        split_spec(a + seq![sep] + b, sep) == split_spec(a, sep) + split_spec(b, sep),
    decreases a.len(),
{
    let s = a + seq![sep] + b;
    lemma_split_nonempty(b, sep);
    if a.len() == 0 {
        assert(s =~= seq![sep] + b);
        assert(s[0] == sep);
        assert(s.drop_first() =~= b);
        assert(split_spec(a, sep) =~= seq![Seq::<char>::empty()]);
        assert(split_spec(s, sep) =~= split_spec(a, sep) + split_spec(b, sep));
    } else {
        lemma_split_append(a.drop_first(), b, sep);
        lemma_split_nonempty(a.drop_first(), sep);
        assert(s[0] == a[0]);
        assert(s.drop_first() =~= a.drop_first() + seq![sep] + b);
        let r = split_spec(s.drop_first(), sep);
        let ra = split_spec(a.drop_first(), sep);
        assert(r == ra + split_spec(b, sep));
        assert(r[0] == ra[0]);
        if a[0] == sep {
            assert(split_spec(a, sep) =~= seq![Seq::<char>::empty()] + ra);
            assert(split_spec(s, sep) =~= split_spec(a, sep) + split_spec(b, sep));
        } else {
            assert(r.drop_first() =~= ra.drop_first() + split_spec(b, sep));
            assert(split_spec(a, sep) =~= seq![seq![a[0]] + ra[0]] + ra.drop_first());
            assert(split_spec(s, sep) =~= split_spec(a, sep) + split_spec(b, sep));
        }
    }
}

/// Splitting at the first separator occurrence.
pub proof fn lemma_split_at(s: Seq<char>, sep: char, k: int)
    requires
        0 <= k < s.len(),
        s[k] == sep,
        forall|j: int| 0 <= j < k ==> s[j] != sep,
    ensures
        split_spec(s, sep) == seq![s.subrange(0, k)] + split_spec(
            s.subrange(k + 1, s.len() as int),
            sep,
        ),
{
    let a = s.subrange(0, k);
    let b = s.subrange(k + 1, s.len() as int);
    assert(s =~= a + seq![sep] + b);
    lemma_split_append(a, b, sep);
    lemma_split_no_sep(a, sep);
}

/// Every piece a split yields is itself free of the separator.
pub proof fn lemma_split_elems_free(s: Seq<char>, sep: char)
    ensures
        forall|k: int|
            0 <= k < split_spec(s, sep).len() ==> has_no(#[trigger] split_spec(s, sep)[k], sep),
    decreases s.len(),
{
    if s.len() > 0 {
        lemma_split_elems_free(s.drop_first(), sep);
        lemma_split_nonempty(s.drop_first(), sep);
        if s[0] != sep {
            let r = split_spec(s.drop_first(), sep);
            assert(has_no(r[0], sep));
            assert(forall|k: int|
                0 <= k < split_spec(s, sep).len() ==> has_no(
                    #[trigger] split_spec(s, sep)[k],
                    sep,
                ));
        }
    }
}

/// The pieces joined back together with the separator between them.
pub open spec fn join_spec(fs: Seq<Seq<char>>, sep: char) -> Seq<char>
    decreases fs.len(),
{
    if fs.len() == 0 {
        Seq::<char>::empty()
    } else if fs.len() == 1 {
        fs[0]
    } else {
        join_spec(fs.drop_last(), sep) + seq![sep] + fs.last()
    }
}

/// Splitting undoes joining, as long as no piece contains the separator.
pub proof fn lemma_split_join(fs: Seq<Seq<char>>, sep: char)
    requires
        fs.len() >= 1,
        forall|k: int| 0 <= k < fs.len() ==> has_no(#[trigger] fs[k], sep),
    ensures
        split_spec(join_spec(fs, sep), sep) == fs,
    decreases fs.len(),
{
    if fs.len() == 1 {
        lemma_split_no_sep(fs[0], sep);
        assert(split_spec(join_spec(fs, sep), sep) =~= fs);
    } else {
        lemma_split_join(fs.drop_last(), sep);
        lemma_split_append(join_spec(fs.drop_last(), sep), fs.last(), sep);
        lemma_split_no_sep(fs.last(), sep);
        assert(split_spec(join_spec(fs, sep), sep) =~= fs);
    }
}

/// The views of a sequence of strings.
pub open spec fn seq_views(v: Seq<String>) -> Seq<Seq<char>> {
    Seq::new(v.len(), |i: int| v[i]@)
}

/// The pieces of `s` between occurrences of `sep`, as `str::split` yields
/// them.
pub fn split_exec(s: &str, sep: char) -> (r: Vec<String>)
    ensures
        seq_views(r@) == split_spec(s@, sep),
{
    let n = s.unicode_len();
    let mut out: Vec<String> = Vec::new();
    let mut start: usize = 0;
    let mut i: usize = 0;
    proof {
        assert(s@.subrange(0, n as int) =~= s@);
        assert(seq_views(out@) =~= Seq::<Seq<char>>::empty());
    }
    while i < n
        invariant
            start <= i <= n == s@.len(),
            split_spec(s@, sep) == seq_views(out@) + split_spec(
                s@.subrange(start as int, n as int),
                sep,
            ),
            has_no(s@.subrange(start as int, i as int), sep),
        decreases n - i,
    {
        if s.get_char(i) == sep {
            let piece = s.substring_char(start, i).to_owned();
            proof {
                let suffix = s@.subrange(start as int, n as int);
                lemma_split_at(suffix, sep, i - start);
                assert(suffix.subrange(0, i - start) =~= s@.subrange(start as int, i as int));
                assert(suffix.subrange(i - start + 1, suffix.len() as int) =~= s@.subrange(
                    i + 1,
                    n as int,
                ));
                assert(seq_views(out@.push(piece)) =~= seq_views(out@) + seq![piece@]);
            }
            out.push(piece);
            start = i + 1;
            proof {
                assert(s@.subrange(start as int, i + 1) =~= Seq::<char>::empty());
            }
        } else {
            proof {
                assert(s@.subrange(start as int, i + 1) =~= s@.subrange(
                    start as int,
                    i as int,
                ).push(s@[i as int]));
            }
        }
        i = i + 1;
    }
    let piece = s.substring_char(start, n).to_owned();
    proof {
        lemma_split_no_sep(s@.subrange(start as int, n as int), sep);
        assert(seq_views(out@.push(piece)) =~= seq_views(out@) + seq![piece@]);
    }
    out.push(piece);
    out
}

/// A line terminated by `\n` sheds one trailing `\r`, as `str::lines`
/// strips `\r\n` endings.
pub open spec fn strip_cr_spec(l: Seq<char>) -> Seq<char> {
    if l.len() > 0 && l.last() == '\r' {
        l.drop_last()
    } else {
        l
    }
}

/// The physical lines of `s`, as `str::lines` yields them: pieces between
/// `\n` characters, each `\n`-terminated piece shedding one trailing `\r`,
/// and no final empty piece.
pub open spec fn lines_spec(s: Seq<char>) -> Seq<Seq<char>> {
    if s.len() == 0 {
        Seq::<Seq<char>>::empty()
    } else {
        let p = split_spec(s, '\n');
        let q = if p.last().len() == 0 {
            p.drop_last()
        } else {
            p
        };
        Seq::new(q.len(), |i: int| if i < p.len() - 1 { strip_cr_spec(q[i]) } else { q[i] })
    }
}

/// The physical lines of `s`, as `str::lines` yields them.
pub fn split_lines(s: &str) -> (r: Vec<String>)
    ensures
        seq_views(r@) == lines_spec(s@),
{
    let mut out: Vec<String> = Vec::new();
    if s.is_empty() {
        proof {
            assert(seq_views(out@) =~= lines_spec(s@));
        }
        return out;
    }
    let pieces = split_exec(s, '\n');
    proof {
        lemma_split_nonempty(s@, '\n');
    }
    let m = pieces.len();
    let last = &pieces[m - 1];
    let keep: usize = if last.as_str().is_empty() {
        m - 1
    } else {
        m
    };
    let mut i: usize = 0;
    while i < keep
        invariant
            0 <= i <= keep <= m == pieces@.len(),
            s@.len() > 0,
            seq_views(pieces@) == split_spec(s@, '\n'),
            keep == if split_spec(s@, '\n').last().len() == 0 {
                m - 1
            } else {
                m as int
            },
            out@.len() == i,
            forall|j: int| 0 <= j < i ==> out@[j]@ == lines_spec(s@)[j],
        decreases keep - i,
    {
        let p = &pieces[i];
        let line = if i < m - 1 {
            let pn = p.as_str().unicode_len();
            if pn > 0 && p.as_str().get_char(pn - 1) == '\r' {
                let t = p.as_str().substring_char(0, pn - 1).to_owned();
                proof {
                    assert(t@ =~= strip_cr_spec(p@));
                }
                t
            } else {
                p.clone()
            }
        } else {
            p.clone()
        };
        out.push(line);
        i = i + 1;
    }
    proof {
        assert(seq_views(out@) =~= lines_spec(s@));
    }
    out
}

} // verus!
