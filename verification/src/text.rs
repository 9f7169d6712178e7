//! Character-level text helpers: fixed-width hexadecimal and decimal
//! rendering, and radix parsing with the semantics of `from_str_radix`.

use vstd::prelude::*;

verus! {

/// The digit character of `d` (< 16): `0`-`9`, then `a`-`f` or `A`-`F`.
pub open spec fn hex_digit(d: nat, upper: bool) -> char {
    if d < 10 {
        (48 + d) as char
    } else if upper {
        (55 + d) as char
    } else {
        (87 + d) as char
    }
}

/// `v` as exactly four hexadecimal digits, most significant first
/// (the rendering of `{:04x}` / `{:04X}` for a `u16`).
pub open spec fn hex4(v: u16, upper: bool) -> Seq<char> {
    seq![
        hex_digit((v as nat / 4096) % 16, upper),
        hex_digit((v as nat / 256) % 16, upper),
        hex_digit((v as nat / 16) % 16, upper),
        hex_digit(v as nat % 16, upper),
    ]
}

/// The decimal rendering of `n`, without sign or leading zeros.
pub open spec fn decimal(n: nat) -> Seq<char>
    decreases n,
{
    if n < 10 {
        seq![(48 + n) as char]
    } else {
        decimal(n / 10).push((48 + n % 10) as char)
    }
}

/// The value of `c` as a digit in `radix` (at most 36), as `char::to_digit`.
pub open spec fn digit_value(c: char, radix: nat) -> Option<nat> {
    let n = c as nat;
    let v: int = if 48 <= n <= 57 {
        n - 48
    } else if 97 <= n <= 122 {
        n - 87
    } else if 65 <= n <= 90 {
        n - 55
    } else {
        radix as int
    };
    if 0 <= v < radix {
        Some(v as nat)
    } else {
        None
    }
}

/// The value of the digit string `ds` in `radix`; `None` when a character is
/// not a digit.  The empty string has value 0.
pub open spec fn digits_value(ds: Seq<char>, radix: nat) -> Option<nat>
    decreases ds.len(),
{
    if ds.len() == 0 {
        Some(0)
    } else {
        match (digits_value(ds.drop_last(), radix), digit_value(ds.last(), radix)) {
            (Some(hi), Some(d)) => Some(hi * radix + d),
            _ => None,
        }
    }
}

/// The digits of an unsigned number text: the text without one leading `+`.
pub open spec fn unsigned_digits(s: Seq<char>) -> Seq<char> {
    if s.len() > 0 && s[0] == '+' {
        s.drop_first()
    } else {
        s
    }
}

/// What `u16::from_str_radix(s, radix)` returns, as an option: an optional
/// leading `+`, then at least one digit, with a value that fits in 16 bits.
pub open spec fn parse_u16_spec(s: Seq<char>, radix: nat) -> Option<u16> {
    let ds = unsigned_digits(s);
    if ds.len() == 0 {
        None
    } else {
        match digits_value(ds, radix) {
            Some(v) => if v <= 0xffff { Some(v as u16) } else { None },
            None => None,
        }
    }
}

/// What `s.parse::<i32>()` returns, as an option: an optional sign, then at
/// least one decimal digit, with a value in the `i32` range.
pub open spec fn parse_i32_spec(s: Seq<char>) -> Option<i32> {
    if s.len() > 0 && s[0] == '-' {
        let ds = s.drop_first();
        if ds.len() == 0 {
            None
        } else {
            match digits_value(ds, 10) {
                Some(v) => if v <= 0x8000_0000 { Some((0 - v) as i32) } else { None },
                None => None,
            }
        }
    } else {
        let ds = unsigned_digits(s);
        if ds.len() == 0 {
            None
        } else {
            match digits_value(ds, 10) {
                Some(v) => if v <= 0x7fff_ffff { Some(v as i32) } else { None },
                None => None,
            }
        }
    }
}

fn hex_digit_char(d: u16, upper: bool) -> (c: char)
    requires
        d < 16,
    ensures
        c == hex_digit(d as nat, upper),
{
    let b: u8 = if d < 10 {
        48 + d as u8
    } else if upper {
        55 + d as u8
    } else {
        87 + d as u8
    };
    b as char
}

/// `v` as four hexadecimal digits, as `format!("{:04x}")` (or `{:04X}` when
/// `upper`) renders it.
pub fn hex4_chars(v: u16, upper: bool) -> (res: Vec<char>)
    ensures
        res@ == hex4(v, upper),
{
    let mut res: Vec<char> = Vec::new();
    res.push(hex_digit_char((v / 4096) % 16, upper));
    res.push(hex_digit_char((v / 256) % 16, upper));
    res.push(hex_digit_char((v / 16) % 16, upper));
    res.push(hex_digit_char(v % 16, upper));
    res
}

/// `n` in decimal, as `n.to_string()` renders it.
pub fn decimal_chars(n: u32) -> (res: Vec<char>)
    ensures
        res@ == decimal(n as nat),
    decreases n,
{
    if n < 10 {
        let mut res: Vec<char> = Vec::new();
        res.push((48 + n as u8) as char);
        res
    } else {
        let mut res = decimal_chars(n / 10);
        res.push((48 + (n % 10) as u8) as char);
        res
    }
}

/// `digits_value` restricted to values of at most `max`.
pub open spec fn bounded_value(ds: Seq<char>, radix: nat, max: nat) -> Option<nat> {
    match digits_value(ds, radix) {
        Some(v) => if v <= max { Some(v) } else { None },
        None => None,
    }
}

/// A prefix of a digit string that is not all digits spoils the whole string,
/// and a valid prefix never has a larger value than the whole.
proof fn lemma_digits_prefix(s: Seq<char>, k: int, radix: nat)
    requires
        0 <= k <= s.len(),
        radix >= 1,
    ensures
        digits_value(s.take(k), radix) is None ==> digits_value(s, radix) is None,
        digits_value(s.take(k), radix) is Some && digits_value(s, radix) is Some
            ==> digits_value(s.take(k), radix)->0 <= digits_value(s, radix)->0,
    decreases s.len(),
{
    if k == s.len() {
        assert(s.take(k) =~= s);
    } else {
        lemma_digits_prefix(s.drop_last(), k, radix);
        assert(s.drop_last().take(k) =~= s.take(k));
        if let (Some(hi), Some(d)) = (digits_value(s.drop_last(), radix), digit_value(s.last(), radix)) {
            assert(hi * radix + d >= hi) by (nonlinear_arith)
                requires
                    radix >= 1,
            ;
        }
    }
}

fn digit_of(c: char, radix: u64) -> (r: Option<u64>)
    requires
        2 <= radix <= 36,
    ensures
        match digit_value(c, radix as nat) {
            Some(d) => r == Some(d as u64),
            None => r is None,
        },
{
    let n = c as u32;
    let v: u32 = if 48 <= n && n <= 57 {
        n - 48
    } else if 97 <= n && n <= 122 {
        n - 87
    } else if 65 <= n && n <= 90 {
        n - 55
    } else {
        radix as u32
    };
    if (v as u64) < radix {
        Some(v as u64)
    } else {
        None
    }
}

/// Reads the digits `ds[start..]` in `radix`, failing on a non-digit or when
/// the value exceeds `max`.
fn parse_digits(ds: &Vec<char>, start: usize, radix: u64, max: u64) -> (r: Option<u64>)
    requires
        2 <= radix <= 36,
        max <= 0xffff_ffff,
        start <= ds.len(),
    ensures
        match bounded_value(ds@.skip(start as int), radix as nat, max as nat) {
            Some(v) => r == Some(v as u64),
            None => r is None,
        },
{
    let ghost whole = ds@.skip(start as int);
    let mut acc: u64 = 0;
    let mut i: usize = start;
    assert(whole.take(0) =~= Seq::<char>::empty());
    while i < ds.len()
        invariant
            start <= i <= ds.len(),
            2 <= radix <= 36,
            max <= 0xffff_ffff,
            acc <= max,
            whole == ds@.skip(start as int),
            digits_value(whole.take(i - start), radix as nat) == Some(acc as nat),
        decreases ds.len() - i,
    {
        let ghost pre = whole.take(i - start);
        let ghost next = whole.take(i - start + 1);
        assert(next.drop_last() =~= pre);
        assert(next.last() == ds@[i as int]);
        match digit_of(ds[i], radix) {
            None => {
                proof {
                    lemma_digits_prefix(whole, i - start + 1, radix as nat);
                }
                return None;
            }
            Some(d) => {
                assert(acc * radix <= 0xffff_ffff * 36) by (nonlinear_arith)
                    requires
                        acc <= 0xffff_ffff,
                        radix <= 36,
                ;
                let next_acc = acc * radix + d;
                if next_acc > max {
                    proof {
                        lemma_digits_prefix(whole, i - start + 1, radix as nat);
                    }
                    return None;
                }
                acc = next_acc;
                i = i + 1;
            }
        }
    }
    assert(whole.take(i - start) =~= whole);
    Some(acc)
}

/// `u16::from_str_radix(s, radix).ok()`: an optional `+`, then digits.
pub fn parse_u16_radix(s: &Vec<char>, radix: u64) -> (r: Option<u16>)
    requires
        2 <= radix <= 36,
    ensures
        r == parse_u16_spec(s@, radix as nat),
{
    let start: usize = if s.len() > 0 && s[0] == '+' { 1 } else { 0 };
    assert(unsigned_digits(s@) =~= s@.skip(start as int));
    if start == s.len() {
        return None;
    }
    match parse_digits(s, start, radix, 0xffff) {
        Some(v) => Some(v as u16),
        None => None,
    }
}

/// `s.parse::<i32>().ok()`: an optional sign, then decimal digits.
pub fn parse_i32(s: &Vec<char>) -> (r: Option<i32>)
    ensures
        r == parse_i32_spec(s@),
{
    if s.len() > 0 && s[0] == '-' {
        assert(s@.drop_first() =~= s@.skip(1));
        if s.len() == 1 {
            return None;
        }
        match parse_digits(s, 1, 10, 0x8000_0000) {
            Some(v) => Some((0 - (v as i64)) as i32),
            None => None,
        }
    } else {
        let start: usize = if s.len() > 0 && s[0] == '+' { 1 } else { 0 };
        assert(unsigned_digits(s@) =~= s@.skip(start as int));
        if start == s.len() {
            return None;
        }
        match parse_digits(s, start, 10, 0x7fff_ffff) {
            Some(v) => Some(v as i32),
            None => None,
        }
    }
}

/// The characters of `s`, in order.
pub fn str_chars(s: &str) -> (res: Vec<char>)
    ensures
        res@ == s@,
{
    broadcast use vstd::string::group_string_axioms;
    let mut res: Vec<char> = Vec::new();
    for c in it: s.chars()
        invariant
            res@ == it.seq().take(it.index() as int),
            it.seq() == s@,
    {
        res.push(c);
    }
    res
}

/// Appends `c` to `s` (`String::push`).
#[verifier::external_body]
fn push_char(s: &mut String, c: char)
    ensures
        final(s)@ == old(s)@.push(c),
{
    s.push(c);
}

/// The string made of the characters `cs`, in order.
pub fn string_from_chars(cs: &[char]) -> (res: String)
    ensures
        res@ == cs@,
{
    let mut res = String::new();
    let mut i: usize = 0;
    while i < cs.len()
        invariant
            i <= cs@.len(),
            res@ == cs@.take(i as int),
        decreases cs@.len() - i,
    {
        push_char(&mut res, cs[i]);
        i = i + 1;
        assert(res@ =~= cs@.take(i as int));
    }
    assert(cs@.take(cs@.len() as int) =~= cs@);
    res
}

proof fn lemma_digits_push(t: Seq<char>, c: char, radix: nat)
    ensures
        digits_value(t.push(c), radix) == (match (digits_value(t, radix), digit_value(c, radix)) {
            (Some(hi), Some(d)) => Some(hi * radix + d),
            _ => None,
        }),
{
    assert(t.push(c).drop_last() =~= t);
}

proof fn lemma_hex_digit_value(d: nat, upper: bool)
    requires
        d < 16,
    ensures
        digit_value(hex_digit(d, upper), 16) == Some(d),
{
}

/// Law: four hexadecimal digits read back (radix 16) give the number they
/// render, in either letter case.
pub proof fn lemma_hex4_roundtrip(v: u16, upper: bool)
    ensures
        parse_u16_spec(hex4(v, upper), 16) == Some(v),
{
    let s = hex4(v, upper);
    let d3 = (v as nat / 4096) % 16;
    let d2 = (v as nat / 256) % 16;
    let d1 = (v as nat / 16) % 16;
    let d0 = v as nat % 16;
    lemma_hex_digit_value(d3, upper);
    lemma_hex_digit_value(d2, upper);
    lemma_hex_digit_value(d1, upper);
    lemma_hex_digit_value(d0, upper);
    assert(unsigned_digits(s) == s);
    let e = Seq::<char>::empty();
    let s1 = e.push(hex_digit(d3, upper));
    let s2 = s1.push(hex_digit(d2, upper));
    let s3 = s2.push(hex_digit(d1, upper));
    assert(s =~= s3.push(hex_digit(d0, upper)));
    lemma_digits_push(e, hex_digit(d3, upper), 16);
    lemma_digits_push(s1, hex_digit(d2, upper), 16);
    lemma_digits_push(s2, hex_digit(d1, upper), 16);
    lemma_digits_push(s3, hex_digit(d0, upper), 16);
    assert(((d3 * 16 + d2) * 16 + d1) * 16 + d0 == v as nat) by (nonlinear_arith)
        requires
            d3 == (v as nat / 4096) % 16,
            d2 == (v as nat / 256) % 16,
            d1 == (v as nat / 16) % 16,
            d0 == v as nat % 16,
            v <= 0xffff,
    ;
}

/// The decimal rendering is a non-empty string of decimal digits whose value
/// is the number rendered.
pub proof fn lemma_decimal_value(n: nat)
    ensures
        decimal(n).len() > 0,
        digit_value(decimal(n)[0], 10) is Some,
        digits_value(decimal(n), 10) == Some(n),
    decreases n,
{
    if n >= 10 {
        lemma_decimal_value(n / 10);
        let d = n % 10;
        lemma_digits_push(decimal(n / 10), (48 + d) as char, 10);
        assert(decimal(n)[0] == decimal(n / 10)[0]);
        assert(digit_value((48 + d) as char, 10) == Some(d));
        assert(n / 10 * 10 + d == n);
    } else {
        assert(digit_value((48 + n) as char, 10) == Some(n));
        lemma_digits_push(Seq::<char>::empty(), (48 + n) as char, 10);
        assert(decimal(n) =~= Seq::<char>::empty().push((48 + n) as char));
    }
}

/// Law: a decimal rendering read back as an `i32` gives the number rendered,
/// for every number in the `i32` range.
pub proof fn lemma_decimal_roundtrip_i32(n: nat)
    requires
        n <= 0x7fff_ffff,
    ensures
        parse_i32_spec(decimal(n)) == Some(n as i32),
{
    lemma_decimal_value(n);
    assert(unsigned_digits(decimal(n)) == decimal(n));
}

/// Law: a decimal rendering read back as a `u16` gives the number rendered,
/// for every number in the `u16` range.
pub proof fn lemma_decimal_roundtrip_u16(n: nat)
    requires
        n <= 0xffff,
    ensures
        parse_u16_spec(decimal(n), 10) == Some(n as u16),
{
    lemma_decimal_value(n);
    assert(unsigned_digits(decimal(n)) == decimal(n));
}

/// Whether `c` has the Unicode `White_Space` property (`char::is_whitespace`).
pub open spec fn is_white_space(c: char) -> bool {
    let n = c as int;
    (0x09 <= n <= 0x0d) || n == 0x20 || n == 0x85 || n == 0xa0 || n == 0x1680
        || (0x2000 <= n <= 0x200a) || n == 0x2028 || n == 0x2029 || n == 0x202f
        || n == 0x205f || n == 0x3000
}

/// `s` without its leading white space.
pub open spec fn trim_start(s: Seq<char>) -> Seq<char>
    decreases s.len(),
{
    if s.len() > 0 && is_white_space(s[0]) {
        trim_start(s.drop_first())
    } else {
        s
    }
}

/// `s` without its trailing white space.
pub open spec fn trim_end(s: Seq<char>) -> Seq<char>
    decreases s.len(),
{
    if s.len() > 0 && is_white_space(s.last()) {
        trim_end(s.drop_last())
    } else {
        s
    }
}

/// `s` without leading and trailing white space (`str::trim`).
pub open spec fn trim(s: Seq<char>) -> Seq<char> {
    trim_end(trim_start(s))
}

proof fn lemma_trim_start(s: Seq<char>)
    ensures
        ({
            let a = s.len() - trim_start(s).len();
            &&& 0 <= a <= s.len()
            &&& trim_start(s) == s.subrange(a, s.len() as int)
            &&& forall|j: int| 0 <= j < a ==> is_white_space(#[trigger] s[j])
            &&& trim_start(s).len() > 0 ==> !is_white_space(trim_start(s)[0])
        }),
    decreases s.len(),
{
    if s.len() > 0 && is_white_space(s[0]) {
        let t = s.drop_first();
        lemma_trim_start(t);
        let a = s.len() - trim_start(s).len();
        assert forall|j: int| 0 <= j < a implies is_white_space(#[trigger] s[j]) by {
            if j > 0 {
                assert(s[j] == t[j - 1]);
            }
        }
        assert(trim_start(s) =~= s.subrange(a, s.len() as int));
    } else {
        assert(s.subrange(0, s.len() as int) =~= s);
    }
}

proof fn lemma_trim_end(s: Seq<char>)
    ensures
        ({
            let b = trim_end(s).len() as int;
            &&& b <= s.len()
            &&& trim_end(s) == s.subrange(0, b)
            &&& forall|j: int| b <= j < s.len() ==> is_white_space(#[trigger] s[j])
            &&& b > 0 ==> !is_white_space(trim_end(s)[b - 1])
        }),
    decreases s.len(),
{
    if s.len() > 0 && is_white_space(s.last()) {
        let t = s.drop_last();
        lemma_trim_end(t);
        let b = trim_end(s).len() as int;
        assert forall|j: int| b <= j < s.len() implies is_white_space(#[trigger] s[j]) by {
            if j < s.len() - 1 {
                assert(s[j] == t[j]);
            }
        }
        assert(trim_end(s) =~= s.subrange(0, b));
    } else {
        assert(s.subrange(0, s.len() as int) =~= s);
    }
}

/// Law: `trim` takes away exactly the white space at both ends: what it
/// returns is a contiguous part of `s`, everything cut off before and after it
/// is white space, and it neither starts nor ends with white space.
pub proof fn lemma_trim(s: Seq<char>)
    ensures
        exists|a: int, b: int| {
            &&& 0 <= a <= b <= s.len()
            &&& #[trigger] s.subrange(a, b) == trim(s)
            &&& forall|j: int| 0 <= j < a ==> is_white_space(#[trigger] s[j])
            &&& forall|j: int| b <= j < s.len() ==> is_white_space(#[trigger] s[j])
        },
        trim(s).len() > 0 ==> !is_white_space(trim(s)[0]) && !is_white_space(trim(s).last()),
{
    let st = trim_start(s);
    lemma_trim_start(s);
    lemma_trim_end(st);
    let a = s.len() - st.len();
    let b = a + trim_end(st).len();
    assert(s.subrange(a, b) =~= trim(s));
    assert forall|j: int| b <= j < s.len() implies is_white_space(#[trigger] s[j]) by {
        assert(s[j] == st[j - a]);
    }
    if trim(s).len() > 0 {
        assert(trim(s)[0] == st[0]);
    }
}

fn white_space(c: char) -> (b: bool)
    ensures
        b == is_white_space(c),
{
    let n = c as u32;
    (0x09 <= n && n <= 0x0d) || n == 0x20 || n == 0x85 || n == 0xa0 || n == 0x1680
        || (0x2000 <= n && n <= 0x200a) || n == 0x2028 || n == 0x2029 || n == 0x202f
        || n == 0x205f || n == 0x3000
}

/// `cs[from..to]` as a new vector.
pub fn slice_chars(cs: &Vec<char>, from: usize, to: usize) -> (res: Vec<char>)
    requires
        from <= to <= cs@.len(),
    ensures
        res@ == cs@.subrange(from as int, to as int),
{
    let mut res: Vec<char> = Vec::new();
    let mut i = from;
    while i < to
        invariant
            from <= i <= to <= cs@.len(),
            res@ == cs@.subrange(from as int, i as int),
        decreases to - i,
    {
        res.push(cs[i]);
        i = i + 1;
        assert(res@ =~= cs@.subrange(from as int, i as int));
    }
    res
}

/// `cs` without leading and trailing white space.
pub fn trim_chars(cs: &Vec<char>) -> (res: Vec<char>)
    ensures
        res@ == trim(cs@),
{
    let mut a: usize = 0;
    assert(cs@.subrange(0, cs@.len() as int) =~= cs@);
    while a < cs.len() && white_space(cs[a])
        invariant
            a <= cs@.len(),
            trim_start(cs@) == trim_start(cs@.subrange(a as int, cs@.len() as int)),
        decreases cs@.len() - a,
    {
        assert(cs@.subrange(a as int, cs@.len() as int).drop_first()
            =~= cs@.subrange(a + 1, cs@.len() as int));
        a = a + 1;
    }
    let mut b: usize = cs.len();
    assert(trim_start(cs@) == cs@.subrange(a as int, b as int));
    while b > a && white_space(cs[b - 1])
        invariant
            a <= b <= cs@.len(),
            trim(cs@) == trim_end(cs@.subrange(a as int, b as int)),
        decreases b,
    {
        assert(cs@.subrange(a as int, b as int).drop_last() =~= cs@.subrange(a as int, b - 1));
        b = b - 1;
    }
    slice_chars(cs, a, b)
}

/// Whether `s` begins with `prefix`.
pub open spec fn starts_with(s: Seq<char>, prefix: Seq<char>) -> bool {
    prefix.len() <= s.len() && s.subrange(0, prefix.len() as int) == prefix
}

/// Whether `needle` occurs in `hay` at position `i`.
pub open spec fn occurs_at(hay: Seq<char>, needle: Seq<char>, i: int) -> bool {
    0 <= i && i + needle.len() <= hay.len() && hay.subrange(i, i + needle.len()) == needle
}

/// Whether `needle` occurs anywhere in `hay` (`str::contains`).
pub open spec fn contains(hay: Seq<char>, needle: Seq<char>) -> bool {
    exists|i: int| occurs_at(hay, needle, i)
}

/// The first position at or after `i` where `needle` occurs in `hay`.
pub open spec fn first_occurrence_from(hay: Seq<char>, needle: Seq<char>, i: int) -> Option<int>
    decreases hay.len() + 1 - i,
{
    if i < 0 || i + needle.len() > hay.len() {
        None
    } else if occurs_at(hay, needle, i) {
        Some(i)
    } else {
        first_occurrence_from(hay, needle, i + 1)
    }
}

/// The first position where `needle` occurs in `hay`, if any.
pub open spec fn first_occurrence(hay: Seq<char>, needle: Seq<char>) -> Option<int> {
    first_occurrence_from(hay, needle, 0)
}

proof fn lemma_first_occurrence(hay: Seq<char>, needle: Seq<char>, i: int, k: int)
    requires
        0 <= i <= k,
        forall|j: int| i <= j < k ==> !occurs_at(hay, needle, j),
        k + needle.len() > hay.len() || occurs_at(hay, needle, k),
    ensures
        first_occurrence_from(hay, needle, i) == (if k + needle.len() > hay.len() { None::<int> } else { Some(k) }),
    decreases k - i,
{
    if i < k {
        lemma_first_occurrence(hay, needle, i + 1, k);
    }
    if i + needle.len() > hay.len() && k + needle.len() <= hay.len() {
        assert(false);
    }
}

proof fn lemma_first_occurrence_from_is_first(hay: Seq<char>, needle: Seq<char>, i: int)
    requires
        0 <= i,
    ensures
        first_occurrence_from(hay, needle, i) matches Some(k) ==> i <= k && occurs_at(hay, needle, k)
            && forall|j: int| i <= j < k ==> !occurs_at(hay, needle, j),
        first_occurrence_from(hay, needle, i) is None ==> forall|j: int| i <= j ==> !occurs_at(hay, needle, j),
    decreases hay.len() + 1 - i,
{
    if i + needle.len() <= hay.len() && !occurs_at(hay, needle, i) {
        lemma_first_occurrence_from_is_first(hay, needle, i + 1);
        assert forall|j: int| i <= j < i + 1 implies !occurs_at(hay, needle, j) by {}
    }
}

/// Law: `first_occurrence` finds the first place where `needle` occurs:
/// `needle` occurs there and nowhere before; and it finds none exactly when
/// `needle` occurs nowhere.
pub proof fn lemma_first_occurrence_is_first(hay: Seq<char>, needle: Seq<char>)
    ensures
        first_occurrence(hay, needle) matches Some(k) ==> 0 <= k && occurs_at(hay, needle, k)
            && forall|j: int| 0 <= j < k ==> !occurs_at(hay, needle, j),
        first_occurrence(hay, needle) is None <==> !contains(hay, needle),
{
    lemma_first_occurrence_from_is_first(hay, needle, 0);
}

/// Law: `hex_prefix_len` measures the longest run of hexadecimal digits at the
/// start of `s`: every character before it is a hexadecimal digit, and the
/// run ends at the end of `s` or at a character that is not one.
pub proof fn lemma_hex_prefix_len(s: Seq<char>)
    ensures
        hex_prefix_len(s) <= s.len(),
        forall|j: int| 0 <= j < hex_prefix_len(s) ==> is_hex_digit(#[trigger] s[j]),
        hex_prefix_len(s) == s.len() || !is_hex_digit(s[hex_prefix_len(s) as int]),
    decreases s.len(),
{
    if s.len() > 0 && is_hex_digit(s[0]) {
        lemma_hex_prefix_len(s.drop_first());
        assert forall|j: int| 0 <= j < hex_prefix_len(s) implies is_hex_digit(#[trigger] s[j]) by {
            if j > 0 {
                assert(s[j] == s.drop_first()[j - 1]);
            }
        }
        if hex_prefix_len(s) < s.len() {
            assert(s[hex_prefix_len(s) as int] == s.drop_first()[hex_prefix_len(s.drop_first()) as int]);
        }
    }
}

fn matches_at(hay: &Vec<char>, needle: &Vec<char>, i: usize) -> (b: bool)
    requires
        i + needle@.len() <= hay@.len(),
    ensures
        b == occurs_at(hay@, needle@, i as int),
{
    let mut j: usize = 0;
    let n = hay.len();
    while j < needle.len()
        invariant
            n == hay@.len(),
            i + needle@.len() <= hay@.len(),
            j <= needle@.len(),
            forall|k: int| 0 <= k < j ==> hay@[i + k] == needle@[k],
        decreases needle@.len() - j,
    {
        assert(i + j < hay@.len());
        if hay[i + j] != needle[j] {
            assert(hay@.subrange(i as int, i + needle@.len())[j as int] != needle@[j as int]);
            return false;
        }
        j = j + 1;
    }
    assert(hay@.subrange(i as int, i + needle@.len()) =~= needle@);
    true
}

/// The first position at which `needle` occurs in `hay` (`str::find`, counted
/// in characters).
pub fn find_chars(hay: &Vec<char>, needle: &Vec<char>) -> (r: Option<usize>)
    ensures
        match r {
            Some(i) => occurs_at(hay@, needle@, i as int)
                && forall|j: int| 0 <= j < i ==> !occurs_at(hay@, needle@, j),
            None => forall|j: int| !occurs_at(hay@, needle@, j),
        },
        first_occurrence(hay@, needle@) == (match r { Some(i) => Some(i as int), None => None::<int> }),
{
    if needle.len() > hay.len() {
        proof {
            lemma_first_occurrence(hay@, needle@, 0, 0);
        }
        return None;
    }
    let last = hay.len() - needle.len();
    let mut i: usize = 0;
    loop
        invariant
            last + needle@.len() == hay@.len(),
            i <= last,
            forall|j: int| 0 <= j < i ==> !occurs_at(hay@, needle@, j),
        decreases last - i,
    {
        if matches_at(hay, needle, i) {
            proof {
                lemma_first_occurrence(hay@, needle@, 0, i as int);
            }
            return Some(i);
        }
        if i == last {
            proof {
                lemma_first_occurrence(hay@, needle@, 0, i + 1);
            }
            return None;
        }
        i = i + 1;
    }
}

/// Whether `needle` occurs in `hay`.
pub fn contains_chars(hay: &Vec<char>, needle: &Vec<char>) -> (b: bool)
    ensures
        b == contains(hay@, needle@),
{
    find_chars(hay, needle).is_some()
}

/// Whether `s` begins with `prefix`.
pub fn starts_with_chars(s: &Vec<char>, prefix: &Vec<char>) -> (b: bool)
    ensures
        b == starts_with(s@, prefix@),
{
    if prefix.len() > s.len() {
        return false;
    }
    let b = matches_at(s, prefix, 0);
    b
}

/// Whether two character strings are equal.
pub fn chars_equal(a: &Vec<char>, b: &Vec<char>) -> (r: bool)
    ensures
        r == (a@ == b@),
{
    if a.len() != b.len() {
        return false;
    }
    let r = matches_at(a, b, 0);
    assert(a@ =~= a@.subrange(0, b@.len() as int));
    r
}

/// Appends the characters of `s` to `v`.
pub fn push_str(v: &mut Vec<char>, s: &str)
    ensures
        final(v)@ == old(v)@ + s@,
{
    let mut cs = str_chars(s);
    v.append(&mut cs);
}

/// Appends the characters of `cs` to `v`.
pub fn push_chars(v: &mut Vec<char>, cs: &Vec<char>)
    ensures
        final(v)@ == old(v)@ + cs@,
{
    let mut i: usize = 0;
    let ghost start = v@;
    while i < cs.len()
        invariant
            i <= cs@.len(),
            v@ == start + cs@.subrange(0, i as int),
        decreases cs@.len() - i,
    {
        v.push(cs[i]);
        i = i + 1;
        assert(v@ =~= start + cs@.subrange(0, i as int));
    }
    assert(cs@.subrange(0, cs@.len() as int) =~= cs@);
}

/// Whether `c` is `0`-`9`, `a`-`f` or `A`-`F` (`char::is_ascii_hexdigit`).
pub open spec fn is_hex_digit(c: char) -> bool {
    ('0' <= c <= '9') || ('a' <= c <= 'f') || ('A' <= c <= 'F')
}

/// The number of hexadecimal digits at the start of `s`.
pub open spec fn hex_prefix_len(s: Seq<char>) -> nat
    decreases s.len(),
{
    if s.len() > 0 && is_hex_digit(s[0]) {
        1 + hex_prefix_len(s.drop_first())
    } else {
        0
    }
}

/// `s` with ASCII capital letters made small (what `str::to_lowercase` does
/// to ASCII text).
pub open spec fn ascii_lower(s: Seq<char>) -> Seq<char> {
    s.map_values(|c: char| if 'A' <= c <= 'Z' { ((c as int) + 32) as char } else { c })
}

/// Whether every character of `s` is ASCII.
pub open spec fn is_ascii_text(s: Seq<char>) -> bool {
    forall|i: int| 0 <= i < s.len() ==> (#[trigger] s[i] as int) < 128
}

/// `s` with ASCII small letters made capital (what `str::to_uppercase` does
/// to ASCII text).
pub open spec fn ascii_upper(s: Seq<char>) -> Seq<char> {
    s.map_values(|c: char| if 'a' <= c <= 'z' { ((c as int) - 32) as char } else { c })
}

/// `cs` with ASCII capital letters made small.
pub fn ascii_lower_chars(cs: &Vec<char>) -> (res: Vec<char>)
    ensures
        res@ == ascii_lower(cs@),
{
    let mut res: Vec<char> = Vec::new();
    let mut i: usize = 0;
    while i < cs.len()
        invariant
            i <= cs@.len(),
            res@ == ascii_lower(cs@.subrange(0, i as int)),
        decreases cs@.len() - i,
    {
        let c = cs[i];
        let d = if 'A' <= c && c <= 'Z' { ((c as u32) + 32) as u8 as char } else { c };
        res.push(d);
        i = i + 1;
        assert(res@ =~= ascii_lower(cs@.subrange(0, i as int)));
    }
    assert(cs@.subrange(0, cs@.len() as int) =~= cs@);
    res
}

/// The number of hexadecimal digits at the start of `cs[from..]`.
pub fn hex_prefix_len_from(cs: &Vec<char>, from: usize) -> (n: usize)
    requires
        from <= cs@.len(),
    ensures
        n == hex_prefix_len(cs@.skip(from as int)),
        from + n <= cs@.len(),
{
    let mut i = from;
    while i < cs.len() && (('0' <= cs[i] && cs[i] <= '9') || ('a' <= cs[i] && cs[i] <= 'f') || ('A' <= cs[i] && cs[i] <= 'F'))
        invariant
            from <= i <= cs@.len(),
            hex_prefix_len(cs@.skip(from as int)) == (i - from) + hex_prefix_len(cs@.skip(i as int)),
        decreases cs@.len() - i,
    {
        assert(cs@.skip(i as int).drop_first() =~= cs@.skip(i + 1));
        i = i + 1;
    }
    i - from
}

} // verus!
