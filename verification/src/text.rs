//! Text building blocks with exact specifications: decimal numbers,
//! byte-indexed prefixes, padding and trimming.
use vstd::prelude::*;
use vstd::utf8::*;
use vstd::string::StringSliceAdditionalSpecFns;

verus! {

/// The character of a decimal digit.
pub open spec fn digit_char(d: nat) -> char {
    if d == 0 { '0' }
    else if d == 1 { '1' }
    else if d == 2 { '2' }
    else if d == 3 { '3' }
    else if d == 4 { '4' }
    else if d == 5 { '5' }
    else if d == 6 { '6' }
    else if d == 7 { '7' }
    else if d == 8 { '8' }
    else { '9' }
}

/// The decimal representation of a natural number, without leading zeros.
pub open spec fn decimal(n: nat) -> Seq<char>
    decreases n,
{
    if n < 10 {
        seq![digit_char(n)]
    } else {
        decimal(n / 10).push(digit_char(n % 10))
    }
}

/// The decimal representation of an integer, with a leading `-` when negative.
pub open spec fn signed_decimal(n: int) -> Seq<char> {
    if n < 0 {
        seq!['-'] + decimal((-n) as nat)
    } else {
        decimal(n as nat)
    }
}

fn digit_str(d: u64) -> (s: &'static str)
    requires
        d < 10,
    ensures
        s@ == seq![digit_char(d as nat)],
{
    if d == 0 { proof { reveal_strlit("0"); } "0" }
    else if d == 1 { proof { reveal_strlit("1"); } "1" }
    else if d == 2 { proof { reveal_strlit("2"); } "2" }
    else if d == 3 { proof { reveal_strlit("3"); } "3" }
    else if d == 4 { proof { reveal_strlit("4"); } "4" }
    else if d == 5 { proof { reveal_strlit("5"); } "5" }
    else if d == 6 { proof { reveal_strlit("6"); } "6" }
    else if d == 7 { proof { reveal_strlit("7"); } "7" }
    else if d == 8 { proof { reveal_strlit("8"); } "8" }
    else { proof { reveal_strlit("9"); } "9" }
}

/// Formats an unsigned number as `{}` does.
pub fn u64_to_string(n: u64) -> (s: String)
    ensures
        s@ == decimal(n as nat),
    decreases n,
{
    if n < 10 {
        String::from_str(digit_str(n))
    } else {
        let mut s = u64_to_string(n / 10);
        s.append(digit_str(n % 10));
        s
    }
}

/// Formats a signed number as `{}` does.
pub fn i64_to_string(n: i64) -> (s: String)
    ensures
        s@ == signed_decimal(n as int),
{
    if n < 0 {
        let magnitude: u64 = if n == i64::MIN { 9223372036854775808u64 } else { (-n) as u64 };
        let mut s = String::from_str("-");
        proof { reveal_strlit("-"); }
        let digits = u64_to_string(magnitude);
        s.append(digits.as_str());
        s
    } else {
        u64_to_string(n as u64)
    }
}

/// The UTF-8 length in bytes of a character sequence, as `str::len` counts it.
pub open spec fn byte_len(s: Seq<char>) -> nat {
    encode_utf8(s).len()
}

/// `str::len`: the number of bytes in the UTF-8 encoding of `s`.
/// Trusted: every string in memory has an encoding whose length fits a `usize`,
/// so the count is exact; vstd's own specification of `str::len` leaves that bound open.
#[verifier::external_body]
pub fn utf8_len(s: &str) -> (n: usize)
    ensures
        n as nat == byte_len(s@),
{
    s.len()
}

/// What `&s[..n]` holds: the characters whose encoding makes up the first `n` bytes.
pub open spec fn byte_prefix(s: Seq<char>, n: int) -> Seq<char> {
    if n >= byte_len(s) {
        s
    } else {
        decode_utf8(encode_utf8(s).subrange(0, n))
    }
}

/// Whether `&s[..n]` may be taken: `n` lies within the string and on a character boundary.
pub open spec fn can_slice_to(s: Seq<char>, n: int) -> bool {
    &&& 0 <= n <= byte_len(s)
    &&& (n < byte_len(s) ==> is_char_boundary(encode_utf8(s), n))
}

/// Whether `&s[..n.min(s.len())]` may be taken: the first `n` bytes of `s`, or all of a
/// shorter `s`, end on a character boundary.
pub open spec fn can_show_upto(s: Seq<char>, n: int) -> bool {
    can_slice_to(s, if byte_len(s) < n { byte_len(s) as int } else { n })
}

/// `s[..n].to_string()`.
pub fn prefix_bytes(s: &str, n: usize) -> (res: String)
    requires
        can_slice_to(s@, n as int),
    ensures
        res@ == byte_prefix(s@, n as int),
{
    if n >= utf8_len(s) {
        s.to_owned()
    } else {
        let (head, _) = s.split_at(n);
        let res = head.to_owned();
        proof {
            encode_utf8_decode_utf8(res@);
        }
        res
    }
}

/// `s[..n.min(s.len())].to_string()`.
pub fn prefix_upto(s: &str, n: usize) -> (res: String)
    requires
        can_show_upto(s@, n as int),
    ensures
        res@ == byte_prefix(s@, n as int),
{
    let len = utf8_len(s);
    let k = if n < len { n } else { len };
    prefix_bytes(s, k)
}

/// `n` copies of `c`.
pub open spec fn repeat_char(c: char, n: nat) -> Seq<char> {
    Seq::new(n, |_i: int| c)
}

/// `unit.repeat(n)` for a one-character `unit`.
pub fn repeat_text(unit: &str, n: usize) -> (res: String)
    requires
        unit@.len() == 1,
    ensures
        res@ == repeat_char(unit@[0], n as nat),
{
    let mut res = String::new();
    let mut i: usize = 0;
    while i < n
        invariant
            i <= n,
            unit@.len() == 1,
            res@ == repeat_char(unit@[0], i as nat),
        decreases n - i,
    {
        res.append(unit);
        i = i + 1;
        assert(res@ =~= repeat_char(unit@[0], i as nat));
    }
    res
}

/// What `format!("{:<w$}", s)` gives: `s` followed by spaces up to `w` characters.
pub open spec fn pad_right(s: Seq<char>, w: nat) -> Seq<char> {
    if s.len() >= w {
        s
    } else {
        s + repeat_char(' ', (w - s.len()) as nat)
    }
}

/// `format!("{:<w$}", s)`.
pub fn padded(s: &str, w: usize) -> (res: String)
    ensures
        res@ == pad_right(s@, w as nat),
{
    let len = s.unicode_len();
    let mut res = s.to_owned();
    if len < w {
        proof { reveal_strlit(" "); }
        let fill = repeat_text(" ", w - len);
        res.append(fill.as_str());
    }
    res
}

/// Whether two strings hold the same characters.
pub fn same_text(a: &str, b: &str) -> (r: bool)
    ensures
        r == (a@ == b@),
{
    let x = a.as_bytes();
    let y = b.as_bytes();
    proof {
        encode_utf8_decode_utf8(a@);
        encode_utf8_decode_utf8(b@);
    }
    if x.len() != y.len() {
        return false;
    }
    let mut i: usize = 0;
    while i < x.len()
        invariant
            x@ == a.spec_bytes(),
            y@ == b.spec_bytes(),
            x@.len() == y@.len(),
            i <= x@.len(),
            forall|j: int| 0 <= j < i ==> x@[j] == y@[j],
        decreases x@.len() - i,
    {
        if x[i] != y[i] {
            assert(x@[i as int] != y@[i as int]);
            assert(x@ != y@);
            return false;
        }
        i = i + 1;
    }
    assert(x@ =~= y@);
    true
}

/// `a` followed by `b`.
pub fn concat(a: &str, b: &str) -> (res: String)
    ensures
        res@ == a@ + b@,
{
    let mut res = a.to_owned();
    res.append(b);
    res
}

/// `s` without the `'/'` characters at its end.
pub open spec fn trim_end_slashes(s: Seq<char>) -> Seq<char>
    decreases s.len(),
{
    if s.len() > 0 && s.last() == '/' {
        trim_end_slashes(s.drop_last())
    } else {
        s
    }
}

/// `s.trim_end_matches('/')`.
pub fn trim_end_slash(s: &str) -> (res: String)
    ensures
        res@ == trim_end_slashes(s@),
{
    let n = s.unicode_len();
    let mut k: usize = n;
    assert(s@.subrange(0, n as int) =~= s@);
    while k > 0 && s.get_char(k - 1) == '/'
        invariant
            k <= n,
            n == s@.len(),
            trim_end_slashes(s@.subrange(0, k as int)) == trim_end_slashes(s@),
        decreases k,
    {
        assert(s@.subrange(0, k as int).drop_last() =~= s@.subrange(0, k - 1));
        k = k - 1;
    }
    let res = s.substring_char(0, k).to_owned();
    res
}

/// Formats an `i32` as `{}` does.
pub fn i32_to_string(n: i32) -> (s: String)
    ensures
        s@ == signed_decimal(n as int),
{
    i64_to_string(n as i64)
}

/// Formats a `u32` as `{}` does.
pub fn u32_to_string(n: u32) -> (s: String)
    ensures
        s@ == decimal(n as nat),
{
    u64_to_string(n as u64)
}

/// Formats a `usize` as `{}` does.
pub fn usize_to_string(n: usize) -> (s: String)
    ensures
        s@ == decimal(n as nat),
{
    u64_to_string(n as u64)
}

/// The text of an optional string, or `default` when it is absent.
pub open spec fn text_or(o: Option<String>, default: Seq<char>) -> Seq<char> {
    match o {
        Some(s) => s@,
        None => default,
    }
}

/// `o.as_deref().unwrap_or(default)`.
pub fn or_text(o: &Option<String>, default: &str) -> (res: String)
    ensures
        res@ == text_or(*o, default@),
{
    match o {
        Some(s) => s.clone(),
        None => default.to_owned(),
    }
}

/// Integer division rounding toward zero, as Rust's `/` does.
pub open spec fn div_toward_zero(a: int, d: int) -> int {
    if a >= 0 {
        a / d
    } else {
        -((-a) / d)
    }
}

/// `a / d` on `i64`, for a positive divisor.
pub fn i64_div(a: i64, d: i64) -> (q: i64)
    requires
        d > 0,
    ensures
        q as int == div_toward_zero(a as int, d as int),
{
    if a >= 0 {
        ((a as u64) / (d as u64)) as i64
    } else {
        let m: u64 = if a == i64::MIN { 9223372036854775808u64 } else { (-a) as u64 };
        let q: u64 = m / (d as u64);
        if q == 9223372036854775808u64 {
            i64::MIN
        } else {
            -(q as i64)
        }
    }
}

/// The value a string of decimal digits spells.
pub open spec fn value_of_digits(s: Seq<char>) -> nat
    decreases s.len(),
{
    if s.len() == 0 {
        0
    } else {
        value_of_digits(s.drop_last()) * 10 + ((s.last() as nat) - ('0' as nat)) as nat
    }
}

proof fn lemma_digit_value(d: nat)
    requires
        d < 10,
    ensures
        digit_char(d) as nat == ('0' as nat) + d,
        '0' <= digit_char(d) <= '9',
{
    assert(('0' as nat) == 48);
    assert(('1' as nat) == 49);
    assert(('2' as nat) == 50);
    assert(('3' as nat) == 51);
    assert(('4' as nat) == 52);
    assert(('5' as nat) == 53);
    assert(('6' as nat) == 54);
    assert(('7' as nat) == 55);
    assert(('8' as nat) == 56);
    assert(('9' as nat) == 57);
}

/// A number's decimal text is made of digits only, starts with a non-zero digit unless it is
/// `0` itself, and reads back as the number: formatting loses nothing.
pub proof fn law_decimal_reads_back(n: nat)
    ensures
        decimal(n).len() > 0,
        forall|i: int| 0 <= i < decimal(n).len() ==> '0' <= #[trigger] decimal(n)[i] <= '9',
        n > 0 ==> decimal(n)[0] != '0',
        value_of_digits(decimal(n)) == n,
    decreases n,
{
    if n >= 10 {
        law_decimal_reads_back(n / 10);
        lemma_digit_value(n % 10);
        assert(n == (n / 10) * 10 + n % 10) by (nonlinear_arith);
        let d = decimal(n);
        assert(d.drop_last() =~= decimal(n / 10));
        assert(d.last() == digit_char(n % 10));
        assert(value_of_digits(d) == value_of_digits(decimal(n / 10)) * 10 + (n % 10));
        assert(d[0] == decimal(n / 10)[0]);
        assert forall|i: int| 0 <= i < d.len() implies '0' <= #[trigger] d[i] <= '9' by {
            if i < d.len() - 1 {
                assert(d[i] == decimal(n / 10)[i]);
            }
        }
    } else {
        lemma_digit_value(n);
        assert(decimal(n).drop_last() =~= Seq::<char>::empty());
        assert(decimal(n).last() == digit_char(n));
        assert(value_of_digits(decimal(n)) == value_of_digits(Seq::<char>::empty()) * 10 + n);
    }
}

/// The integer a signed decimal text spells: its digits, negated after a leading `-`.
pub open spec fn value_of_signed_digits(s: Seq<char>) -> int {
    if s.len() > 0 && s[0] == '-' {
        -(value_of_digits(s.drop_first()) as int)
    } else {
        value_of_digits(s) as int
    }
}

/// An integer's text starts with `-` exactly when it is negative, and reads back as the integer.
pub proof fn law_signed_decimal_reads_back(n: int)
    ensures
        signed_decimal(n).len() > 0,
        (signed_decimal(n)[0] == '-') <==> n < 0,
        value_of_signed_digits(signed_decimal(n)) == n,
{
    if n < 0 {
        law_decimal_reads_back((-n) as nat);
        assert((seq!['-'] + decimal((-n) as nat)).drop_first() =~= decimal((-n) as nat));
    } else {
        law_decimal_reads_back(n as nat);
        assert('0' <= decimal(n as nat)[0] <= '9');
    }
}

/// `pad_right` makes a string exactly `w` characters long when it is shorter, and leaves it as it is otherwise.
pub proof fn law_padding_length(s: Seq<char>, w: nat)
    ensures
        pad_right(s, w).len() == if s.len() >= w { s.len() } else { w },
        pad_right(s, w).subrange(0, s.len() as int) == s,
{
    assert(pad_right(s, w).subrange(0, s.len() as int) =~= s);
}

/// Trimming leaves no slash at the end, takes away nothing but slashes at the end,
/// and a second trim changes nothing.
pub proof fn law_trim_end_slashes(s: Seq<char>)
    ensures
        trim_end_slashes(s).len() == 0 || trim_end_slashes(s).last() != '/',
        trim_end_slashes(s).len() <= s.len(),
        s.subrange(0, trim_end_slashes(s).len() as int) == trim_end_slashes(s),
        forall|i: int| trim_end_slashes(s).len() <= i < s.len() ==> s[i] == '/',
        trim_end_slashes(trim_end_slashes(s)) == trim_end_slashes(s),
    decreases s.len(),
{
    if s.len() > 0 && s.last() == '/' {
        law_trim_end_slashes(s.drop_last());
        let t = trim_end_slashes(s.drop_last());
        assert(s.subrange(0, t.len() as int) =~= s.drop_last().subrange(0, t.len() as int));
        assert forall|i: int| t.len() <= i < s.len() implies s[i] == '/' by {
            if i < s.len() - 1 {
                assert(s[i] == s.drop_last()[i]);
            }
        }
    } else {
        assert(s.subrange(0, s.len() as int) =~= s);
    }
}

/// Where `&s[..n]` may be taken, what is kept is exactly the first `n` bytes of `s`
/// (all of `s` when it is shorter).
pub proof fn law_prefix_keeps_first_bytes(s: Seq<char>, n: int)
    requires
        can_slice_to(s, n),
    ensures
        encode_utf8(byte_prefix(s, n)) == encode_utf8(s).subrange(0, n),
        byte_len(byte_prefix(s, n)) == n,
{
    let bytes = encode_utf8(s);
    if n >= byte_len(s) {
        assert(bytes.subrange(0, n) =~= bytes);
    } else {
        encode_utf8_valid_utf8(s);
        valid_utf8_split(bytes, n);
        decode_utf8_encode_utf8(bytes.subrange(0, n));
    }
}

/// On ASCII text the first `n` bytes are the first `n` characters.
pub proof fn law_ascii_prefix(s: Seq<char>, n: int)
    requires
        is_ascii_chars(s),
        0 <= n,
    ensures
        byte_len(s) == s.len(),
        byte_prefix(s, n) == if n >= s.len() { s } else { s.subrange(0, n) },
{
    is_ascii_chars_encode_utf8(s);
    if n < s.len() {
        let t = s.subrange(0, n);
        assert(is_ascii_chars(t));
        is_ascii_chars_encode_utf8(t);
        assert(encode_utf8(t) =~= encode_utf8(s).subrange(0, n));
        encode_utf8_decode_utf8(t);
    }
}

} // verus!
