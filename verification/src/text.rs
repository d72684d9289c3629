//! Character-level text handling: white space, trimming, ASCII case folding,
//! PowerShell single-quote escaping and decimal rendering of integers.
use vstd::prelude::*;

verus! {

/// The characters that carry the Unicode `White_Space` property, which is
/// what `char::is_whitespace` and `str::trim` test.
pub open spec fn is_white_space(c: char) -> bool {
    let n = c as u32;
    ||| 9 <= n <= 13
    ||| n == 32
    ||| n == 0x85
    ||| n == 0xA0
    ||| n == 0x1680
    ||| 0x2000 <= n <= 0x200A
    ||| n == 0x2028
    ||| n == 0x2029
    ||| n == 0x202F
    ||| n == 0x205F
    ||| n == 0x3000
}

/// A text is blank when it holds white space only (so it trims to nothing).
pub open spec fn is_blank(s: Seq<char>) -> bool {
    forall|i: int| 0 <= i < s.len() ==> is_white_space(#[trigger] s[i])
}

/// The text without its leading white space.
pub open spec fn trim_start(s: Seq<char>) -> Seq<char>
    decreases s.len(),
{
    if s.len() > 0 && is_white_space(s[0]) {
        trim_start(s.drop_first())
    } else {
        s
    }
}

/// The text without its trailing white space.
pub open spec fn trim_end(s: Seq<char>) -> Seq<char>
    decreases s.len(),
{
    if s.len() > 0 && is_white_space(s.last()) {
        trim_end(s.drop_last())
    } else {
        s
    }
}

/// The text without leading and trailing white space.
pub open spec fn trim(s: Seq<char>) -> Seq<char> {
    trim_end(trim_start(s))
}

/// A character with its ASCII upper-case letter, if it is one, made lower case.
pub open spec fn ascii_lower_char(c: char) -> char {
    if 'A' <= c && c <= 'Z' {
        ((c as u32) + 32) as char
    } else {
        c
    }
}

/// A text with every ASCII upper-case letter made lower case.
pub open spec fn ascii_lower(s: Seq<char>) -> Seq<char> {
    s.map_values(|c: char| ascii_lower_char(c))
}

/// Two texts that are equal when ASCII case is ignored.
pub open spec fn eq_ignore_ascii_case(a: Seq<char>, b: Seq<char>) -> bool {
    ascii_lower(a) == ascii_lower(b)
}

/// One character as it stands inside a PowerShell single-quoted string:
/// the ASCII apostrophe is doubled, every other character stands for itself.
pub open spec fn ps_escape_char(c: char) -> Seq<char> {
    if c == '\'' {
        seq!['\'', '\'']
    } else {
        seq![c]
    }
}

/// A text as it stands inside a PowerShell single-quoted string.
pub open spec fn ps_escape(s: Seq<char>) -> Seq<char>
    decreases s.len(),
{
    if s.len() == 0 {
        Seq::empty()
    } else {
        ps_escape(s.drop_last()) + ps_escape_char(s.last())
    }
}

/// The decimal digit for a number below ten.
pub open spec fn digit_char(d: nat) -> char {
    (d + 48) as char
}

/// The decimal rendering of a natural number, without leading zeros.
pub open spec fn decimal(n: nat) -> Seq<char>
    decreases n,
{
    if n < 10 {
        seq![digit_char(n)]
    } else {
        decimal(n / 10) + seq![digit_char(n % 10)]
    }
}

/// The decimal rendering of an integer, with a minus sign when negative.
pub open spec fn signed_decimal(n: int) -> Seq<char> {
    if n < 0 {
        seq!['-'] + decimal((-n) as nat)
    } else {
        decimal(n as nat)
    }
}

/// Reads a single-quoted PowerShell string body back: each doubled quote
/// stands for one quote, every other character for itself.
pub open spec fn ps_unescape(t: Seq<char>) -> Seq<char>
    decreases t.len(),
{
    if t.len() == 0 {
        Seq::empty()
    } else if t.len() >= 2 && t.last() == '\'' && t[t.len() - 2] == '\'' {
        ps_unescape(t.subrange(0, t.len() - 2)) + seq!['\'']
    } else {
        ps_unescape(t.drop_last()) + seq![t.last()]
    }
}

/// Every ASCII apostrophe in the text belongs to a doubled pair, so no
/// apostrophe in it ends a single-quoted PowerShell string early.
pub open spec fn quotes_paired(t: Seq<char>) -> bool
    decreases t.len(),
{
    if t.len() == 0 {
        true
    } else if t.last() == '\'' {
        t.len() >= 2 && t[t.len() - 2] == '\'' && quotes_paired(t.subrange(0, t.len() - 2))
    } else {
        quotes_paired(t.drop_last())
    }
}

/// Escaping pairs every ASCII apostrophe of a text, and reading the escaped
/// text back gives the text that was escaped. Typographic quotes (U+2018 to
/// U+201B) are left as they are.
pub proof fn lemma_ps_escape_reads_back(s: Seq<char>)
    ensures
        quotes_paired(ps_escape(s)),
        ps_unescape(ps_escape(s)) == s,
    decreases s.len(),
{
    if s.len() > 0 {
        let p = s.drop_last();
        lemma_ps_escape_reads_back(p);
        let e = ps_escape(s);
        if s.last() == '\'' {
            assert(e.subrange(0, e.len() - 2) =~= ps_escape(p));
        } else {
            assert(e.drop_last() =~= ps_escape(p));
        }
        assert(s =~= p + seq![s.last()]);
    }
}

/// The number a text of decimal digits stands for.
pub open spec fn digits_value(d: Seq<char>) -> int
    decreases d.len(),
{
    if d.len() == 0 {
        0
    } else {
        digits_value(d.drop_last()) * 10 + (d.last() as int - 48)
    }
}

/// Every character is a decimal digit.
pub open spec fn all_digits(d: Seq<char>) -> bool {
    forall|i: int| 0 <= i < d.len() ==> '0' <= #[trigger] d[i] && d[i] <= '9'
}

/// A rendered number is a non-empty run of digits, with no leading zero but
/// for zero itself, and it reads back as the number.
pub proof fn lemma_decimal_reads_back(n: nat)
    ensures
        decimal(n).len() > 0,
        all_digits(decimal(n)),
        decimal(n)[0] == '0' ==> n == 0,
        digits_value(decimal(n)) == n,
    decreases n,
{
    let last = n % 10;
    assert(digit_char(last) as int == last + 48);
    if n >= 10 {
        lemma_decimal_reads_back(n / 10);
        let d = decimal(n);
        assert(d.drop_last() =~= decimal(n / 10));
        assert(d[0] == decimal(n / 10)[0]);
        assert(d.last() == digit_char(last));
        assert(digits_value(d) == digits_value(decimal(n / 10)) * 10 + last);
        assert(n == (n / 10) * 10 + n % 10) by (nonlinear_arith);
    } else {
        let d = decimal(n);
        assert(d.drop_last() =~= Seq::<char>::empty());
        assert(d.last() == digit_char(last));
        assert(last == n);
        assert(digits_value(d) == digits_value(d.drop_last()) * 10 + last);
    }
}

/// Trimming the front leaves nothing exactly when the text is blank.
proof fn lemma_trim_start_blank(s: Seq<char>)
    ensures
        (trim_start(s).len() == 0) == is_blank(s),
        trim_start(s).len() > 0 ==> !is_white_space(trim_start(s)[0]),
    decreases s.len(),
{
    if s.len() > 0 && is_white_space(s[0]) {
        let d = s.drop_first();
        lemma_trim_start_blank(d);
        assert(is_blank(s) == is_blank(d)) by {
            if is_blank(d) {
                assert forall|i: int| 0 <= i < s.len() implies is_white_space(#[trigger] s[i]) by {
                    if i > 0 {
                        assert(s[i] == d[i - 1]);
                    }
                }
            }
            if is_blank(s) {
                assert forall|i: int| 0 <= i < d.len() implies is_white_space(#[trigger] d[i]) by {
                    assert(d[i] == s[i + 1]);
                }
            }
        }
    }
}

/// Trimming the back leaves nothing exactly when the text is blank.
proof fn lemma_trim_end_blank(s: Seq<char>)
    ensures
        (trim_end(s).len() == 0) == is_blank(s),
    decreases s.len(),
{
    if s.len() > 0 && is_white_space(s.last()) {
        let d = s.drop_last();
        lemma_trim_end_blank(d);
        assert(is_blank(s) == is_blank(d)) by {
            if is_blank(d) {
                assert forall|i: int| 0 <= i < s.len() implies is_white_space(#[trigger] s[i]) by {
                    if i < d.len() {
                        assert(s[i] == d[i]);
                    }
                }
            }
            if is_blank(s) {
                assert forall|i: int| 0 <= i < d.len() implies is_white_space(#[trigger] d[i]) by {
                    assert(d[i] == s[i]);
                }
            }
        }
    } else if s.len() > 0 {
        assert(!is_white_space(s[s.len() - 1]));
    }
}

/// A text is blank exactly when trimming it leaves nothing, so the check
/// `text.trim().is_empty()` is the blank check.
pub proof fn lemma_blank_iff_trims_to_nothing(s: Seq<char>)
    ensures
        is_blank(s) == (trim(s).len() == 0),
{
    lemma_trim_start_blank(s);
    let t = trim_start(s);
    lemma_trim_end_blank(t);
    if t.len() > 0 {
        assert(!is_white_space(t[0]));
    }
}

/// The text of each string, in order.
pub open spec fn texts(v: Seq<String>) -> Seq<Seq<char>> {
    v.map_values(|s: String| s@)
}

/// Appends a character to a string.
/// Calls `String::push`, which appends the character at the end.
#[verifier::external_body]
pub fn push_char(s: &mut String, c: char)
    ensures
        final(s)@ == old(s)@.push(c),
{
    s.push(c);
}

/// The characters of a text, in order.
pub fn chars_of(s: &str) -> (r: Vec<char>)
    ensures
        r@ == s@,
{
    let mut v: Vec<char> = Vec::new();
    for c in it: s.chars()
        invariant
            v@ == it.seq().take(it.index() as int),
    {
        v.push(c);
    }
    v
}

/// Whether a character is white space.
pub fn char_is_white_space(c: char) -> (r: bool)
    ensures
        r == is_white_space(c),
{
    let n = c as u32;
    (9 <= n && n <= 13) || n == 32 || n == 0x85 || n == 0xA0 || n == 0x1680 || (0x2000 <= n
        && n <= 0x200A) || n == 0x2028 || n == 0x2029 || n == 0x202F || n == 0x205F || n
        == 0x3000
}

/// Whether a text is blank: `s.trim().is_empty()`.
pub fn text_is_blank(s: &str) -> (r: bool)
    ensures
        r == is_blank(s@),
{
    let v = chars_of(s);
    let mut i: usize = 0;
    while i < v.len()
        invariant
            v@ == s@,
            i <= v.len(),
            forall|j: int| 0 <= j < i ==> is_white_space(#[trigger] s@[j]),
        decreases v.len() - i,
    {
        if !char_is_white_space(v[i]) {
            return false;
        }
        i = i + 1;
    }
    true
}

/// An optional text that is present and not blank.
pub open spec fn is_provided(o: Option<String>) -> bool {
    o matches Some(s) && !is_blank(s@)
}

/// Whether an optional text is present and not blank.
pub fn option_is_provided(o: &Option<String>) -> (r: bool)
    ensures
        r == is_provided(*o),
{
    match o {
        Some(s) => !text_is_blank(s.as_str()),
        None => false,
    }
}

/// Whether an optional text is present and blank.
pub fn option_is_blank(o: &Option<String>) -> (r: bool)
    ensures
        r == (o matches Some(s) && is_blank(s@)),
{
    match o {
        Some(s) => text_is_blank(s.as_str()),
        None => false,
    }
}

/// The text between the first and the last character that is not white space.
pub fn trimmed(s: &str) -> (r: String)
    ensures
        r@ == trim(s@),
{
    let v = chars_of(s);
    let mut start: usize = 0;
    assert(s@.subrange(0, s@.len() as int) =~= s@);
    while start < v.len() && char_is_white_space(v[start])
        invariant
            v@ == s@,
            start <= v.len(),
            trim_start(s@) == trim_start(s@.subrange(start as int, s@.len() as int)),
        decreases v.len() - start,
    {
        assert(s@.subrange(start as int + 1, s@.len() as int) =~= s@.subrange(
            start as int,
            s@.len() as int,
        ).drop_first());
        start = start + 1;
    }
    assert(trim_start(s@) == s@.subrange(start as int, s@.len() as int));
    let mut end: usize = v.len();
    while end > start && char_is_white_space(v[end - 1])
        invariant
            v@ == s@,
            start <= end <= v.len(),
            trim(s@) == trim_end(s@.subrange(start as int, end as int)),
        decreases end - start,
    {
        assert(s@.subrange(start as int, end - 1) =~= s@.subrange(
            start as int,
            end as int,
        ).drop_last());
        end = end - 1;
    }
    let mut r = String::new();
    let mut i: usize = start;
    while i < end
        invariant
            v@ == s@,
            start <= i <= end <= v.len(),
            r@ == s@.subrange(start as int, i as int),
        decreases end - i,
    {
        push_char(&mut r, v[i]);
        assert(r@ =~= s@.subrange(start as int, i + 1));
        i = i + 1;
    }
    r
}

/// A character with its ASCII upper-case letter, if it is one, made lower case.
pub fn char_to_ascii_lower(c: char) -> (r: char)
    ensures
        r == ascii_lower_char(c),
{
    if 'A' <= c && c <= 'Z' {
        let n: u32 = (c as u32) + 32;
        (n as u8) as char
    } else {
        c
    }
}

/// Whether two texts are equal once their ASCII letters are made lower case.
pub fn lower_equals(a: &str, b: &str) -> (r: bool)
    ensures
        r == (ascii_lower(a@) == ascii_lower(b@)),
{
    let va = chars_of(a);
    let vb = chars_of(b);
    if va.len() != vb.len() {
        assert(ascii_lower(a@).len() != ascii_lower(b@).len());
        return false;
    }
    let mut i: usize = 0;
    while i < va.len()
        invariant
            va@ == a@,
            vb@ == b@,
            va.len() == vb.len(),
            i <= va.len(),
            forall|j: int| 0 <= j < i ==> ascii_lower_char(a@[j]) == ascii_lower_char(b@[j]),
        decreases va.len() - i,
    {
        if char_to_ascii_lower(va[i]) != char_to_ascii_lower(vb[i]) {
            assert(ascii_lower(a@)[i as int] != ascii_lower(b@)[i as int]);
            return false;
        }
        i = i + 1;
    }
    assert(ascii_lower(a@) =~= ascii_lower(b@));
    true
}

/// Whether a text, with its ASCII letters made lower case, equals `lower`.
pub fn lower_is(a: &str, lower: &str) -> (r: bool)
    ensures
        r == (ascii_lower(a@) == lower@),
{
    let va = chars_of(a);
    let vb = chars_of(lower);
    if va.len() != vb.len() {
        assert(ascii_lower(a@).len() != lower@.len());
        return false;
    }
    let mut i: usize = 0;
    while i < va.len()
        invariant
            va@ == a@,
            vb@ == lower@,
            va.len() == vb.len(),
            i <= va.len(),
            forall|j: int| 0 <= j < i ==> ascii_lower_char(a@[j]) == lower@[j],
        decreases va.len() - i,
    {
        if char_to_ascii_lower(va[i]) != vb[i] {
            assert(ascii_lower(a@)[i as int] != lower@[i as int]);
            return false;
        }
        i = i + 1;
    }
    assert(ascii_lower(a@) =~= lower@);
    true
}

/// Appends a text as it stands inside a PowerShell single-quoted string.
pub fn push_ps_escaped(out: &mut String, s: &str)
    ensures
        final(out)@ == old(out)@ + ps_escape(s@),
{
    let v = chars_of(s);
    let mut i: usize = 0;
    while i < v.len()
        invariant
            v@ == s@,
            i <= v.len(),
            out@ == old(out)@ + ps_escape(s@.take(i as int)),
        decreases v.len() - i,
    {
        let c = v[i];
        if c == '\'' {
            push_char(out, '\'');
            push_char(out, '\'');
        } else {
            push_char(out, c);
        }
        assert(s@.take(i + 1).drop_last() =~= s@.take(i as int));
        assert(out@ =~= old(out)@ + ps_escape(s@.take(i + 1)));
        i = i + 1;
    }
    assert(s@.take(v.len() as int) =~= s@);
}

/// Escapes a text for use inside a PowerShell single-quoted string:
/// every ASCII apostrophe is doubled.
pub fn escape_ps_string(s: &str) -> (r: String)
    ensures
        r@ == ps_escape(s@),
{
    let mut r = String::new();
    push_ps_escaped(&mut r, s);
    assert(r@ =~= ps_escape(s@));
    r
}

/// The decimal digit for a number below ten.
fn digit(d: u64) -> (c: char)
    requires
        d < 10,
    ensures
        c == digit_char(d as nat),
{
    let b: u8 = (d as u8) + 48;
    b as char
}

/// Appends the decimal rendering of a natural number.
pub fn push_decimal(out: &mut String, n: u64)
    ensures
        final(out)@ == old(out)@ + decimal(n as nat),
    decreases n,
{
    if n >= 10 {
        push_decimal(out, n / 10);
    }
    push_char(out, digit(n % 10));
    assert(out@ =~= old(out)@ + decimal(n as nat));
}

/// Appends the decimal rendering of an integer, with a minus sign when negative.
pub fn push_signed_decimal(out: &mut String, n: i64)
    ensures
        final(out)@ == old(out)@ + signed_decimal(n as int),
{
    if n < 0 {
        push_char(out, '-');
        let magnitude: u64 = ((-(n + 1)) as u64) + 1;
        push_decimal(out, magnitude);
        assert(out@ =~= old(out)@ + signed_decimal(n as int));
    } else {
        push_decimal(out, n as u64);
    }
}

} // verus!
