//! Character classes, trimming and byte lengths of text, as the form
//! checks and the URL builders of the application see them.
use vstd::prelude::*;
use vstd::utf8::*;

verus! {

broadcast use vstd::string::group_string_axioms;

/// Whether `c` has the Unicode `White_Space` property (what `char::is_whitespace`
/// reports): tab to carriage return, space, next line, no-break space, ogham
/// space mark, the spaces U+2000 to U+200A, line and paragraph separator,
/// narrow no-break space, medium mathematical space and ideographic space.
pub open spec fn unicode_whitespace(c: char) -> bool {
    let n = c as u32;
    ||| 0x09 <= n <= 0x0D
    ||| n == 0x20
    ||| n == 0x85
    ||| n == 0xA0
    ||| n == 0x1680
    ||| 0x2000 <= n <= 0x200A
    ||| n == 0x2028
    ||| n == 0x2029
    ||| n == 0x202F
    ||| n == 0x205F
    ||| n == 0x3000
}

/// Whether `c` has the Unicode `Alphabetic` property (what `char::is_alphabetic` reports).
pub uninterp spec fn unicode_alphabetic(c: char) -> bool;

/// Whether `c` is in one of the Unicode number categories (what `char::is_numeric` reports).
pub uninterp spec fn unicode_numeric(c: char) -> bool;

/// Whether `c` has the Unicode `Lowercase` property (what `char::is_lowercase` reports).
pub uninterp spec fn unicode_lowercase(c: char) -> bool;

/// Whether `c` has the Unicode `Uppercase` property (what `char::is_uppercase` reports).
pub uninterp spec fn unicode_uppercase(c: char) -> bool;

/// `char::is_alphanumeric` is documented as "alphabetic or numeric".
pub open spec fn unicode_alphanumeric(c: char) -> bool {
    unicode_alphabetic(c) || unicode_numeric(c)
}

/// `char::is_whitespace`: claimed to report the `White_Space` property, as
/// listed above.
pub assume_specification[ <char>::is_whitespace ](c: char) -> (r: bool)
    ensures
        r == unicode_whitespace(c),
;

/// `char::is_alphabetic`: claimed to report the `Alphabetic` property, named above.
pub assume_specification[ <char>::is_alphabetic ](c: char) -> (r: bool)
    ensures
        r == unicode_alphabetic(c),
;

/// `char::is_numeric`: claimed to report the number categories, named above.
pub assume_specification[ <char>::is_numeric ](c: char) -> (r: bool)
    ensures
        r == unicode_numeric(c),
;

/// `char::is_lowercase`: claimed to report the `Lowercase` property, named above.
pub assume_specification[ <char>::is_lowercase ](c: char) -> (r: bool)
    ensures
        r == unicode_lowercase(c),
;

/// `char::is_uppercase`: claimed to report the `Uppercase` property, named above.
pub assume_specification[ <char>::is_uppercase ](c: char) -> (r: bool)
    ensures
        r == unicode_uppercase(c),
;

/// `char::is_alphanumeric`: documented as `is_alphabetic() || is_numeric()`.
pub assume_specification[ <char>::is_alphanumeric ](c: char) -> (r: bool)
    ensures
        r == unicode_alphanumeric(c),
;

/// `String::push`: claimed to append the one character at the end.
pub assume_specification[ String::push ](s: &mut String, ch: char)
    ensures
        final(s)@ == old(s)@.push(ch),
;

/// Drops leading white space.
pub open spec fn trim_start(s: Seq<char>) -> Seq<char>
    decreases s.len(),
{
    if s.len() > 0 && unicode_whitespace(s[0]) {
        trim_start(s.drop_first())
    } else {
        s
    }
}

/// Drops trailing white space.
pub open spec fn trim_end(s: Seq<char>) -> Seq<char>
    decreases s.len(),
{
    if s.len() > 0 && unicode_whitespace(s.last()) {
        trim_end(s.drop_last())
    } else {
        s
    }
}

/// The text with white space removed at both ends (what `str::trim` gives).
pub open spec fn trimmed(s: Seq<char>) -> Seq<char> {
    trim_end(trim_start(s))
}

proof fn lemma_trim_start_idem(s: Seq<char>)
    ensures
        trim_start(trim_start(s)) == trim_start(s),
        trim_start(s).len() > 0 ==> !unicode_whitespace(trim_start(s)[0]),
    decreases s.len(),
{
    if s.len() > 0 && unicode_whitespace(s[0]) {
        lemma_trim_start_idem(s.drop_first());
    }
}

proof fn lemma_trim_end_prefix(s: Seq<char>)
    ensures
        trim_end(trim_end(s)) == trim_end(s),
        trim_end(s).len() <= s.len(),
        trim_end(s) == s.subrange(0, trim_end(s).len() as int),
    decreases s.len(),
{
    if s.len() > 0 && unicode_whitespace(s.last()) {
        lemma_trim_end_prefix(s.drop_last());
        assert(s.drop_last().subrange(0, trim_end(s).len() as int) =~= s.subrange(
            0,
            trim_end(s).len() as int,
        ));
    } else {
        assert(s.subrange(0, s.len() as int) =~= s);
    }
}

/// Trimming twice gives what trimming once gives.
pub proof fn lemma_trimmed_idempotent(s: Seq<char>)
    ensures
        trimmed(trimmed(s)) == trimmed(s),
{
    let a = trim_start(s);
    lemma_trim_start_idem(s);
    lemma_trim_end_prefix(a);
    let b = trim_end(a);
    if b.len() > 0 {
        assert(b[0] == a[0]);
    }
    assert(trim_start(b) == b);
}

/// Every character of `s` is white space.
pub open spec fn all_whitespace(s: Seq<char>) -> bool {
    forall|i: int| 0 <= i < s.len() ==> unicode_whitespace(#[trigger] s[i])
}

proof fn lemma_trim_start_append(s: Seq<char>, q: Seq<char>)
    requires
        all_whitespace(q),
    ensures
        trim_start(s + q) == (if trim_start(s).len() > 0 {
            trim_start(s) + q
        } else {
            Seq::<char>::empty()
        }),
    decreases s.len(),
{
    if s.len() == 0 {
        assert(s + q =~= q);
        lemma_trim_start_skip(q, q.len() as int);
        assert(q.subrange(q.len() as int, q.len() as int) =~= Seq::<char>::empty());
    } else if unicode_whitespace(s[0]) {
        assert((s + q)[0] == s[0]);
        assert((s + q).drop_first() =~= s.drop_first() + q);
        lemma_trim_start_append(s.drop_first(), q);
    } else {
        assert((s + q)[0] == s[0]);
    }
}

/// White space put around a text is trimmed away again.
pub proof fn lemma_trimmed_padding(p: Seq<char>, s: Seq<char>, q: Seq<char>)
    requires
        all_whitespace(p),
        all_whitespace(q),
    ensures
        trimmed(p + s + q) == trimmed(s),
{
    let t = p + s + q;
    assert forall|j: int| 0 <= j < p.len() implies unicode_whitespace(#[trigger] t[j]) by {
        assert(t[j] == p[j]);
    }
    lemma_trim_start_skip(t, p.len() as int);
    assert(t.subrange(p.len() as int, t.len() as int) =~= s + q);
    lemma_trim_start_append(s, q);
    let a = trim_start(s);
    if a.len() > 0 {
        let aq = a + q;
        assert forall|j: int| a.len() <= j < aq.len() implies unicode_whitespace(#[trigger] aq[j]) by {
            assert(aq[j] == q[j - a.len()]);
        }
        lemma_trim_end_skip(aq, a.len() as int);
        assert(aq.subrange(0, a.len() as int) =~= a);
    }
}

/// A space on each side of a text: what a careless form entry adds.
pub open spec fn space_padded(s: Seq<char>) -> Seq<char> {
    seq![' '] + s + seq![' ']
}

/// A space on each side is trimmed away, and no character other than a
/// space is added.
pub proof fn lemma_space_padded(s: Seq<char>, c: char)
    requires
        c != ' ',
    ensures
        trimmed(space_padded(s)) == trimmed(s),
        has_char(space_padded(s), c) == has_char(s, c),
{
    let sp = seq![' '];
    assert(unicode_whitespace(' '));
    assert(all_whitespace(sp));
    lemma_trimmed_padding(sp, s, sp);
    let t = space_padded(s);
    assert(t.len() == s.len() + 2);
    if has_char(s, c) {
        let i = choose|i: int| 0 <= i < s.len() && s[i] == c;
        assert(t[i + 1] == s[i]);
    }
    if has_char(t, c) {
        let j = choose|j: int| 0 <= j < t.len() && t[j] == c;
        assert(t[0] == ' ');
        assert(t[t.len() - 1] == ' ');
        assert(s[j - 1] == t[j]);
    }
}

/// Length in bytes of the UTF-8 encoding (what `str::len` gives).
pub open spec fn byte_len(s: Seq<char>) -> nat {
    encode_utf8(s).len()
}

/// Whether `c` occurs in `s`.
pub open spec fn has_char(s: Seq<char>, c: char) -> bool {
    exists|i: int| 0 <= i < s.len() && s[i] == c
}

proof fn lemma_trim_start_skip(s: Seq<char>, i: int)
    requires
        0 <= i <= s.len(),
        forall|j: int| 0 <= j < i ==> unicode_whitespace(#[trigger] s[j]),
    ensures
        trim_start(s) == trim_start(s.subrange(i, s.len() as int)),
    decreases i,
{
    if i > 0 {
        assert(s.drop_first() =~= s.subrange(1, s.len() as int));
        lemma_trim_start_skip(s.drop_first(), i - 1);
        assert(s.drop_first().subrange(i - 1, s.drop_first().len() as int) =~= s.subrange(
            i,
            s.len() as int,
        ));
    } else {
        assert(s.subrange(0, s.len() as int) =~= s);
    }
}

proof fn lemma_trim_end_skip(s: Seq<char>, e: int)
    requires
        0 <= e <= s.len(),
        forall|j: int| e <= j < s.len() ==> unicode_whitespace(#[trigger] s[j]),
    ensures
        trim_end(s) == trim_end(s.subrange(0, e)),
    decreases s.len() - e,
{
    if e < s.len() {
        assert(s.drop_last() =~= s.subrange(0, s.len() - 1));
        lemma_trim_end_skip(s.drop_last(), e);
        assert(s.drop_last().subrange(0, e) =~= s.subrange(0, e));
    } else {
        assert(s.subrange(0, e) =~= s);
    }
}

/// Bounds of the trimmed part: `trimmed(s) == s[start..end]`.
pub proof fn lemma_trimmed_bounds(s: Seq<char>, start: int, end: int)
    requires
        0 <= start <= end <= s.len(),
        forall|j: int| 0 <= j < start ==> unicode_whitespace(#[trigger] s[j]),
        forall|j: int| end <= j < s.len() ==> unicode_whitespace(#[trigger] s[j]),
        start < end ==> !unicode_whitespace(s[start]) && !unicode_whitespace(s[end - 1]),
        start == end ==> end == s.len(),
    ensures
        trimmed(s) == s.subrange(start, end),
{
    lemma_trim_start_skip(s, start);
    let t = s.subrange(start, s.len() as int);
    if start < end {
        assert(trim_start(t) == t);
        lemma_trim_end_skip(t, end - start);
        assert(t.subrange(0, end - start) =~= s.subrange(start, end));
        let u = s.subrange(start, end);
        assert(u.last() == s[end - 1]);
        assert(trim_end(u) == u);
    } else {
        assert(t.len() == 0);
        assert(trim_start(t) == t);
        assert(trim_end(t) == t);
        assert(t =~= s.subrange(start, end));
    }
}

proof fn lemma_encode_utf8_push(s: Seq<char>, c: char)
    ensures
        encode_utf8(s.push(c)) == encode_utf8(s) + encode_scalar(c as u32),
    decreases s.len(),
{
    if s.len() == 0 {
        assert(s.push(c).drop_first() =~= Seq::<char>::empty());
        assert(encode_utf8(Seq::<char>::empty()) =~= Seq::<u8>::empty());
        assert(encode_utf8(s.push(c)) =~= encode_scalar(c as u32));
        assert(encode_utf8(s) + encode_scalar(c as u32) =~= encode_scalar(c as u32));
    } else {
        assert(s.push(c).drop_first() =~= s.drop_first().push(c));
        lemma_encode_utf8_push(s.drop_first(), c);
        assert(encode_utf8(s.push(c)) =~= encode_scalar(s[0] as u32) + encode_utf8(
            s.drop_first().push(c),
        ));
    }
}

/// Number of bytes of the UTF-8 encoding of one character.
pub fn utf8_width(c: char) -> (w: usize)
    ensures
        w == encode_scalar(c as u32).len(),
        1 <= w <= 4,
{
    proof {
        char_is_scalar(c);
    }
    let u = c as u32;
    if u <= 0x7f {
        1
    } else if u <= 0x7ff {
        2
    } else if u <= 0xffff {
        3
    } else {
        4
    }
}

/// The characters of `s`, in order.
pub fn chars_of(s: &str) -> (v: Vec<char>)
    ensures
        v@ == s@,
{
    let mut v: Vec<char> = Vec::new();
    for c in it: s.chars()
        invariant
            v@ == it.seq().take(it.index() as int),
    {
        v.push(c);
    }
    v
}


/// The character sets that the form fields accept.
#[derive(Clone, Copy, PartialEq, Eq)]
pub enum CharClass {
    /// Letters, spaces, apostrophes and hyphens (names and cities).
    NameChars,
    /// Letters, digits and spaces (addresses and postal codes).
    AddressChars,
    /// Digits, `+` and spaces (phone numbers of a guest booking online).
    PhoneChars,
    /// Digits, `+`, spaces and hyphens (phone numbers entered by staff).
    PhoneOrHyphenChars,
}

pub open spec fn class_allows(k: CharClass, c: char) -> bool {
    match k {
        CharClass::NameChars => unicode_alphabetic(c) || c == ' ' || c == '-' || c == '\'',
        CharClass::AddressChars => unicode_alphanumeric(c) || c == ' ',
        CharClass::PhoneChars => unicode_numeric(c) || c == '+' || c == ' ',
        CharClass::PhoneOrHyphenChars => unicode_numeric(c) || c == '+' || c == ' ' || c == '-',
    }
}

/// Every character of `s` belongs to the class.
pub open spec fn all_in_class(s: Seq<char>, k: CharClass) -> bool {
    forall|i: int| 0 <= i < s.len() ==> class_allows(k, #[trigger] s[i])
}

/// Whether one character belongs to the class.
pub fn char_in_class(k: CharClass, c: char) -> (r: bool)
    ensures
        r == class_allows(k, c),
{
    match k {
        CharClass::NameChars => c.is_alphabetic() || c == ' ' || c == '-' || c == '\'',
        CharClass::AddressChars => c.is_alphanumeric() || c == ' ',
        CharClass::PhoneChars => c.is_numeric() || c == '+' || c == ' ',
        CharClass::PhoneOrHyphenChars => c.is_numeric() || c == '+' || c == ' ' || c == '-',
    }
}

/// Positions `(start, end)` with `trimmed(v) == v[start..end]`.
pub fn trim_bounds(v: &Vec<char>) -> (r: (usize, usize))
    ensures
        r.0 <= r.1 <= v@.len(),
        trimmed(v@) == v@.subrange(r.0 as int, r.1 as int),
{
    let n = v.len();
    let mut start: usize = 0;
    while start < n && v[start].is_whitespace()
        invariant
            start <= n == v@.len(),
            forall|j: int| 0 <= j < start ==> unicode_whitespace(#[trigger] v@[j]),
        decreases n - start,
    {
        start = start + 1;
    }
    let mut end: usize = n;
    while end > start && v[end - 1].is_whitespace()
        invariant
            start <= end <= n == v@.len(),
            forall|j: int| end <= j < n ==> unicode_whitespace(#[trigger] v@[j]),
            start < n ==> !unicode_whitespace(v@[start as int]),
        decreases end,
    {
        end = end - 1;
    }
    proof {
        lemma_trimmed_bounds(v@, start as int, end as int);
    }
    (start, end)
}

proof fn lemma_byte_len_zero(s: Seq<char>)
    ensures
        (byte_len(s) == 0) == (s.len() == 0),
{
    if s.len() > 0 {
        char_is_scalar(s[0]);
        assert(encode_utf8(s) == encode_scalar(s[0] as u32) + encode_utf8(s.drop_first()));
    } else {
        assert(encode_utf8(s) =~= Seq::<u8>::empty());
    }
}

/// Whether the UTF-8 length of `v[a..b]` lies in `lo..=hi`.
pub fn byte_len_within(v: &Vec<char>, a: usize, b: usize, lo: usize, hi: usize) -> (r: bool)
    requires
        a <= b <= v@.len(),
        hi < 1_000_000,
    ensures
        r == (lo <= byte_len(v@.subrange(a as int, b as int)) <= hi),
{
    let mut k: usize = a;
    let mut sum: usize = 0;
    assert(v@.subrange(a as int, a as int) =~= Seq::<char>::empty());
    assert(encode_utf8(Seq::<char>::empty()) =~= Seq::<u8>::empty());
    while k < b
        invariant
            a <= k <= b <= v@.len(),
            hi < 1_000_000,
            sum <= hi + 1,
            sum == (if byte_len(v@.subrange(a as int, k as int)) <= hi {
                byte_len(v@.subrange(a as int, k as int)) as int
            } else {
                hi + 1
            }),
        decreases b - k,
    {
        let w = utf8_width(v[k]);
        proof {
            assert(v@.subrange(a as int, k + 1) =~= v@.subrange(a as int, k as int).push(v@[k as int]));
            lemma_encode_utf8_push(v@.subrange(a as int, k as int), v@[k as int]);
        }
        if sum + w > hi {
            sum = hi + 1;
        } else {
            sum = sum + w;
        }
        k = k + 1;
    }
    lo <= sum && sum <= hi
}

/// Whether every character of `v[a..b]` belongs to the class.
pub fn range_in_class(v: &Vec<char>, a: usize, b: usize, k: CharClass) -> (r: bool)
    requires
        a <= b <= v@.len(),
    ensures
        r == all_in_class(v@.subrange(a as int, b as int), k),
{
    let mut i: usize = a;
    while i < b
        invariant
            a <= i <= b <= v@.len(),
            forall|j: int| a <= j < i ==> class_allows(k, #[trigger] v@[j]),
        decreases b - i,
    {
        if !char_in_class(k, v[i]) {
            assert(v@.subrange(a as int, b as int)[i - a] == v@[i as int]);
            return false;
        }
        i = i + 1;
    }
    assert forall|j: int| 0 <= j < b - a implies class_allows(
        k,
        #[trigger] v@.subrange(a as int, b as int)[j],
    ) by {
        assert(v@.subrange(a as int, b as int)[j] == v@[a + j]);
    }
    true
}

/// Whether the character `c` occurs in `s` (what `str::contains` with a `char` gives).
pub fn contains_char(s: &str, c: char) -> (r: bool)
    ensures
        r == has_char(s@, c),
{
    let v = chars_of(s);
    let mut i: usize = 0;
    while i < v.len()
        invariant
            i <= v@.len(),
            v@ == s@,
            forall|j: int| 0 <= j < i ==> v@[j] != c,
        decreases v@.len() - i,
    {
        if v[i] == c {
            return true;
        }
        i = i + 1;
    }
    false
}

/// Whether the trimmed text is `lo..=hi` bytes long and drawn from the class.
pub open spec fn trimmed_fits(s: Seq<char>, lo: nat, hi: nat, k: CharClass) -> bool {
    let t = trimmed(s);
    lo <= byte_len(t) <= hi && all_in_class(t, k)
}

/// Whether the trimmed text is not empty (what `!s.trim().is_empty()` gives).
pub open spec fn non_blank(s: Seq<char>) -> bool {
    trimmed(s).len() > 0
}

/// Checks `trimmed_fits` on a string.
pub fn text_fits(s: &str, lo: usize, hi: usize, k: CharClass) -> (r: bool)
    requires
        hi < 1_000_000,
    ensures
        r == trimmed_fits(s@, lo as nat, hi as nat, k),
{
    let v = chars_of(s);
    let (a, b) = trim_bounds(&v);
    byte_len_within(&v, a, b, lo, hi) && range_in_class(&v, a, b, k)
}

/// Checks `non_blank` on a string.
pub fn is_non_blank(s: &str) -> (r: bool)
    ensures
        r == non_blank(s@),
{
    let v = chars_of(s);
    let (a, b) = trim_bounds(&v);
    a < b
}

/// Non-empty text is at least one byte long, and only empty text is zero bytes long.
pub proof fn lemma_non_blank_bytes(s: Seq<char>)
    ensures
        non_blank(s) == (byte_len(trimmed(s)) >= 1),
{
    lemma_byte_len_zero(trimmed(s));
}


/// The decimal digit `d` (for `0 <= d < 10`).
pub open spec fn digit_char(d: int) -> char {
    if d == 0 {
        '0'
    } else if d == 1 {
        '1'
    } else if d == 2 {
        '2'
    } else if d == 3 {
        '3'
    } else if d == 4 {
        '4'
    } else if d == 5 {
        '5'
    } else if d == 6 {
        '6'
    } else if d == 7 {
        '7'
    } else if d == 8 {
        '8'
    } else {
        '9'
    }
}

/// Decimal digits of `m`, most significant first, without leading zeros.
pub open spec fn digits(m: nat) -> Seq<char>
    decreases m,
{
    if m < 10 {
        seq![digit_char(m as int)]
    } else {
        digits(m / 10).push(digit_char((m % 10) as int))
    }
}

/// Decimal text of an integer, with a `-` before negative ones (what `Display` gives).
pub open spec fn decimal_text(n: int) -> Seq<char> {
    if n < 0 {
        seq!['-'] + digits((-n) as nat)
    } else {
        digits(n as nat)
    }
}

/// `c` is one of the ASCII digits.
pub open spec fn is_digit(c: char) -> bool {
    '0' <= c <= '9'
}

/// Value of an ASCII digit.
pub open spec fn digit_value(c: char) -> int {
    (c as int) - ('0' as int)
}

/// Value of a sequence of ASCII digits.
pub open spec fn digits_value(s: Seq<char>) -> int
    decreases s.len(),
{
    if s.len() == 0 {
        0
    } else {
        digits_value(s.drop_last()) * 10 + digit_value(s.last())
    }
}

/// Every character is an ASCII digit.
pub open spec fn all_digits(s: Seq<char>) -> bool {
    forall|i: int| 0 <= i < s.len() ==> is_digit(#[trigger] s[i])
}

/// The text after an optional leading `+` or `-`.
pub open spec fn unsigned_part(s: Seq<char>) -> Seq<char> {
    if s.len() > 0 && (s[0] == '-' || s[0] == '+') {
        s.drop_first()
    } else {
        s
    }
}

/// The `i32` that `str::parse::<i32>` reads: an optional `+` or `-`, then
/// one or more ASCII digits, and a value in range.
pub open spec fn parsed_i32(s: Seq<char>) -> Option<i32> {
    let body = unsigned_part(s);
    let value = if s.len() > 0 && s[0] == '-' {
        -digits_value(body)
    } else {
        digits_value(body)
    };
    if body.len() == 0 || !all_digits(body) {
        None
    } else if i32::MIN <= value <= i32::MAX {
        Some(value as i32)
    } else {
        None
    }
}

fn digit_to_char(d: u64) -> (c: char)
    requires
        d < 10,
    ensures
        c == digit_char(d as int),
{
    if d == 0 {
        '0'
    } else if d == 1 {
        '1'
    } else if d == 2 {
        '2'
    } else if d == 3 {
        '3'
    } else if d == 4 {
        '4'
    } else if d == 5 {
        '5'
    } else if d == 6 {
        '6'
    } else if d == 7 {
        '7'
    } else if d == 8 {
        '8'
    } else {
        '9'
    }
}

/// Appends the decimal digits of `m`.
pub fn push_digits(s: &mut String, m: u64)
    ensures
        final(s)@ == old(s)@ + digits(m as nat),
    decreases m,
{
    if m >= 10 {
        push_digits(s, m / 10);
    }
    s.push(digit_to_char(m % 10));
    proof {
        if m < 10 {
            assert(digits(m as nat) == seq![digit_char(m as int)]);
        }
    }
    assert(final(s)@ =~= old(s)@ + digits(m as nat)) by {
        if m >= 10 {
            assert(digits(m as nat) == digits((m / 10) as nat).push(digit_char((m % 10) as int)));
        }
    }
}

/// Decimal text of an integer (what `n.to_string()` gives).
pub fn decimal_string(n: i64) -> (r: String)
    ensures
        r@ == decimal_text(n as int),
{
    let mut s = String::new();
    if n < 0 {
        s.push('-');
        let m: u64 = if n == i64::MIN {
            9_223_372_036_854_775_808u64
        } else {
            (-n) as u64
        };
        push_digits(&mut s, m);
    } else {
        push_digits(&mut s, n as u64);
    }
    s
}

proof fn lemma_digits_value_prefix(s: Seq<char>, k: int)
    requires
        0 <= k <= s.len(),
        forall|i: int| 0 <= i < s.len() ==> is_digit(#[trigger] s[i]),
    ensures
        0 <= digits_value(s.subrange(0, k)) <= digits_value(s),
    decreases s.len(),
{
    if s.len() > 0 {
        assert forall|i: int| 0 <= i < s.drop_last().len() implies is_digit(
            #[trigger] s.drop_last()[i],
        ) by {
            assert(s.drop_last()[i] == s[i]);
        }
        if k == s.len() {
            assert(s.subrange(0, k) =~= s);
            lemma_digits_value_prefix(s.drop_last(), 0);
            assert(s.drop_last().subrange(0, 0) =~= Seq::<char>::empty());
        } else {
            lemma_digits_value_prefix(s.drop_last(), k);
            assert(s.drop_last().subrange(0, k) =~= s.subrange(0, k));
            lemma_digits_value_prefix(s.drop_last(), s.drop_last().len() as int);
            assert(s.drop_last().subrange(0, s.drop_last().len() as int) =~= s.drop_last());
            assert(is_digit(s.last()));
        }
    }
}

/// Reads an `i32` written in decimal (what `str::parse::<i32>` gives).
pub fn parse_i32(text: &str) -> (r: Option<i32>)
    ensures
        r == parsed_i32(text@),
{
    let v = chars_of(text);
    let n = v.len();
    let mut i: usize = 0;
    assert(v@ == text@);
    let mut neg = false;
    if n > 0 && (v[0] == '-' || v[0] == '+') {
        neg = v[0] == '-';
        i = 1;
    }
    let ghost body = unsigned_part(v@);
    assert(body =~= v@.subrange(i as int, n as int));
    if i == n {
        return None;
    }
    let mut acc: i64 = 0;
    let mut k: usize = i;
    assert(v@.subrange(i as int, i as int) =~= Seq::<char>::empty());
    while k < n
        invariant
            i <= k <= n == v@.len(),
            i < n,
            body == v@.subrange(i as int, n as int),
            body == unsigned_part(v@),
            neg == (v@.len() > 0 && v@[0] == '-'),
            v@ == text@,
            forall|j: int| i <= j < k ==> is_digit(#[trigger] v@[j]),
            acc == digits_value(v@.subrange(i as int, k as int)),
            0 <= acc <= 2_147_483_648,
        decreases n - k,
    {
        let c = v[k];
        if !('0' <= c && c <= '9') {
            assert(body[k - i] == c);
            assert(!is_digit(body[(k - i) as int]));
            assert(!all_digits(body));
            assert(parsed_i32(v@) is None);
            return None;
        }
        let d: i64 = (c as u32 - '0' as u32) as i64;
        assert(v@.subrange(i as int, k + 1).drop_last() =~= v@.subrange(i as int, k as int));
        let next = acc * 10 + d;
        if next > 2_147_483_648 {
            assert(digits_value(v@.subrange(i as int, k + 1)) == next);
            proof {
                if all_digits(body) {
                    lemma_digits_value_prefix(body, k + 1 - i);
                    assert(body.subrange(0, k + 1 - i) =~= v@.subrange(i as int, k + 1));
                    assert(digits_value(body) > 2_147_483_648);
                }
                assert(parsed_i32(v@) is None);
            }
            return None;
        }
        acc = next;
        k = k + 1;
    }
    assert(v@.subrange(i as int, n as int) == body);
    assert forall|j: int| 0 <= j < body.len() implies is_digit(#[trigger] body[j]) by {
        assert(body[j] == v@[i + j]);
    }
    assert(all_digits(body));
    if neg {
        Some((-acc) as i32)
    } else if acc <= 2_147_483_647 {
        Some(acc as i32)
    } else {
        None
    }
}

proof fn lemma_digits_facts(m: nat)
    ensures
        digits(m).len() > 0,
        forall|i: int| 0 <= i < digits(m).len() ==> is_digit(#[trigger] digits(m)[i]),
        digits_value(digits(m)) == m,
    decreases m,
{
    if m < 10 {
        assert(digit_value(digit_char(m as int)) == m);
        assert(digits(m).drop_last() =~= Seq::<char>::empty());
        assert(digits_value(digits(m)) == digits_value(digits(m).drop_last()) * 10 + digit_value(
            digits(m).last(),
        ));
    }
    if m >= 10 {
        lemma_digits_facts(m / 10);
        let d = digits(m / 10);
        assert(digits(m).drop_last() =~= d);
        let r = m % 10;
        assert(digit_value(digit_char(r as int)) == r);
        assert(digits(m).last() == digit_char(r as int));
        assert((m / 10) * 10 + r == m);
        assert(digits_value(digits(m)) == digits_value(digits(m).drop_last()) * 10 + digit_value(
            digits(m).last(),
        ));
        assert forall|i: int| 0 <= i < digits(m).len() implies is_digit(#[trigger] digits(m)[i]) by {
            if i < d.len() {
                assert(digits(m)[i] == d[i]);
            }
        }
    }
}

/// Reading back the decimal text of an `i32` gives the same `i32`.
pub proof fn lemma_parse_decimal_roundtrip(n: i32)
    ensures
        parsed_i32(decimal_text(n as int)) == Some(n),
{
    let t = decimal_text(n as int);
    if n < 0 {
        lemma_digits_facts((-n) as nat);
        assert(t.drop_first() =~= digits((-n) as nat));
    } else {
        lemma_digits_facts(n as nat);
        assert(is_digit(t[0]));
    }
}


/// Whether two texts are equal (what `==` on `str` gives).
pub fn text_equals(a: &str, b: &str) -> (r: bool)
    ensures
        r == (a@ == b@),
{
    let x = chars_of(a);
    let y = chars_of(b);
    chars_equal(&x, &y)
}

/// Whether two character vectors hold the same text.
pub fn chars_equal(x: &Vec<char>, y: &Vec<char>) -> (r: bool)
    ensures
        r == (x@ == y@),
{
    if x.len() != y.len() {
        return false;
    }
    let mut i: usize = 0;
    while i < x.len()
        invariant
            i <= x@.len() == y@.len(),
            forall|j: int| 0 <= j < i ==> x@[j] == y@[j],
        decreases x@.len() - i,
    {
        if x[i] != y[i] {
            return false;
        }
        i = i + 1;
    }
    assert(x@ =~= y@);
    true
}

/// `"true"` or `"false"` (what `Display` gives for a `bool`).
pub open spec fn bool_text(b: bool) -> Seq<char> {
    if b {
        "true"@
    } else {
        "false"@
    }
}

/// Text of a `bool`.
pub fn bool_string(b: bool) -> (r: String)
    ensures
        r@ == bool_text(b),
{
    if b {
        "true".to_string()
    } else {
        "false".to_string()
    }
}

/// Whether `needle` occurs in `hay` at position `i`.
pub open spec fn occurs_at(hay: Seq<char>, needle: Seq<char>, i: int) -> bool {
    0 <= i && i + needle.len() <= hay.len() && hay.subrange(i, i + needle.len()) == needle
}

/// Whether `needle` occurs in `hay` (what `str::contains` with a `&str` gives).
pub open spec fn contains_text(hay: Seq<char>, needle: Seq<char>) -> bool {
    exists|i: int| occurs_at(hay, needle, i)
}

/// A text put between two others is found there, right after the first.
pub proof fn lemma_occurs_middle(a: Seq<char>, n: Seq<char>, b: Seq<char>)
    ensures
        occurs_at(a + n + b, n, a.len() as int),
        contains_text(a + n + b, n),
{
    assert((a + n + b).subrange(a.len() as int, (a.len() + n.len()) as int) =~= n);
}

/// A text found in a part is found, at the same place, in any text that
/// begins with that part.
pub proof fn lemma_occurs_extend(x: Seq<char>, y: Seq<char>, n: Seq<char>, k: int)
    requires
        occurs_at(x, n, k),
    ensures
        occurs_at(x + y, n, k),
        contains_text(x + y, n),
{
    assert((x + y).subrange(k, k + n.len()) =~= x.subrange(k, k + n.len()));
}

fn matches_at(h: &Vec<char>, n: &Vec<char>, i: usize) -> (r: bool)
    requires
        i + n@.len() <= h@.len(),
    ensures
        r == occurs_at(h@, n@, i as int),
{
    let mut k: usize = 0;
    while k < n.len()
        invariant
            k <= n@.len(),
            i + n@.len() <= h.len(),
            forall|j: int| 0 <= j < k ==> h@[i + j] == n@[j],
        decreases n@.len() - k,
    {
        if h[i + k] != n[k] {
            assert(h@.subrange(i as int, i + n@.len())[k as int] != n@[k as int]);
            return false;
        }
        k = k + 1;
    }
    assert(h@.subrange(i as int, i + n@.len()) =~= n@);
    true
}

/// Whether `needle` occurs in `hay`.
pub fn text_contains(hay: &str, needle: &str) -> (r: bool)
    ensures
        r == contains_text(hay@, needle@),
{
    let h = chars_of(hay);
    let n = chars_of(needle);
    if n.len() > h.len() {
        assert forall|i: int| !occurs_at(h@, n@, i) by {}
        return false;
    }
    let last = h.len() - n.len();
    let mut i: usize = 0;
    while i < last
        invariant
            i <= last,
            last + n@.len() == h@.len(),
            h@ == hay@,
            n@ == needle@,
            forall|j: int| 0 <= j < i ==> !occurs_at(h@, n@, j),
        decreases last - i,
    {
        if matches_at(&h, &n, i) {
            return true;
        }
        i = i + 1;
    }
    if matches_at(&h, &n, last) {
        return true;
    }
    assert forall|j: int| !occurs_at(h@, n@, j) by {
        if 0 <= j < i {
        }
    }
    false
}


/// `k` zero digits.
pub open spec fn zeros(k: int) -> Seq<char> {
    Seq::new(if k > 0 { k as nat } else { 0 }, |i: int| '0')
}

/// Decimal text of `n` padded with zeros after the sign to `width`
/// characters (what `format!("{:0width$}", n)` gives).
pub open spec fn zero_padded(n: int, width: int) -> Seq<char> {
    let body = if n < 0 {
        digits((-n) as nat)
    } else {
        digits(n as nat)
    };
    let sign = if n < 0 {
        seq!['-']
    } else {
        Seq::<char>::empty()
    };
    sign + zeros(width - sign.len() - body.len()) + body
}

/// Decimal text of `n`, zero-padded to `width` characters.
pub fn zero_padded_string(n: i64, width: usize) -> (r: String)
    ensures
        r@ == zero_padded(n as int, width as int),
{
    let mut body = String::new();
    let m: u64 = if n < 0 {
        if n == i64::MIN {
            9_223_372_036_854_775_808u64
        } else {
            (-n) as u64
        }
    } else {
        n as u64
    };
    push_digits(&mut body, m);
    assert(body@ =~= digits(m as nat));
    let body_chars = chars_of(body.as_str());
    let body_len = body_chars.len();
    let mut s = String::new();
    let sign_len: usize = if n < 0 {
        1
    } else {
        0
    };
    if n < 0 {
        s.push('-');
    }
    let ghost sign = s@;
    let mut k: usize = 0;
    let fill: usize = if body_len < width && width - body_len > sign_len {
        width - body_len - sign_len
    } else {
        0
    };
    while k < fill
        invariant
            k <= fill,
            s@ == sign + zeros(k as int),
        decreases fill - k,
    {
        s.push('0');
        k = k + 1;
        assert(s@ =~= sign + zeros(k as int));
    }
    s.append(body.as_str());
    assert(s@ =~= zero_padded(n as int, width as int));
    s
}

/// A count from 0 to 99999 pads to exactly 5 digits.
pub proof fn lemma_pad5_digits(n: int)
    requires
        0 <= n <= 99999,
    ensures
        zero_padded(n, 5).len() == 5,
        all_digits(zero_padded(n, 5)),
        digits_value(zero_padded(n, 5)) == n,
{
    lemma_digits_len(n as nat);
    lemma_digits_facts(n as nat);
    let z = zeros(5 - digits(n as nat).len());
    let p = zero_padded(n, 5);
    assert(p =~= z + digits(n as nat));
    assert forall|i: int| 0 <= i < p.len() implies is_digit(#[trigger] p[i]) by {
        if i < z.len() {
            assert(p[i] == '0');
        } else {
            assert(p[i] == digits(n as nat)[i - z.len()]);
        }
    }
    lemma_digits_value_leading_zeros(z, digits(n as nat));
}

proof fn lemma_digits_len(m: nat)
    ensures
        m < 10 ==> digits(m).len() == 1,
        m < 100 ==> digits(m).len() <= 2,
        m < 1000 ==> digits(m).len() <= 3,
        m < 10000 ==> digits(m).len() <= 4,
        m < 100000 ==> digits(m).len() <= 5,
    decreases m,
{
    if m >= 10 {
        lemma_digits_len(m / 10);
    }
}

proof fn lemma_digits_value_leading_zeros(z: Seq<char>, d: Seq<char>)
    requires
        forall|i: int| 0 <= i < z.len() ==> #[trigger] z[i] == '0',
    ensures
        digits_value(z + d) == digits_value(d) + digits_value(z) * pow10(d.len()),
        digits_value(z) == 0,
    decreases z.len() + d.len(),
{
    if d.len() == 0 {
        assert(z + d =~= z);
        lemma_zero_digits_value(z);
    } else {
        assert((z + d).drop_last() =~= z + d.drop_last());
        lemma_digits_value_leading_zeros(z, d.drop_last());
        assert(pow10(d.len()) == pow10(d.drop_last().len()) * 10);
        assert(digits_value(z) * pow10(d.len()) == 0) by (nonlinear_arith)
            requires
                digits_value(z) == 0,
        ;
        assert(digits_value(z) * pow10(d.drop_last().len()) == 0) by (nonlinear_arith)
            requires
                digits_value(z) == 0,
        ;
    }
}

proof fn lemma_zero_digits_value(z: Seq<char>)
    requires
        forall|i: int| 0 <= i < z.len() ==> #[trigger] z[i] == '0',
    ensures
        digits_value(z) == 0,
    decreases z.len(),
{
    if z.len() > 0 {
        assert forall|i: int| 0 <= i < z.drop_last().len() implies #[trigger] z.drop_last()[i] == '0' by {
            assert(z.drop_last()[i] == z[i]);
        }
        lemma_zero_digits_value(z.drop_last());
        assert(z.last() == '0');
    }
}

/// `10` to the power `k`.
pub open spec fn pow10(k: nat) -> int
    decreases k,
{
    if k == 0 {
        1
    } else {
        10 * pow10((k - 1) as nat)
    }
}


/// The pieces of `s` between the occurrences of `c` (what `str::split`
/// with a `char` gives): always at least one, empty ones included.
pub open spec fn split_on(s: Seq<char>, c: char) -> Seq<Seq<char>>
    decreases s.len(),
{
    if s.len() == 0 {
        seq![Seq::<char>::empty()]
    } else {
        let prev = split_on(s.drop_last(), c);
        if s.last() == c {
            prev.push(Seq::<char>::empty())
        } else {
            prev.update(prev.len() - 1, prev.last().push(s.last()))
        }
    }
}

/// `split_on` always gives at least one piece.
pub proof fn lemma_split_nonempty(s: Seq<char>, c: char)
    ensures
        split_on(s, c).len() >= 1,
    decreases s.len(),
{
    if s.len() > 0 {
        lemma_split_nonempty(s.drop_last(), c);
    }
}

/// Text from its characters.
pub fn string_from_chars(v: &Vec<char>) -> (r: String)
    ensures
        r@ == v@,
{
    let mut s = String::new();
    let mut i: usize = 0;
    while i < v.len()
        invariant
            i <= v@.len(),
            s@ == v@.subrange(0, i as int),
        decreases v@.len() - i,
    {
        s.push(v[i]);
        i = i + 1;
        assert(s@ =~= v@.subrange(0, i as int));
    }
    assert(v@.subrange(0, v@.len() as int) =~= v@);
    s
}

/// The texts held by a sequence of character vectors.
pub open spec fn texts_of(s: Seq<Vec<char>>) -> Seq<Seq<char>> {
    Seq::new(s.len(), |i: int| s[i]@)
}

/// Splits characters at every `c`.
pub fn split_chars(v: &Vec<char>, c: char) -> (r: Vec<Vec<char>>)
    ensures
        texts_of(r@) == split_on(v@, c),
{
    let mut done: Vec<Vec<char>> = Vec::new();
    let mut current: Vec<char> = Vec::new();
    let mut i: usize = 0;
    assert(v@.subrange(0, 0) =~= Seq::<char>::empty());
    while i < v.len()
        invariant
            i <= v@.len(),
            texts_of(done@).push(current@) == split_on(v@.subrange(0, i as int), c),
        decreases v@.len() - i,
    {
        let x = v[i];
        let ghost prefix = v@.subrange(0, i as int);
        assert(v@.subrange(0, i + 1).drop_last() =~= prefix);
        assert(v@.subrange(0, i + 1).last() == x);
        proof {
            lemma_split_nonempty(prefix, c);
        }
        if x == c {
            let finished = current;
            done.push(finished);
            current = Vec::new();
            assert(texts_of(done@) =~= split_on(prefix, c));
            assert(texts_of(done@).push(current@) =~= split_on(v@.subrange(0, i + 1), c));
        } else {
            let ghost before = current@;
            current.push(x);
            assert(texts_of(done@).push(current@) =~= split_on(v@.subrange(0, i + 1), c));
        }
        i = i + 1;
    }
    assert(v@.subrange(0, v@.len() as int) =~= v@);
    let ghost d = texts_of(done@);
    done.push(current);
    assert(texts_of(done@) =~= d.push(done@.last()@));
    done
}

/// `s` with every `%20` turned into a space, left to right (what
/// `str::replace("%20", " ")` gives).
pub open spec fn decode_spaces(s: Seq<char>) -> Seq<char>
    decreases s.len(),
{
    if s.len() >= 3 && s[0] == '%' && s[1] == '2' && s[2] == '0' {
        seq![' '] + decode_spaces(s.subrange(3, s.len() as int))
    } else if s.len() == 0 {
        Seq::<char>::empty()
    } else {
        seq![s[0]] + decode_spaces(s.drop_first())
    }
}

/// Turns every `%20` into a space.
pub fn decode_spaces_chars(v: &Vec<char>) -> (r: Vec<char>)
    ensures
        r@ == decode_spaces(v@),
{
    let n = v.len();
    let mut out: Vec<char> = Vec::new();
    let mut i: usize = 0;
    assert(v@.subrange(0, n as int) =~= v@);
    while i < n
        invariant
            i <= n == v@.len(),
            out@ + decode_spaces(v@.subrange(i as int, n as int)) == decode_spaces(v@),
        decreases n - i,
    {
        let rest = Ghost(v@.subrange(i as int, n as int));
        if n - i >= 3 && v[i] == '%' && v[i + 1] == '2' && v[i + 2] == '0' {
            assert(rest@.subrange(3, rest@.len() as int) =~= v@.subrange(i + 3, n as int));
            out.push(' ');
            i = i + 3;
            assert(out@ + decode_spaces(v@.subrange(i as int, n as int)) =~= decode_spaces(v@));
        } else {
            assert(rest@.drop_first() =~= v@.subrange(i + 1, n as int));
            out.push(v[i]);
            i = i + 1;
            assert(out@ + decode_spaces(v@.subrange(i as int, n as int)) =~= decode_spaces(v@));
        }
    }
    assert(v@.subrange(n as int, n as int) =~= Seq::<char>::empty());
    assert(out@ + Seq::<char>::empty() =~= out@);
    out
}


/// The text without white space at either end (what `str::trim` gives).
pub fn trim_text(s: &str) -> (r: String)
    ensures
        r@ == trimmed(s@),
{
    let v = chars_of(s);
    let (a, b) = trim_bounds(&v);
    let mut out = String::new();
    let mut i: usize = a;
    assert(v@.subrange(a as int, a as int) =~= Seq::<char>::empty());
    while i < b
        invariant
            a <= i <= b <= v@.len(),
            out@ == v@.subrange(a as int, i as int),
        decreases b - i,
    {
        out.push(v[i]);
        i = i + 1;
        assert(out@ =~= v@.subrange(a as int, i as int));
    }
    out
}

} // verus!
