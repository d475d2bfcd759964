use vstd::prelude::*;
use vstd::std_specs::iter::IteratorSpec;
use vstd::string::StrSliceExecFns;

verus! {

/// The whitespace set that the tokenizer skips between tag parts.
pub open spec fn is_space(c: char) -> bool {
    c == ' ' || c == '\t' || c == '\n' || c == '\r' || c == '\x0C'
}

/// Unicode whitespace (the White_Space property), as trimming uses it.
pub open spec fn is_white_space(c: char) -> bool {
    ('\t' <= c && c <= '\r') || c == ' ' || c == '\u{85}' || c == '\u{A0}' || c == '\u{1680}' || (
    '\u{2000}' <= c && c <= '\u{200A}') || c == '\u{2028}' || c == '\u{2029}' || c == '\u{202F}'
        || c == '\u{205F}' || c == '\u{3000}'
}

/// Whether `c` is Unicode whitespace.
pub fn white_space(c: char) -> (r: bool)
    ensures
        r == is_white_space(c),
{
    ('\t' <= c && c <= '\r') || c == ' ' || c == '\u{85}' || c == '\u{A0}' || c == '\u{1680}' || (
    '\u{2000}' <= c && c <= '\u{200A}') || c == '\u{2028}' || c == '\u{2029}' || c == '\u{202F}'
        || c == '\u{205F}' || c == '\u{3000}'
}

/// An ASCII letter.
pub open spec fn is_ascii_alpha(c: char) -> bool {
    ('a' <= c && c <= 'z') || ('A' <= c && c <= 'Z')
}

/// An ASCII digit.
pub open spec fn is_ascii_digit(c: char) -> bool {
    '0' <= c && c <= '9'
}

/// An ASCII letter or digit.
pub open spec fn is_ascii_alnum(c: char) -> bool {
    is_ascii_alpha(c) || is_ascii_digit(c)
}

/// ASCII lowercase of one character; every other character is kept.
pub open spec fn lower_char(c: char) -> char {
    if 'A' <= c && c <= 'Z' {
        ((c as u8) + 32) as char
    } else {
        c
    }
}

/// ASCII lowercase of every character of `s`.
pub open spec fn lower(s: Seq<char>) -> Seq<char> {
    s.map_values(|c: char| lower_char(c))
}

/// Whether `c` is tag whitespace.
pub fn space(c: char) -> (r: bool)
    ensures
        r == is_space(c),
{
    c == ' ' || c == '\t' || c == '\n' || c == '\r' || c == '\x0C'
}

/// Whether `c` is an ASCII letter.
pub fn alpha(c: char) -> (r: bool)
    ensures
        r == is_ascii_alpha(c),
{
    ('a' <= c && c <= 'z') || ('A' <= c && c <= 'Z')
}

/// Whether `c` is an ASCII letter or digit.
pub fn alnum(c: char) -> (r: bool)
    ensures
        r == is_ascii_alnum(c),
{
    ('a' <= c && c <= 'z') || ('A' <= c && c <= 'Z') || ('0' <= c && c <= '9')
}

/// ASCII lowercase of `c`.
pub fn to_lower_char(c: char) -> (r: char)
    ensures
        r == lower_char(c),
{
    if 'A' <= c && c <= 'Z' {
        ((c as u8) + 32) as char
    } else {
        c
    }
}

/// U+0000 and the C0 controls other than TAB, LF, FF and CR become U+FFFD.
pub open spec fn filter_char(c: char) -> char {
    if c == '\0' || (('\x01' <= c && c <= '\x1F') && c != '\t' && c != '\n' && c != '\r'
        && c != '\x0C') {
        '\u{FFFD}'
    } else {
        c
    }
}

/// `s` with each character passed through `filter_char`.
pub open spec fn filtered(s: Seq<char>) -> Seq<char> {
    s.map_values(|c: char| filter_char(c))
}

/// Whether `lit` stands in `s` at index `i`.
pub open spec fn occurs_at(s: Seq<char>, i: int, lit: Seq<char>) -> bool {
    0 <= i && i + lit.len() <= s.len() && s.subrange(i, i + lit.len()) == lit
}

/// The first index at or after `from` that holds `c`, or the length of `s`.
pub open spec fn next_index_of(s: Seq<char>, from: int, c: char) -> int
    decreases s.len() - from,
{
    if from >= s.len() {
        s.len() as int
    } else if s[from] == c {
        from
    } else {
        next_index_of(s, from + 1, c)
    }
}

/// `c`, or U+FFFD where `c` is U+0000 or a disallowed C0 control.
pub fn filter_one(c: char) -> (r: char)
    ensures
        r == filter_char(c),
{
    if c == '\0' || (('\x01' <= c && c <= '\x1F') && c != '\t' && c != '\n' && c != '\r'
        && c != '\x0C') {
        '\u{FFFD}'
    } else {
        c
    }
}

/// Replaces U+0000 and the disallowed C0 controls of `text[from..to]` by U+FFFD.
pub fn replace_invalid_characters(text: &Vec<char>, from: usize, to: usize) -> (r: Vec<char>)
    requires
        from <= to <= text@.len(),
    ensures
        r@ == filtered(text@.subrange(from as int, to as int)),
{
    let mut out: Vec<char> = Vec::new();
    let mut i: usize = from;
    while i < to
        invariant
            from <= i <= to <= text@.len(),
            out@ == filtered(text@.subrange(from as int, i as int)),
        decreases to - i,
    {
        out.push(filter_one(text[i]));
        i = i + 1;
        assert(out@ =~= filtered(text@.subrange(from as int, i as int)));
    }
    out
}

/// A copy of `text[from..to]`.
pub fn copy_range(text: &Vec<char>, from: usize, to: usize) -> (r: Vec<char>)
    requires
        from <= to <= text@.len(),
    ensures
        r@ == text@.subrange(from as int, to as int),
{
    let mut out: Vec<char> = Vec::new();
    let mut i: usize = from;
    while i < to
        invariant
            from <= i <= to <= text@.len(),
            out@ == text@.subrange(from as int, i as int),
        decreases to - i,
    {
        out.push(text[i]);
        i = i + 1;
        assert(out@ =~= text@.subrange(from as int, i as int));
    }
    out
}

/// ASCII lowercase of `text[from..to]`.
pub fn lower_range(text: &Vec<char>, from: usize, to: usize) -> (r: Vec<char>)
    requires
        from <= to <= text@.len(),
    ensures
        r@ == lower(text@.subrange(from as int, to as int)),
{
    let mut out: Vec<char> = Vec::new();
    let mut i: usize = from;
    while i < to
        invariant
            from <= i <= to <= text@.len(),
            out@ == lower(text@.subrange(from as int, i as int)),
        decreases to - i,
    {
        out.push(to_lower_char(text[i]));
        i = i + 1;
        assert(out@ =~= lower(text@.subrange(from as int, i as int)));
    }
    out
}

/// The characters of a string, in order.
pub fn str_to_chars(s: &str) -> (r: Vec<char>)
    ensures
        r@ == s@,
{
    broadcast use vstd::string::group_string_axioms;
    let mut out: Vec<char> = Vec::new();
    let mut it = s.chars();
    loop
        invariant
            it.obeys_prophetic_iter_laws(),
            it.decrease() is Some,
            out@ + it.remaining() == s@,
        ensures
            out@ == s@,
        decreases it.decrease()->0,
    {
        match it.next() {
            Some(c) => {
                out.push(c);
            },
            None => {
                assert(out@ + it.remaining() =~= out@);
                break;
            },
        }
    }
    out
}

/// Relies on `String`'s `FromIterator<char>`: the string holds the characters in order.
#[verifier::external_body]
pub(crate) fn chars_to_string(v: &Vec<char>) -> (r: String)
    ensures
        r@ == v@,
{
    v.iter().collect()
}

/// Whether the string literal `lit` stands in `text` at index `i`.
pub fn occurs(text: &Vec<char>, i: usize, lit: &str) -> (r: bool)
    ensures
        r == occurs_at(text@, i as int, lit@),
{
    let n = lit.unicode_len();
    if i > text.len() || text.len() - i < n {
        return false;
    }
    let mut k: usize = 0;
    while k < n
        invariant
            n == lit@.len(),
            i + n <= text@.len(),
            text@.len() <= usize::MAX,
            k <= n,
            forall|j: int| 0 <= j < k ==> text@[i + j] == lit@[j],
        decreases n - k,
    {
        if text[i + k] != lit.get_char(k) {
            assert(text@.subrange(i as int, i + n)[k as int] != lit@[k as int]);
            return false;
        }
        k = k + 1;
    }
    assert(text@.subrange(i as int, i + n) =~= lit@);
    true
}

/// Whether the characters of `lit` stand in `text` at index `i`, ignoring ASCII case.
pub fn occurs_ignore_case(text: &Vec<char>, i: usize, lit: &str) -> (r: bool)
    ensures
        r == (i + lit@.len() <= text@.len() && lower(text@.subrange(i as int, i + lit@.len()))
            == lower(lit@)),
{
    let n = lit.unicode_len();
    if i > text.len() || text.len() - i < n {
        return false;
    }
    let mut k: usize = 0;
    while k < n
        invariant
            n == lit@.len(),
            i + n <= text@.len(),
            text@.len() <= usize::MAX,
            k <= n,
            forall|j: int| 0 <= j < k ==> lower_char(text@[i + j]) == lower_char(lit@[j]),
        decreases n - k,
    {
        if to_lower_char(text[i + k]) != to_lower_char(lit.get_char(k)) {
            assert(lower(text@.subrange(i as int, i + n))[k as int] != lower(lit@)[k as int]);
            return false;
        }
        k = k + 1;
    }
    assert(lower(text@.subrange(i as int, i + n)) =~= lower(lit@));
    true
}

/// Whether `v` holds exactly the characters of `lit`.
pub fn equals_str(v: &Vec<char>, lit: &str) -> (r: bool)
    ensures
        r == (v@ == lit@),
{
    if v.len() != lit.unicode_len() {
        return false;
    }
    let r = occurs(v, 0, lit);
    proof {
        if r {
            assert(v@ =~= v@.subrange(0, v@.len() as int));
        } else {
            assert(v@.subrange(0, v@.len() as int) =~= v@);
        }
    }
    r
}

/// The first index at or after `from` where `lit` occurs in `text`.
pub fn find_str(text: &Vec<char>, from: usize, lit: &str) -> (r: Option<usize>)
    requires
        from <= text@.len(),
    ensures
        r matches Some(k) ==> from <= k && occurs_at(text@, k as int, lit@),
        r matches Some(k) ==> forall|j: int| from <= j < k ==> !occurs_at(text@, j, lit@),
        r is None ==> forall|j: int| from <= j ==> !occurs_at(text@, j, lit@),
{
    let mut k: usize = from;
    loop
        invariant
            from <= k <= text@.len(),
            forall|j: int| from <= j < k ==> !occurs_at(text@, j, lit@),
        ensures
            forall|j: int| from <= j <= text@.len() ==> !occurs_at(text@, j, lit@),
        decreases text@.len() - k,
    {
        if occurs(text, k, lit) {
            return Some(k);
        }
        if k == text.len() {
            break;
        }
        k = k + 1;
    }
    assert forall|j: int| from <= j implies !occurs_at(text@, j, lit@) by {
        if j > text@.len() {
            assert(j + lit@.len() > text@.len());
        }
    }
    None
}

/// The first index at or after `from` that holds `c`, or the length of `text`.
pub fn index_of(text: &Vec<char>, from: usize, c: char) -> (r: usize)
    requires
        from <= text@.len(),
    ensures
        r == next_index_of(text@, from as int, c),
        from <= r <= text@.len(),
{
    let mut k: usize = from;
    while k < text.len() && text[k] != c
        invariant
            from <= k <= text@.len(),
            next_index_of(text@, from as int, c) == next_index_of(text@, k as int, c),
        decreases text@.len() - k,
    {
        k = k + 1;
    }
    k
}


/// Whether `lit` stands in `text` at index `i`.
pub fn occurs_vec(text: &Vec<char>, i: usize, lit: &Vec<char>) -> (r: bool)
    ensures
        r == occurs_at(text@, i as int, lit@),
{
    let n = lit.len();
    if i > text.len() || text.len() - i < n {
        return false;
    }
    let mut k: usize = 0;
    while k < n
        invariant
            n == lit@.len(),
            i + n <= text@.len(),
            text@.len() <= usize::MAX,
            k <= n,
            forall|j: int| 0 <= j < k ==> text@[i + j] == lit@[j],
        decreases n - k,
    {
        if text[i + k] != lit[k] {
            assert(text@.subrange(i as int, i + n)[k as int] != lit@[k as int]);
            return false;
        }
        k = k + 1;
    }
    assert(text@.subrange(i as int, i + n) =~= lit@);
    true
}

/// A copy of `v`.
pub fn clone_chars(v: &Vec<char>) -> (r: Vec<char>)
    ensures
        r@ == v@,
{
    let r = copy_range(v, 0, v.len());
    assert(v@.subrange(0, v@.len() as int) =~= v@);
    r
}


/// Appends the characters of `lit` to `v`.
pub fn push_str(v: &mut Vec<char>, lit: &str)
    ensures
        final(v)@ == old(v)@ + lit@,
{
    let n = lit.unicode_len();
    let mut k: usize = 0;
    while k < n
        invariant
            n == lit@.len(),
            k <= n,
            v@ == old(v)@ + lit@.subrange(0, k as int),
        decreases n - k,
    {
        v.push(lit.get_char(k));
        k = k + 1;
        assert(v@ =~= old(v)@ + lit@.subrange(0, k as int));
    }
    assert(lit@.subrange(0, n as int) =~= lit@);
}

/// Appends `w` to `v`.
pub fn push_chars(v: &mut Vec<char>, w: &Vec<char>)
    ensures
        final(v)@ == old(v)@ + w@,
{
    let mut k: usize = 0;
    while k < w.len()
        invariant
            k <= w@.len(),
            v@ == old(v)@ + w@.subrange(0, k as int),
        decreases w@.len() - k,
    {
        v.push(w[k]);
        k = k + 1;
        assert(v@ =~= old(v)@ + w@.subrange(0, k as int));
    }
    assert(w@.subrange(0, w@.len() as int) =~= w@);
}

/// Lowercasing twice is lowercasing once.
pub proof fn lemma_lower_idempotent(s: Seq<char>)
    ensures
        lower(lower(s)) == lower(s),
{
    assert forall|i: int| 0 <= i < s.len() implies lower_char(lower_char(s[i])) == lower_char(
        s[i],
    ) by {
        let c = s[i];
        if 'A' <= c && c <= 'Z' {
            assert(65 <= (c as u8) <= 90);
        }
    }
    assert(lower(lower(s)) =~= lower(s));
}


/// Whether `a` and `b` hold the same characters.
pub fn same_chars(a: &Vec<char>, b: &Vec<char>) -> (r: bool)
    ensures
        r == (a@ == b@),
{
    if a.len() != b.len() {
        return false;
    }
    let r = occurs_vec(a, 0, b);
    assert(a@.subrange(0, b@.len() as int) =~= a@);
    r
}

} // verus!
