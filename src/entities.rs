use vstd::prelude::*;
use crate::chars::{is_ascii_alnum, occurs_at, str_to_chars, alnum, index_of, next_index_of, copy_range};
use crate::entity_data::{PART_ONE, PART_TWO, PART_THREE, PART_FOUR, PART_FIVE, PART_SIX, PART_SEVEN, PART_EIGHT, PART_NINE, PART_TEN, PART_ELEVEN, PART_TWELVE, PART_THIRTEEN, PARTS};

verus! {

/// A table of named character references: each entry is a name (with or
/// without its trailing `;`) and the characters it stands for.
pub struct EntityTable {
    entries: Vec<(Vec<char>, Vec<char>)>,
}

impl View for EntityTable {
    type V = Seq<(Seq<char>, Seq<char>)>;

    closed spec fn view(&self) -> Seq<(Seq<char>, Seq<char>)> {
        self.entries@.map_values(|e: (Vec<char>, Vec<char>)| (e.0@, e.1@))
    }
}

/// An ASCII hexadecimal digit.
pub open spec fn is_hex_digit(c: char) -> bool {
    ('0' <= c && c <= '9') || ('a' <= c && c <= 'f') || ('A' <= c && c <= 'F')
}

/// A digit of a decimal or (with `hex`) hexadecimal numeric reference.
pub open spec fn is_ref_digit(c: char, hex: bool) -> bool {
    if hex {
        is_hex_digit(c)
    } else {
        '0' <= c && c <= '9'
    }
}

/// The value of a decimal or hexadecimal digit.
pub open spec fn digit_value(c: char) -> nat {
    if '0' <= c && c <= '9' {
        (c as u32 - '0' as u32) as nat
    } else if 'a' <= c && c <= 'f' {
        (c as u32 - 'a' as u32 + 10) as nat
    } else {
        (c as u32 - 'A' as u32 + 10) as nat
    }
}

/// One past the largest code point; numeric references beyond it are held at it.
pub const CODE_POINT_CAP: u32 = 0x110000;

/// The end of the run of digits that starts at `k`.
pub open spec fn digits_end(s: Seq<char>, k: int, hex: bool) -> int
    decreases s.len() - k,
{
    if 0 <= k < s.len() && is_ref_digit(s[k], hex) {
        digits_end(s, k + 1, hex)
    } else {
        k
    }
}

/// The value of the digits `s[j..k]`, held at `CODE_POINT_CAP` once it exceeds it.
pub open spec fn digits_value(s: Seq<char>, j: int, k: int, hex: bool) -> nat
    decreases k - j,
{
    if k <= j {
        0
    } else {
        let base: nat = if hex { 16 } else { 10 };
        let v = digits_value(s, j, k - 1, hex) * base + digit_value(s[k - 1]);
        if v > CODE_POINT_CAP as nat {
            CODE_POINT_CAP as nat
        } else {
            v
        }
    }
}

/// The character whose code point is `n`.
pub open spec fn char_of(n: nat) -> char {
    (n as u32) as char
}

/// The Windows-1252 remapping of the numeric references 0x80 to 0x9F.
pub open spec fn windows_1252(n: nat) -> Option<char> {
    if n == 0x80 {
        Some('\u{20AC}')
    } else if n == 0x82 {
        Some('\u{201A}')
    } else if n == 0x83 {
        Some('\u{0192}')
    } else if n == 0x84 {
        Some('\u{201E}')
    } else if n == 0x85 {
        Some('\u{2026}')
    } else if n == 0x86 {
        Some('\u{2020}')
    } else if n == 0x87 {
        Some('\u{2021}')
    } else if n == 0x88 {
        Some('\u{02C6}')
    } else if n == 0x89 {
        Some('\u{2030}')
    } else if n == 0x8A {
        Some('\u{0160}')
    } else if n == 0x8B {
        Some('\u{2039}')
    } else if n == 0x8C {
        Some('\u{0152}')
    } else if n == 0x8E {
        Some('\u{017D}')
    } else if n == 0x91 {
        Some('\u{2018}')
    } else if n == 0x92 {
        Some('\u{2019}')
    } else if n == 0x93 {
        Some('\u{201C}')
    } else if n == 0x94 {
        Some('\u{201D}')
    } else if n == 0x95 {
        Some('\u{2022}')
    } else if n == 0x96 {
        Some('\u{2013}')
    } else if n == 0x97 {
        Some('\u{2014}')
    } else if n == 0x98 {
        Some('\u{02DC}')
    } else if n == 0x99 {
        Some('\u{2122}')
    } else if n == 0x9A {
        Some('\u{0161}')
    } else if n == 0x9B {
        Some('\u{203A}')
    } else if n == 0x9C {
        Some('\u{0153}')
    } else if n == 0x9E {
        Some('\u{017E}')
    } else if n == 0x9F {
        Some('\u{0178}')
    } else {
        None
    }
}

/// What a numeric reference with value `n` decodes to.
pub open spec fn numeric_char(n: nat) -> char {
    if n == 0 || (0xD800 <= n <= 0xDFFF) || n > 0x10FFFF {
        '\u{FFFD}'
    } else if windows_1252(n) is Some {
        windows_1252(n)->0
    } else {
        char_of(n)
    }
}

/// Among the first `n` entries of `t`, the index of the longest name that
/// occurs in `s` at `at` (the earliest of equally long ones).
pub open spec fn best_match(t: Seq<(Seq<char>, Seq<char>)>, s: Seq<char>, at: int, n: int) -> Option<int>
    decreases n,
{
    if n <= 0 {
        None
    } else {
        let prev = best_match(t, s, at, n - 1);
        let name = t[n - 1].0;
        if name.len() > 0 && occurs_at(s, at, name) && (prev is None || name.len()
            > t[prev->0].0.len()) {
            Some(n - 1)
        } else {
            prev
        }
    }
}

/// A best match is an entry of the table whose name occurs at `at`.
proof fn lemma_best_match_range(t: Seq<(Seq<char>, Seq<char>)>, s: Seq<char>, at: int, n: int)
    ensures
        best_match(t, s, at, n) matches Some(m) ==> 0 <= m < n && t[m].0.len() > 0 && occurs_at(
            s,
            at,
            t[m].0,
        ),
    decreases n,
{
    if n > 0 {
        lemma_best_match_range(t, s, at, n - 1);
    }
}

/// The character reference that starts with the `&` at `i`: where it ends and
/// what it decodes to, or `None` where none is recognised.
pub open spec fn char_ref(t: Seq<(Seq<char>, Seq<char>)>, s: Seq<char>, i: int, attr: bool) -> Option<(int, Seq<char>)> {
    if i + 1 < s.len() && s[i + 1] == '#' {
        let hex = i + 2 < s.len() && (s[i + 2] == 'x' || s[i + 2] == 'X');
        let j = if hex { i + 3 } else { i + 2 };
        let k = digits_end(s, j, hex);
        if k == j {
            None
        } else {
            let end = if k < s.len() && s[k] == ';' { k + 1 } else { k };
            Some((end, seq![numeric_char(digits_value(s, j, k, hex))]))
        }
    } else {
        match best_match(t, s, i + 1, t.len() as int) {
            None => None,
            Some(m) => {
                let name = t[m].0;
                let e = i + 1 + name.len();
                if attr && name.last() != ';' && e < s.len() && (s[e] == '=' || is_ascii_alnum(s[e])) {
                    None
                } else {
                    Some((e, t[m].1))
                }
            },
        }
    }
}

/// The decoding of `s[i..]`: each recognised character reference is replaced,
/// any other `&` is kept and scanning goes on at the next character.
pub open spec fn decode_from(t: Seq<(Seq<char>, Seq<char>)>, s: Seq<char>, i: int, attr: bool) -> Seq<char>
    decreases s.len() - i,
{
    if i < 0 || i >= s.len() {
        Seq::empty()
    } else if s[i] != '&' {
        seq![s[i]] + decode_from(t, s, i + 1, attr)
    } else {
        match char_ref(t, s, i, attr) {
            Some((end, out)) => if i < end <= s.len() {
                out + decode_from(t, s, end, attr)
            } else {
                seq!['&'] + decode_from(t, s, i + 1, attr)
            },
            None => seq!['&'] + decode_from(t, s, i + 1, attr),
        }
    }
}

/// The decoding of all of `s`.
pub open spec fn decode(t: Seq<(Seq<char>, Seq<char>)>, s: Seq<char>, attr: bool) -> Seq<char> {
    decode_from(t, s, 0, attr)
}

/// Relies on `char::from_u32`: `Some` exactly for the scalar values, with that code point.
#[verifier::external_body]
fn char_from_code(n: u32) -> (r: Option<char>)
    ensures
        (r is Some) == (n <= 0x10FFFF && !(0xD800 <= n <= 0xDFFF)),
        r matches Some(c) ==> c as u32 == n,
{
    char::from_u32(n)
}


/// The value of one digit of a numeric reference.
fn digit_of(c: char) -> (r: u32)
    requires
        is_hex_digit(c),
    ensures
        r as nat == digit_value(c),
        r < 16,
{
    if '0' <= c && c <= '9' {
        (c as u32) - ('0' as u32)
    } else if 'a' <= c && c <= 'f' {
        (c as u32) - ('a' as u32) + 10
    } else {
        (c as u32) - ('A' as u32) + 10
    }
}

/// Whether `c` is a digit of a decimal or (with `hex`) hexadecimal reference.
fn ref_digit(c: char, hex: bool) -> (r: bool)
    ensures
        r == is_ref_digit(c, hex),
{
    if hex {
        ('0' <= c && c <= '9') || ('a' <= c && c <= 'f') || ('A' <= c && c <= 'F')
    } else {
        '0' <= c && c <= '9'
    }
}

/// The Windows-1252 remapping of a numeric reference, where it has one.
fn remap_1252(n: u32) -> (r: Option<char>)
    ensures
        r == windows_1252(n as nat),
{
    match n {
        0x80 => Some('\u{20AC}'),
        0x82 => Some('\u{201A}'),
        0x83 => Some('\u{0192}'),
        0x84 => Some('\u{201E}'),
        0x85 => Some('\u{2026}'),
        0x86 => Some('\u{2020}'),
        0x87 => Some('\u{2021}'),
        0x88 => Some('\u{02C6}'),
        0x89 => Some('\u{2030}'),
        0x8A => Some('\u{0160}'),
        0x8B => Some('\u{2039}'),
        0x8C => Some('\u{0152}'),
        0x8E => Some('\u{017D}'),
        0x91 => Some('\u{2018}'),
        0x92 => Some('\u{2019}'),
        0x93 => Some('\u{201C}'),
        0x94 => Some('\u{201D}'),
        0x95 => Some('\u{2022}'),
        0x96 => Some('\u{2013}'),
        0x97 => Some('\u{2014}'),
        0x98 => Some('\u{02DC}'),
        0x99 => Some('\u{2122}'),
        0x9A => Some('\u{0161}'),
        0x9B => Some('\u{203A}'),
        0x9C => Some('\u{0153}'),
        0x9E => Some('\u{017E}'),
        0x9F => Some('\u{0178}'),
        _ => None,
    }
}

/// The character that a numeric reference of value `n` stands for.
fn numeric_reference_char(n: u32) -> (r: char)
    requires
        n <= CODE_POINT_CAP,
    ensures
        r == numeric_char(n as nat),
{
    if n == 0 || (0xD800 <= n && n <= 0xDFFF) || n > 0x10FFFF {
        return '\u{FFFD}';
    }
    match remap_1252(n) {
        Some(c) => c,
        None => match char_from_code(n) {
            Some(c) => {
                proof {
                    vstd::utf8::char_u32_cast(c, n);
                }
                c
            },
            None => '\u{FFFD}',
        },
    }
}

/// The data of part `p` of the named-reference table.
pub open spec fn part_text(p: int) -> Seq<char> {
    if p == 0 {
        PART_ONE@
    } else if p == 1 {
        PART_TWO@
    } else if p == 2 {
        PART_THREE@
    } else if p == 3 {
        PART_FOUR@
    } else if p == 4 {
        PART_FIVE@
    } else if p == 5 {
        PART_SIX@
    } else if p == 6 {
        PART_SEVEN@
    } else if p == 7 {
        PART_EIGHT@
    } else if p == 8 {
        PART_NINE@
    } else if p == 9 {
        PART_TEN@
    } else if p == 10 {
        PART_ELEVEN@
    } else if p == 11 {
        PART_TWELVE@
    } else {
        PART_THIRTEEN@
    }
}

/// The records of `d` from `i` on: a name up to a space, then the
/// replacement up to the next space; records with an empty name are skipped.
pub open spec fn records_from(d: Seq<char>, i: int) -> Seq<(Seq<char>, Seq<char>)>
    decreases d.len() - i,
{
    if i < 0 || i >= d.len() {
        Seq::empty()
    } else {
        let ne = next_index_of(d, i, ' ');
        let vs = if ne < d.len() { ne + 1 } else { ne };
        let ve = next_index_of(d, vs, ' ');
        let next = if ve < d.len() { ve + 1 } else { ve };
        let rest = if i < next <= d.len() {
            records_from(d, next)
        } else {
            Seq::empty()
        };
        if i < ne <= d.len() && vs <= ve <= d.len() {
            seq![(d.subrange(i, ne), d.subrange(vs, ve))] + rest
        } else {
            rest
        }
    }
}

/// The records of the first `n` parts, in order.
pub open spec fn table_upto(n: int) -> Seq<(Seq<char>, Seq<char>)>
    decreases n,
{
    if n <= 0 {
        Seq::empty()
    } else {
        table_upto(n - 1) + records_from(part_text(n - 1), 0)
    }
}

/// The HTML5 named character references: every record of every part.
pub open spec fn html5_table() -> Seq<(Seq<char>, Seq<char>)> {
    table_upto(PARTS as int)
}

pub open spec fn entries_view(v: Seq<(Vec<char>, Vec<char>)>) -> Seq<(Seq<char>, Seq<char>)> {
    v.map_values(|e: (Vec<char>, Vec<char>)| (e.0@, e.1@))
}

/// The data of part `p` of the named-reference table.
fn part(p: usize) -> (r: &'static str)
    ensures
        r@ == part_text(p as int),
{
    if p == 0 {
        PART_ONE
    } else if p == 1 {
        PART_TWO
    } else if p == 2 {
        PART_THREE
    } else if p == 3 {
        PART_FOUR
    } else if p == 4 {
        PART_FIVE
    } else if p == 5 {
        PART_SIX
    } else if p == 6 {
        PART_SEVEN
    } else if p == 7 {
        PART_EIGHT
    } else if p == 8 {
        PART_NINE
    } else if p == 9 {
        PART_TEN
    } else if p == 10 {
        PART_ELEVEN
    } else if p == 11 {
        PART_TWELVE
    } else {
        PART_THIRTEEN
    }
}

/// Appends the records of `data` (name, space, replacement, space) to `entries`.
fn add_records(entries: &mut Vec<(Vec<char>, Vec<char>)>, data: &Vec<char>)
    ensures
        entries_view(final(entries)@) == entries_view(old(entries)@) + records_from(data@, 0),
{
    let len = data.len();
    let mut i: usize = 0;
    while i < len
        invariant
            i <= len == data@.len(),
            entries_view(entries@) + records_from(data@, i as int) == entries_view(old(entries)@)
                + records_from(data@, 0),
        decreases len - i,
    {
        let ne = index_of(data, i, ' ');
        let vs = if ne < len { ne + 1 } else { ne };
        let ve = index_of(data, vs, ' ');
        let next = if ve < len { ve + 1 } else { ve };
        let ghost before = entries_view(entries@);
        let ghost rest = records_from(data@, next as int);
        if ne > i {
            let name = copy_range(data, i, ne);
            let value = copy_range(data, vs, ve);
            entries.push((name, value));
            assert(entries_view(entries@) =~= before.push((data@.subrange(i as int, ne as int), data@.subrange(vs as int, ve as int))));
            assert(before + (seq![(data@.subrange(i as int, ne as int), data@.subrange(vs as int, ve as int))] + rest) =~= entries_view(entries@) + rest);
        }
        i = next;
    }
}

impl EntityTable {
    /// The table of the HTML5 named character references.
    pub fn html5() -> (r: EntityTable)
        ensures
            r@ == html5_table(),
    {
        let mut entries: Vec<(Vec<char>, Vec<char>)> = Vec::new();
        let mut p: usize = 0;
        assert(entries_view(entries@) =~= table_upto(0));
        while p < PARTS
            invariant
                p <= PARTS,
                entries_view(entries@) == table_upto(p as int),
            decreases PARTS - p,
        {
            let data = str_to_chars(part(p));
            add_records(&mut entries, &data);
            p = p + 1;
        }
        EntityTable { entries }
    }

    /// The index of the longest name that occurs in `s` at `at`.
    fn longest_match(&self, s: &Vec<char>, at: usize) -> (r: Option<usize>)
        ensures
            r matches Some(m) ==> best_match(self@, s@, at as int, self@.len() as int) == Some(m as int) && m < self@.len() && self@[m as int].0.len() > 0 && occurs_at(
                s@,
                at as int,
                self@[m as int].0,
            ),
            r == (match best_match(self@, s@, at as int, self@.len() as int) {
                Some(m) => Some(m as usize),
                None => None::<usize>,
            }),
    {
        let mut best: Option<usize> = None;
        let mut best_len: usize = 0;
        let mut n: usize = 0;
        while n < self.entries.len()
            invariant
                n <= self@.len(),
                self@.len() == self.entries@.len(),
                best == (match best_match(self@, s@, at as int, n as int) {
                    Some(m) => Some(m as usize),
                    None => None::<usize>,
                }),
                best matches Some(b) ==> b < n && best_len == self@[b as int].0.len(),
            decreases self@.len() - n,
        {
            proof {
                lemma_best_match_range(self@, s@, at as int, n as int);
            }
            let name = &self.entries[n].0;
            assert(self@[n as int].0 == name@);
            if name.len() > 0 && crate::chars::occurs_vec(s, at, name) && (best.is_none()
                || name.len() > best_len) {
                best = Some(n);
                best_len = name.len();
            }
            n = n + 1;
        }
        proof {
            lemma_best_match_range(self@, s@, at as int, n as int);
        }
        best
    }

    /// The character reference that starts with the `&` at `i`.
    fn char_reference(&self, s: &Vec<char>, i: usize, attr: bool) -> (r: Option<(usize, Vec<char>)>)
        requires
            i < s@.len(),
            s@[i as int] == '&',
        ensures
            match char_ref(self@, s@, i as int, attr) {
                Some((end, out)) => r matches Some(p) && p.0 as int == end && p.1@ == out,
                None => r is None,
            },
            r matches Some(p) ==> i < p.0 <= s@.len(),
    {
        let len = s.len();
        if i + 1 < len && s[i + 1] == '#' {
            let hex = i + 2 < len && (s[i + 2] == 'x' || s[i + 2] == 'X');
            let j = if hex { i + 3 } else { i + 2 };
            let mut k: usize = j;
            let mut v: u32 = 0;
            while k < len && ref_digit(s[k], hex)
                invariant
                    j <= k <= len == s@.len(),
                    digits_end(s@, j as int, hex) == digits_end(s@, k as int, hex),
                    v as nat == digits_value(s@, j as int, k as int, hex),
                    v <= CODE_POINT_CAP,
                decreases len - k,
            {
                let base: u32 = if hex { 16 } else { 10 };
                let w = v * base + digit_of(s[k]);
                v = if w > CODE_POINT_CAP { CODE_POINT_CAP } else { w };
                k = k + 1;
            }
            assert(digits_end(s@, k as int, hex) == k);
            if k == j {
                return None;
            }
            let end = if k < len && s[k] == ';' { k + 1 } else { k };
            let mut out: Vec<char> = Vec::new();
            out.push(numeric_reference_char(v));
            assert(out@ =~= seq![numeric_char(digits_value(s@, j as int, k as int, hex))]);
            Some((end, out))
        } else {
            match self.longest_match(s, i + 1) {
                None => None,
                Some(m) => {
                    let name = &self.entries[m].0;
                    assert(self@[m as int].0 == name@);
                    assert(self@[m as int].1 == self.entries@[m as int].1@);
                    let e = i + 1 + name.len();
                    proof {
                        lemma_best_match_range(self@, s@, i + 1, self@.len() as int);
                    }
                    assert(best_match(self@, s@, i + 1, self@.len() as int) == Some(m as int));
                    if attr && name[name.len() - 1] != ';' && e < len && (s[e] == '=' || alnum(
                        s[e],
                    )) {
                        None
                    } else {
                        Some((e, crate::chars::clone_chars(&self.entries[m].1)))
                    }
                },
            }
        }
    }

    /// Decodes the character references of `text`; `in_attribute` selects the
    /// attribute rule on names without `;`.
    pub fn decode_entities_impl(&self, text: &Vec<char>, in_attribute: bool) -> (r: Vec<char>)
        ensures
            r@ == decode(self@, text@, in_attribute),
    {
        let mut out: Vec<char> = Vec::new();
        let mut i: usize = 0;
        while i < text.len()
            invariant
                i <= text@.len(),
                decode(self@, text@, in_attribute) == out@ + decode_from(
                    self@,
                    text@,
                    i as int,
                    in_attribute,
                ),
            decreases text@.len() - i,
        {
            let c = text[i];
            if c != '&' {
                out.push(c);
                i = i + 1;
                assert(out@ + decode_from(self@, text@, i as int, in_attribute) =~= out@.drop_last() + decode_from(self@, text@, (i - 1) as int, in_attribute));
            } else {
                match self.char_reference(text, i, in_attribute) {
                    Some((end, rep)) => {
                        let ghost before = out@;
                        let mut rep = rep;
                        out.append(&mut rep);
                        assert(before + decode_from(self@, text@, i as int, in_attribute) =~= out@ + decode_from(self@, text@, end as int, in_attribute));
                        i = end;
                    },
                    None => {
                        out.push('&');
                        i = i + 1;
                        assert(out@ + decode_from(self@, text@, i as int, in_attribute) =~= out@.drop_last() + decode_from(self@, text@, (i - 1) as int, in_attribute));
                    },
                }
            }
        }
        assert(out@ + decode_from(self@, text@, i as int, in_attribute) =~= out@);
        out
    }
}

} // verus!
