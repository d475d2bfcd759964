use vstd::prelude::*;
use indexmap::IndexMap;
use crate::chars::{is_space, is_white_space, lower, lower_range, copy_range, chars_to_string, space, white_space};
use crate::entities::{EntityTable, decode};

verus! {

#[verifier::external_type_specification]
#[verifier::external_body]
#[verifier::reject_recursive_types(K)]
#[verifier::reject_recursive_types(V)]
#[verifier::reject_recursive_types(S)]
pub struct ExIndexMap<K, V, S>(IndexMap<K, V, S>);

/// The entries of an attribute map, in their order in the map.
pub uninterp spec fn attribute_entries(m: IndexMap<String, String>) -> Seq<(Seq<char>, Seq<char>)>;

/// Some entry of `es` has the name `k`.
pub open spec fn has_key(es: Seq<(Seq<char>, Seq<char>)>, k: Seq<char>) -> bool {
    exists|i: int| 0 <= i < es.len() && #[trigger] es[i].0 == k
}

/// Relies on `IndexMap::new`: a new map is empty.
#[verifier::external_body]
pub(crate) fn new_map() -> (r: IndexMap<String, String>)
    ensures
        attribute_entries(r) == Seq::<(Seq<char>, Seq<char>)>::empty(),
{
    IndexMap::new()
}

/// Relies on `IndexMap::contains_key`: whether an equal key is in the map.
#[verifier::external_body]
fn map_contains(m: &IndexMap<String, String>, k: &String) -> (r: bool)
    ensures
        r == has_key(attribute_entries(*m), k@),
{
    m.contains_key(k)
}

/// Relies on `IndexMap::insert`: a key that is not in the map goes last, with its value.
#[verifier::external_body]
fn map_insert(m: &mut IndexMap<String, String>, k: String, v: String)
    requires
        !has_key(attribute_entries(*old(m)), k@),
    ensures
        attribute_entries(*final(m)) == attribute_entries(*old(m)).push((k@, v@)),
{
    m.insert(k, v);
}

/// Relies on `IndexMap::len`: the number of entries.
#[verifier::external_body]
pub(crate) fn map_len(m: &IndexMap<String, String>) -> (r: usize)
    ensures
        r == attribute_entries(*m).len(),
{
    m.len()
}

/// Relies on `IndexMap::get_index`: the entry at index `i`, copied.
#[verifier::external_body]
pub(crate) fn map_entry(m: &IndexMap<String, String>, i: usize) -> (r: (String, String))
    requires
        i < attribute_entries(*m).len(),
    ensures
        r.0@ == attribute_entries(*m)[i as int].0,
        r.1@ == attribute_entries(*m)[i as int].1,
{
    let (k, v) = m.get_index(i).unwrap();
    (k.clone(), v.clone())
}

/// Where a scan of an attribute string stops.
pub enum Stop {
    /// Stops at the first character that is neither whitespace nor `/`.
    Separator,
    /// Stops at whitespace, `=`, `>` or `/`.
    NameEnd,
    /// Stops at the first character that is not whitespace.
    Space,
    /// Stops at whitespace or `>`.
    Unquoted,
    /// Stops at the given quote.
    Quote(char),
    /// Stops at the first character that is not `/`.
    Slashes,
    /// Stops at the first character that is not an ASCII letter.
    Letters,
    /// Stops at the first character that is not Unicode whitespace.
    White,
}

/// Whether a scan goes on past the character `c`.
pub open spec fn continues(c: char, stop: Stop) -> bool {
    match stop {
        Stop::Separator => is_space(c) || c == '/',
        Stop::NameEnd => !(is_space(c) || c == '=' || c == '>' || c == '/'),
        Stop::Space => is_space(c),
        Stop::Unquoted => !(is_space(c) || c == '>'),
        Stop::Quote(q) => c != q,
        Stop::Slashes => c == '/',
        Stop::Letters => crate::chars::is_ascii_alpha(c),
        Stop::White => is_white_space(c),
    }
}

/// The first index at or after `i` where the scan stops (or the end of `s`).
pub open spec fn scan_end(s: Seq<char>, i: int, stop: Stop) -> int
    decreases s.len() - i,
{
    if 0 <= i < s.len() && continues(s[i], stop) {
        scan_end(s, i + 1, stop)
    } else {
        i
    }
}

/// A scan stops within `s`, at a character where it does not go on.
proof fn lemma_scan_end(s: Seq<char>, i: int, stop: Stop)
    requires
        0 <= i <= s.len(),
    ensures
        i <= scan_end(s, i, stop) <= s.len(),
        scan_end(s, i, stop) < s.len() ==> !continues(s[scan_end(s, i, stop)], stop),
    decreases s.len() - i,
{
    if i < s.len() && continues(s[i], stop) {
        lemma_scan_end(s, i + 1, stop);
    }
}

/// Whether a scan goes on past the character `c`.
fn continues_exec(c: char, stop: &Stop) -> (r: bool)
    ensures
        r == continues(c, *stop),
{
    match stop {
        Stop::Separator => space(c) || c == '/',
        Stop::NameEnd => !(space(c) || c == '=' || c == '>' || c == '/'),
        Stop::Space => space(c),
        Stop::Unquoted => !(space(c) || c == '>'),
        Stop::Quote(q) => c != *q,
        Stop::Slashes => c == '/',
        Stop::Letters => crate::chars::alpha(c),
        Stop::White => white_space(c),
    }
}

/// The index where a scan of `s` from `i` stops.
pub(crate) fn scan(s: &Vec<char>, i: usize, stop: Stop) -> (r: usize)
    requires
        i <= s@.len(),
    ensures
        r == scan_end(s@, i as int, stop),
        i <= r <= s@.len(),
{
    proof {
        lemma_scan_end(s@, i as int, stop);
    }
    let mut k: usize = i;
    while k < s.len() && continues_exec(s[k], &stop)
        invariant
            i <= k <= s@.len(),
            scan_end(s@, i as int, stop) == scan_end(s@, k as int, stop),
        decreases s@.len() - k,
    {
        k = k + 1;
    }
    k
}

/// The name-value pairs of an attribute string from `i` on, in source order,
/// before duplicates are dropped. Names are lowercased; values are decoded
/// with the attribute rule.
pub open spec fn attr_pairs_from(t: Seq<(Seq<char>, Seq<char>)>, s: Seq<char>, i: int) -> Seq<
    (Seq<char>, Seq<char>),
>
    decreases s.len() - i,
{
    let a = scan_end(s, i, Stop::Separator);
    let b = scan_end(s, a, Stop::NameEnd);
    if i < 0 || a >= s.len() || b == a || b > s.len() {
        Seq::empty()
    } else {
        let name = lower(s.subrange(a, b));
        let c = scan_end(s, b, Stop::Space);
        if c < s.len() && s[c] == '=' {
            let d = scan_end(s, c + 1, Stop::Space);
            let (raw, next) = if d < s.len() && (s[d] == '"' || s[d] == '\'') {
                let e = scan_end(s, d + 1, Stop::Quote(s[d]));
                (s.subrange(d + 1, e), if e < s.len() { e + 1 } else { e })
            } else {
                let e = scan_end(s, d, Stop::Unquoted);
                (s.subrange(d, e), e)
            };
            if i < next <= s.len() {
                seq![(name, decode(t, raw, true))] + attr_pairs_from(t, s, next)
            } else {
                Seq::empty()
            }
        } else if i < c <= s.len() {
            seq![(name, Seq::<char>::empty())] + attr_pairs_from(t, s, c)
        } else {
            Seq::empty()
        }
    }
}

/// `kept` followed by the pairs of `ps` whose name is not yet there, the
/// first occurrence of each name winning.
pub open spec fn keep_first(kept: Seq<(Seq<char>, Seq<char>)>, ps: Seq<(Seq<char>, Seq<char>)>) -> Seq<(Seq<char>, Seq<char>)>
    decreases ps.len(),
{
    if ps.len() == 0 {
        kept
    } else {
        let next = if has_key(kept, ps[0].0) {
            kept
        } else {
            kept.push(ps[0])
        };
        keep_first(next, ps.drop_first())
    }
}

/// The pairs with the first occurrence of each name kept, in order.
pub open spec fn first_wins(ps: Seq<(Seq<char>, Seq<char>)>) -> Seq<(Seq<char>, Seq<char>)> {
    keep_first(Seq::empty(), ps)
}

/// The index past the end of `s[..j]` once trailing Unicode whitespace is dropped.
pub open spec fn trim_back(s: Seq<char>, j: int) -> int
    decreases j,
{
    if 0 < j <= s.len() && is_white_space(s[j - 1]) {
        trim_back(s, j - 1)
    } else {
        j
    }
}

/// The index past the end of `s[..j]` once trailing `/` are dropped.
pub open spec fn strip_slashes(s: Seq<char>, j: int) -> int
    decreases j,
{
    if 0 < j <= s.len() && s[j - 1] == '/' {
        strip_slashes(s, j - 1)
    } else {
        j
    }
}

/// `s` without leading and trailing Unicode whitespace.
pub open spec fn trimmed(s: Seq<char>) -> Seq<char> {
    let a = scan_end(s, 0, Stop::White);
    let b = trim_back(s, s.len() as int);
    if a < b {
        s.subrange(a, b)
    } else {
        Seq::empty()
    }
}

/// A trimmed attribute string marks its tag self-closing when it is `/` or ends with ` /`.
pub open spec fn self_closing(t: Seq<char>) -> bool {
    t == seq!['/'] || (t.len() >= 2 && t[t.len() - 1] == '/' && t[t.len() - 2] == ' ')
}

/// What the attribute parser reads of a trimmed attribute string.
pub open spec fn attr_body(t: Seq<char>) -> Seq<char> {
    if self_closing(t) {
        trimmed(t.subrange(0, strip_slashes(t, t.len() as int)))
    } else {
        t
    }
}

/// A string of slash-separated names: a `/`, and no space, `=`, quote or `<`.
pub open spec fn slash_form(b: Seq<char>) -> bool {
    (exists|i: int| 0 <= i < b.len() && b[i] == '/') && forall|i: int|
        0 <= i < b.len() ==> b[i] != ' ' && b[i] != '=' && b[i] != '"' && b[i] != '\'' && b[i]
            != '<'
}

/// The non-empty pieces of `b[i..]` between slashes.
pub open spec fn segments_from(b: Seq<char>, i: int) -> Seq<Seq<char>>
    decreases b.len() - i,
{
    let a = scan_end(b, i, Stop::Slashes);
    let e = scan_end(b, a, Stop::Quote('/'));
    if i < 0 || a < i || a >= b.len() || !(a < e <= b.len()) {
        Seq::empty()
    } else {
        seq![b.subrange(a, e)] + segments_from(b, e)
    }
}

/// The attributes of a slash-separated string: each piece names an attribute
/// with an empty value; a leading `//` takes the pieces in reverse order.
pub open spec fn slash_pairs(b: Seq<char>) -> Seq<(Seq<char>, Seq<char>)> {
    let segs = segments_from(b, 0);
    let ordered = if b.len() >= 2 && b[0] == '/' && b[1] == '/' {
        segs.reverse()
    } else {
        segs
    };
    ordered.map_values(|x: Seq<char>| (x, Seq::<char>::empty()))
}

/// The attributes of the attribute string `s`, in order, first occurrence winning.
pub open spec fn attribute_list(t: Seq<(Seq<char>, Seq<char>)>, s: Seq<char>) -> Seq<(Seq<char>, Seq<char>)> {
    let b = attr_body(trimmed(s));
    if b.len() == 0 {
        Seq::empty()
    } else if slash_form(b) {
        first_wins(slash_pairs(b))
    } else {
        first_wins(attr_pairs_from(t, b, 0))
    }
}

/// Adds `name` with `value` unless the map already has that name.
pub(crate) fn add_first(m: &mut IndexMap<String, String>, name: &Vec<char>, value: &Vec<char>)
    ensures
        attribute_entries(*final(m)) == (if has_key(attribute_entries(*old(m)), name@) {
            attribute_entries(*old(m))
        } else {
            attribute_entries(*old(m)).push((name@, value@))
        }),
{
    let k = chars_to_string(name);
    if !map_contains(m, &k) {
        map_insert(m, k, chars_to_string(value));
    }
}

pub(crate) proof fn lemma_keep_first_step(kept: Seq<(Seq<char>, Seq<char>)>, p: (Seq<char>, Seq<char>), rest: Seq<(Seq<char>, Seq<char>)>)
    ensures
        keep_first(kept, seq![p] + rest) == keep_first(
            if has_key(kept, p.0) {
                kept
            } else {
                kept.push(p)
            },
            rest,
        ),
{
    assert((seq![p] + rest).drop_first() =~= rest);
    assert((seq![p] + rest)[0] == p);
}

/// Whether `b` is a slash-separated list of names.
fn is_slash_form(b: &Vec<char>) -> (r: bool)
    ensures
        r == slash_form(b@),
{
    let mut has_slash = false;
    let mut i: usize = 0;
    while i < b.len()
        invariant
            i <= b@.len(),
            has_slash == (exists|j: int| 0 <= j < i && b@[j] == '/'),
            forall|j: int|
                0 <= j < i ==> b@[j] != ' ' && b@[j] != '=' && b@[j] != '"' && b@[j] != '\''
                    && b@[j] != '<',
        decreases b@.len() - i,
    {
        let c = b[i];
        if c == ' ' || c == '=' || c == '"' || c == '\'' || c == '<' {
            return false;
        }
        if c == '/' {
            has_slash = true;
        }
        i = i + 1;
    }
    has_slash
}

/// The non-empty pieces of `b` between slashes.
fn segments(b: &Vec<char>) -> (r: Vec<Vec<char>>)
    ensures
        r@.map_values(|v: Vec<char>| v@) == segments_from(b@, 0),
{
    let mut out: Vec<Vec<char>> = Vec::new();
    let mut i: usize = 0;
    loop
        invariant
            i <= b@.len(),
            out@.map_values(|v: Vec<char>| v@) + segments_from(b@, i as int) == segments_from(
                b@,
                0,
            ),
        decreases b@.len() - i,
    {
        let a = scan(b, i, Stop::Slashes);
        let e = scan(b, a, Stop::Quote('/'));
        if a >= b.len() || e == a {
            assert(out@.map_values(|v: Vec<char>| v@) + segments_from(b@, i as int) =~= out@.map_values(|v: Vec<char>| v@));
            return out;
        }
        let piece = copy_range(b, a, e);
        let ghost before = out@.map_values(|v: Vec<char>| v@);
        out.push(piece);
        assert(out@.map_values(|v: Vec<char>| v@) =~= before.push(b@.subrange(a as int, e as int)));
        assert(before + segments_from(b@, i as int) =~= out@.map_values(|v: Vec<char>| v@) + segments_from(b@, e as int));
        i = e;
    }
}

/// Parses the attribute string `text[from..to]`: whether it marks the tag
/// self-closing, and its attributes in order with the first occurrence of
/// each name winning.
pub fn parse_attributes(table: &EntityTable, text: &Vec<char>, from: usize, to: usize) -> (r: (bool, IndexMap<String, String>))
    requires
        from <= to <= text@.len(),
    ensures
        r.0 == self_closing(trimmed(text@.subrange(from as int, to as int))),
        attribute_entries(r.1) == attribute_list(table@, text@.subrange(from as int, to as int)),
{
    let sub = copy_range(text, from, to);
    let t = trim(&sub);
    let n = t.len();
    let is_self_closing = (n == 1 && t[0] == '/') || (n >= 2 && t[n - 1] == '/' && t[n - 2] == ' ');
    proof {
        if n == 1 && t@[0] == '/' {
            assert(t@ =~= seq!['/']);
        }
    }
    let b = if is_self_closing {
        let mut j: usize = n;
        while j > 0 && t[j - 1] == '/'
            invariant
                j <= n == t@.len(),
                strip_slashes(t@, n as int) == strip_slashes(t@, j as int),
            decreases j,
        {
            j = j - 1;
        }
        let stripped = copy_range(&t, 0, j);
        trim(&stripped)
    } else {
        t
    };
    let mut m = new_map();
    if b.len() == 0 {
        return (is_self_closing, m);
    }
    if is_slash_form(&b) {
        let segs = segments(&b);
        let ghost pairs = slash_pairs(b@);
        let ghost segs_view = segs@.map_values(|v: Vec<char>| v@);
        let empty: Vec<char> = Vec::new();
        assert(pairs.subrange(0, pairs.len() as int) =~= pairs);
        if b.len() >= 2 && b[0] == '/' && b[1] == '/' {
            let mut j: usize = segs.len();
            while j > 0
                invariant
                    j <= segs@.len(),
                    segs_view == segs@.map_values(|v: Vec<char>| v@),
                    segs_view == segments_from(b@, 0),
                    pairs == segs_view.reverse().map_values(|x: Seq<char>| (x, Seq::<char>::empty())),
                    pairs.len() == segs@.len(),
                    empty@ == Seq::<char>::empty(),
                    keep_first(attribute_entries(m), pairs.subrange(segs@.len() - j, pairs.len() as int)) == first_wins(pairs),
                decreases j,
            {
                let ghost k = segs@.len() - j;
                assert(pairs.subrange(k, pairs.len() as int) =~= seq![pairs[k]] + pairs.subrange(k + 1, pairs.len() as int));
                assert(pairs[k] == (segs@[j - 1]@, Seq::<char>::empty()));
                proof {
                    lemma_keep_first_step(attribute_entries(m), pairs[k], pairs.subrange(k + 1, pairs.len() as int));
                }
                add_first(&mut m, &segs[j - 1], &empty);
                j = j - 1;
            }
            assert(pairs.subrange(pairs.len() as int, pairs.len() as int) =~= Seq::<(Seq<char>, Seq<char>)>::empty());
        } else {
            let mut j: usize = 0;
            while j < segs.len()
                invariant
                    j <= segs@.len(),
                    segs_view == segs@.map_values(|v: Vec<char>| v@),
                    segs_view == segments_from(b@, 0),
                    pairs == segs_view.map_values(|x: Seq<char>| (x, Seq::<char>::empty())),
                    empty@ == Seq::<char>::empty(),
                    keep_first(attribute_entries(m), pairs.subrange(j as int, pairs.len() as int)) == first_wins(pairs),
                decreases segs@.len() - j,
            {
                assert(pairs.subrange(j as int, pairs.len() as int) =~= seq![pairs[j as int]] + pairs.subrange(j + 1, pairs.len() as int));
                proof {
                    lemma_keep_first_step(attribute_entries(m), pairs[j as int], pairs.subrange(j + 1, pairs.len() as int));
                }
                add_first(&mut m, &segs[j], &empty);
                j = j + 1;
            }
            assert(pairs.subrange(pairs.len() as int, pairs.len() as int) =~= Seq::<(Seq<char>, Seq<char>)>::empty());
        }
        return (is_self_closing, m);
    }
    let len = b.len();
    let mut i: usize = 0;
    loop
        invariant
            i <= len == b@.len(),
            keep_first(attribute_entries(m), attr_pairs_from(table@, b@, i as int)) == first_wins(
                attr_pairs_from(table@, b@, 0),
            ),
        ensures
            attribute_entries(m) == first_wins(attr_pairs_from(table@, b@, 0)),
        decreases len - i,
    {
        let a = scan(&b, i, Stop::Separator);
        if a >= len {
            break;
        }
        let e = scan(&b, a, Stop::NameEnd);
        if e == a {
            break;
        }
        let name = lower_range(&b, a, e);
        let c = scan(&b, e, Stop::Space);
        let ghost rest_start: int;
        if c < len && b[c] == '=' {
            let d = scan(&b, c + 1, Stop::Space);
            let (raw, next) = if d < len && (b[d] == '"' || b[d] == '\'') {
                let q = b[d];
                let e2 = scan(&b, d + 1, Stop::Quote(q));
                (copy_range(&b, d + 1, e2), if e2 < len { e2 + 1 } else { e2 })
            } else {
                let e2 = scan(&b, d, Stop::Unquoted);
                (copy_range(&b, d, e2), e2)
            };
            let value = table.decode_entities_impl(&raw, true);
            proof {
                lemma_keep_first_step(attribute_entries(m), (name@, value@), attr_pairs_from(table@, b@, next as int));
            }
            add_first(&mut m, &name, &value);
            i = next;
        } else {
            let empty: Vec<char> = Vec::new();
            proof {
                lemma_keep_first_step(attribute_entries(m), (name@, empty@), attr_pairs_from(table@, b@, c as int));
            }
            add_first(&mut m, &name, &empty);
            i = c;
        }
    }
    (is_self_closing, m)
}

/// `text` without leading and trailing Unicode whitespace.
pub(crate) fn trim(text: &Vec<char>) -> (r: Vec<char>)
    ensures
        r@ == trimmed(text@),
{
    let a = scan(text, 0, Stop::White);
    let mut b: usize = text.len();
    while b > 0 && white_space(text[b - 1])
        invariant
            b <= text@.len(),
            trim_back(text@, text@.len() as int) == trim_back(text@, b as int),
        decreases b,
    {
        b = b - 1;
    }
    if a < b {
        copy_range(text, a, b)
    } else {
        Vec::new()
    }
}

} // verus!
