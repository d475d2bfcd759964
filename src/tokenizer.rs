use vstd::prelude::*;
use crate::attributes::{Stop, attribute_list, parse_attributes, scan, scan_end, self_closing, trim, trimmed};
use crate::chars::{
    alpha, copy_range, equals_str, filtered, find_str, index_of, is_space,
    lemma_lower_idempotent, lower, lower_range, next_index_of, occurs, occurs_at,
    occurs_ignore_case, push_chars, push_str, replace_invalid_characters, space, str_to_chars,
};
use crate::entities::{EntityTable, decode};
use crate::token::{HTMLToken, PendingBuffer, TokenKind};

verus! {

/// The modes of the tokenizer.
#[derive(PartialEq, Eq, Structural, Clone, Copy, Debug)]
pub enum TokenizerState {
    Data,
    Rawtext,
    Plaintext,
}

/// What every emitted token satisfies: its tag name is lowercase, only a
/// `textarea` start tag asks the tree stage for RAWTEXT, a start tag's
/// attributes are those that the attribute parser reads from some attribute
/// string, only start tags carry attributes or the self-closing mark, only
/// tags carry a name, and tags carry no payload.
pub open spec fn token_ok(tbl: Seq<(Seq<char>, Seq<char>)>, t: HTMLToken) -> bool {
    &&& lower(t.tag_name@) == t.tag_name@
    &&& t.needs_rawtext == (t.kind == TokenKind::StartTag && t.tag_name@ == "textarea"@)
    &&& t.kind == TokenKind::StartTag ==> exists|s: Seq<char>|
        #[trigger] attribute_list(tbl, s) == t.attrs()
    &&& t.kind != TokenKind::StartTag ==> t.attrs() == Seq::<(Seq<char>, Seq<char>)>::empty()
        && !t.is_self_closing
    &&& t.kind != TokenKind::StartTag && t.kind != TokenKind::EndTag ==> t.tag_name@
        == Seq::<char>::empty()
    &&& t.kind == TokenKind::StartTag || t.kind == TokenKind::EndTag ==> t.data@
        == Seq::<char>::empty()
}

/// The elements whose start tag switches the tokenizer to RAWTEXT.
pub open spec fn rawtext_element(n: Seq<char>) -> bool {
    n == "script"@ || n == "style"@ || n == "xmp"@ || n == "iframe"@ || n == "noembed"@ || n
        == "noframes"@ || n == "noscript"@ || n == "textarea"@ || n == "title"@
}

/// The RAWTEXT elements whose text has its character references decoded.
pub open spec fn rcdata_element(n: Seq<char>) -> bool {
    n == "title"@ || n == "textarea"@
}

/// `lit` occurs somewhere in `s`.
pub open spec fn contains(s: Seq<char>, lit: Seq<char>) -> bool {
    exists|k: int| occurs_at(s, k, lit)
}

/// `idx` is where `lit` first occurs in `s`.
pub open spec fn first_at(s: Seq<char>, idx: int, lit: Seq<char>) -> bool {
    &&& 0 <= idx
    &&& occurs_at(s, idx, lit)
    &&& forall|j: int| 0 <= j < idx ==> !occurs_at(s, j, lit)
}

/// The characters that may follow `<script` for it to count as a tag.
pub open spec fn script_delimiter(c: char) -> bool {
    c == ' ' || c == '/' || c == '\t' || c == '\n' || c == '\r' || c == '\x0C' || c == '>'
}

/// Script text is in the escaped state with a nested script tag: ignoring
/// ASCII case, it has a `<!--` and no `-->`, and after the first `<!--` and
/// any whitespace comes `<script` and a delimiter.
pub open spec fn escaped_script_comment(content: Seq<char>) -> bool {
    let l = lower(content);
    &&& !contains(l, "-->"@)
    &&& exists|idx: int|
        #![trigger first_at(l, idx, "<!--"@)]
        first_at(l, idx, "<!--"@) && {
            let k = scan_end(l, idx + 4, Stop::Space);
            occurs_at(l, k, "<script"@) && k + 7 < l.len() && script_delimiter(l[k + 7])
        }
}

/// `e` is the first index at or after `from` where `lit` occurs in `s`.
pub open spec fn first_from(s: Seq<char>, from: int, e: int, lit: Seq<char>) -> bool {
    &&& from <= e
    &&& occurs_at(s, e, lit)
    &&& forall|j: int| from <= j < e ==> !occurs_at(s, j, lit)
}

/// `lit` occurs in `s` at or after `from`.
pub open spec fn found_from(s: Seq<char>, from: int, lit: Seq<char>) -> bool {
    exists|e: int| from <= e && #[trigger] occurs_at(s, e, lit)
}

/// Where the tag name that starts at `i` ends: at whitespace, `/`, `>` or the end.
pub open spec fn tag_name_end(s: Seq<char>, i: int) -> int
    decreases s.len() - i,
{
    if 0 <= i < s.len() && !(is_space(s[i]) || s[i] == '/' || s[i] == '>') {
        tag_name_end(s, i + 1)
    } else {
        i
    }
}

/// Where the tag name of a tag whose `<` is at `p` starts.
pub open spec fn tag_name_start(s: Seq<char>, p: int) -> int {
    if p + 1 < s.len() && s[p + 1] == '/' {
        p + 2
    } else {
        p + 1
    }
}

/// A `<` at `p` can open markup: a letter, `!`, `/` or `?` follows.
pub open spec fn opens_markup(s: Seq<char>, p: int) -> bool {
    p + 1 < s.len() && (crate::chars::is_ascii_alpha(s[p + 1]) || s[p + 1] == '!' || s[p + 1]
        == '/' || s[p + 1] == '?')
}

/// `<!DOCTYPE`, in any ASCII case, stands at `p`.
pub open spec fn doctype_at(s: Seq<char>, p: int) -> bool {
    s.len() - p >= 9 && s[p + 1] == '!' && lower(s.subrange(p + 2, p + 9)) == lower("DOCTYPE"@)
}

/// The comment that starts with `<!--` at `p`: `<!--->` is empty; else the
/// text up to the first `-->`, or failing that the first `--!>`, or failing
/// that the end of the input less a trailing `--`, filtered.
pub open spec fn comment_outcome(s: Seq<char>, p: int, r: HTMLToken, new_pos: int) -> bool {
    let st = p + 4;
    if st + 1 < s.len() && s[st] == '-' && s[st + 1] == '>' {
        r.data@ == Seq::<char>::empty() && new_pos == st + 2
    } else if found_from(s, st, "-->"@) {
        forall|e: int|
            #[trigger] first_from(s, st, e, "-->"@) ==> r.data@ == filtered(s.subrange(st, e))
                && new_pos == e + 3
    } else if found_from(s, st, "--!>"@) {
        forall|e: int|
            #[trigger] first_from(s, st, e, "--!>"@) ==> r.data@ == filtered(s.subrange(st, e))
                && new_pos == e + 4
    } else {
        r.data@ == strip_dashes(filtered(s.subrange(st, s.len() as int))) && new_pos == s.len()
    }
}

/// The bogus comment at `p`: a CDATA section keeps its brackets (and gets a
/// space where the input ends in `]]`); otherwise the text from after `<!`
/// or `</` (or from the `?` of `<?`) up to the next `>`, filtered.
pub open spec fn bogus_outcome(s: Seq<char>, p: int, r: HTMLToken, new_pos: int) -> bool {
    if occurs_at(s, p, "<![CDATA["@) {
        let st = p + 9;
        if found_from(s, st, "]]>"@) {
            forall|e: int|
                #[trigger] first_from(s, st, e, "]]>"@) ==> r.data@ == "[CDATA["@ + filtered(
                    s.subrange(st, e),
                ) + "]]"@ && new_pos == e + 3
        } else {
            let inner = filtered(s.subrange(st, s.len() as int));
            let pad = if inner.len() >= 2 && inner[inner.len() - 2] == ']' && inner[inner.len()
                - 1] == ']' {
                seq![' ']
            } else {
                Seq::<char>::empty()
            };
            r.data@ == "[CDATA["@ + inner + pad && new_pos == s.len()
        }
    } else {
        let st = if occurs_at(s, p, "<?"@) { p + 1 } else { p + 2 };
        let gt = next_index_of(s, st, '>');
        &&& r.data@ == filtered(s.subrange(st, gt))
        &&& new_pos == if gt < s.len() { gt + 1 } else { s.len() as int }
    }
}

/// `<` at `p` opens a bogus comment: `</` and no letter, `<!` that is not
/// a comment, or `<?`.
pub open spec fn bogus_at(s: Seq<char>, p: int) -> bool {
    (occurs_at(s, p, "</"@) && p + 2 < s.len() && !crate::chars::is_ascii_alpha(s[p + 2]))
        || occurs_at(s, p, "<!"@) || occurs_at(s, p, "<?"@)
}

/// A tag at `p` with a non-empty name: its kind and lowercase name; where
/// its attribute text (up to the next `>`) has balanced quotes, the tag
/// ends at that `>` with the attributes and self-closing mark read from that
/// text, or at the end of the input, where a start tag becomes the trimmed,
/// filtered attribute text. Where a quote is left open, the scan goes on
/// from that `>` tracking quotes to the first `>` outside them: the tag ends
/// there with the attributes read up to it; where the input ends first, the
/// tag gives an empty text (an end tag closed by the end of input stays an
/// end tag).
pub open spec fn tag_outcome(
    s: Seq<char>,
    p: int,
    tbl: Seq<(Seq<char>, Seq<char>)>,
    tok: HTMLToken,
    new_pos: int,
) -> bool {
    let ns = tag_name_start(s, p);
    let ne = tag_name_end(s, ns);
    let a = scan_end(s, ne, Stop::Space);
    let gt = next_index_of(s, a, '>');
    let t = trimmed(s.subrange(a, gt));
    &&& tok.kind == TokenKind::StartTag || tok.kind == TokenKind::EndTag || (tok.kind
        == TokenKind::Character && new_pos == s.len())
    &&& tok.kind != TokenKind::Character ==> tok.tag_name@ == lower(s.subrange(ns, ne)) && (
    tok.kind == TokenKind::EndTag) == (ns == p + 2)
    &&& !odd_quotes(t, '"') && !odd_quotes(t, '\'') ==> if gt < s.len() {
        &&& tok.kind == if ns == p + 2 {
            TokenKind::EndTag
        } else {
            TokenKind::StartTag
        }
        &&& new_pos == gt + 1
        &&& tok.kind == TokenKind::StartTag ==> tok.attrs() == attribute_list(
            tbl,
            s.subrange(a, gt),
        ) && tok.is_self_closing == self_closing(t)
    } else {
        &&& new_pos == s.len()
        &&& ns == p + 2 ==> tok.kind == TokenKind::EndTag
        &&& ns != p + 2 ==> tok.kind == TokenKind::Character && tok.data@ == filtered(t)
    }
    &&& odd_quotes(t, '"') || odd_quotes(t, '\'') ==> {
        let q0 = if odd_quotes(t, '"') { '"' } else { '\'' };
        let e = quote_rescan(s, gt, Some(q0)).0;
        let open = quote_rescan(s, gt, Some(q0)).1;
        if e >= s.len() {
            &&& new_pos == s.len()
            &&& if open is Some || ns != p + 2 {
                tok.kind == TokenKind::Character && tok.data@ == Seq::<char>::empty()
            } else {
                tok.kind == TokenKind::EndTag
            }
        } else {
            &&& tok.kind == if ns == p + 2 {
                TokenKind::EndTag
            } else {
                TokenKind::StartTag
            }
            &&& new_pos == e + 1
            &&& tok.kind == TokenKind::StartTag ==> tok.attrs() == attribute_list(
                tbl,
                s.subrange(a, e),
            ) && tok.is_self_closing == self_closing(trimmed(s.subrange(a, e)))
        }
    }
}

/// The scan for the `>` that ends a tag, from `i`, inside the quote `q` if
/// one is open: where it stopped, and the quote still open there.
pub open spec fn quote_rescan(s: Seq<char>, i: int, q: Option<char>) -> (int, Option<char>)
    decreases s.len() - i,
{
    if i < 0 || i >= s.len() {
        (i, q)
    } else {
        match q {
            Some(c) => quote_rescan(s, i + 1, if s[i] == c { None } else { q }),
            None => if s[i] == '"' || s[i] == '\'' {
                quote_rescan(s, i + 1, Some(s[i]))
            } else if s[i] == '>' {
                (i, None)
            } else {
                quote_rescan(s, i + 1, None)
            },
        }
    }
}

/// What a `<` at `p` in DATA mode gives: a `<` that cannot open markup is
/// text; then come a DOCTYPE (the trimmed text up to `>`), a comment, a
/// bogus comment, and a tag; a `<` with no tag name after it is text.
pub open spec fn markup_outcome(
    s: Seq<char>,
    p: int,
    tbl: Seq<(Seq<char>, Seq<char>)>,
    r: HTMLToken,
    new_pos: int,
) -> bool {
    if !opens_markup(s, p) {
        r.kind == TokenKind::Character && r.data@ == seq!['<'] && new_pos == p + 1
    } else if doctype_at(s, p) {
        let q = scan_end(s, p + 9, Stop::Space);
        let gt = next_index_of(s, q, '>');
        &&& r.kind == TokenKind::Doctype
        &&& r.data@ == trimmed(s.subrange(q, gt))
        &&& new_pos == if gt < s.len() { gt + 1 } else { s.len() as int }
    } else if occurs_at(s, p, "<!--"@) {
        &&& r.kind == TokenKind::Comment
        &&& if p + 4 < s.len() && s[p + 4] == '>' {
            r.data@ == Seq::<char>::empty() && new_pos == p + 5
        } else {
            comment_outcome(s, p, r, new_pos)
        }
    } else if bogus_at(s, p) {
        r.kind == TokenKind::Comment && bogus_outcome(s, p, r, new_pos)
    } else if tag_name_end(s, tag_name_start(s, p)) == tag_name_start(s, p) {
        r.kind == TokenKind::Character && r.data@ == seq!['<'] && new_pos == p + 1
    } else {
        tag_outcome(s, p, tbl, r, new_pos)
    }
}

/// One step in RAWTEXT mode for an element other than `script`, from `p`
/// with the active tag `tag`: the matching end tag (letters, then optional
/// whitespace and slashes, then `>`) leaves RAWTEXT; anything else is text up
/// to the next `</`, decoded where the element is RCDATA.
pub open spec fn rawtext_outcome(
    s: Seq<char>,
    p: int,
    tag: Option<Seq<char>>,
    tbl: Seq<(Seq<char>, Seq<char>)>,
    r: HTMLToken,
    new_pos: int,
    new_mode: TokenizerState,
    new_tag: Option<Seq<char>>,
) -> bool {
    let ts = p + 2;
    let ne = scan_end(s, ts, Stop::Letters);
    let k = scan_end(s, scan_end(s, scan_end(s, ne, Stop::Space), Stop::Slashes), Stop::Space);
    if occurs_at(s, p, "</"@) && tag == Some(lower(s.subrange(ts, ne))) && k < s.len() && s[k]
        == '>' {
        &&& r.kind == TokenKind::EndTag
        &&& r.tag_name@ == lower(s.subrange(ts, ne))
        &&& new_pos == k + 1
        &&& new_mode == TokenizerState::Data
        &&& new_tag is None
    } else {
        &&& r.kind == TokenKind::Character
        &&& new_mode == TokenizerState::Rawtext
        &&& new_tag == tag
        &&& found_from(s, p + 1, "</"@) ==> first_from(s, p + 1, new_pos, "</"@)
        &&& !found_from(s, p + 1, "</"@) ==> new_pos == s.len()
        &&& r.data@ == if (tag matches Some(n) && rcdata_element(n)) {
            decode(tbl, filtered(s.subrange(p, new_pos)), false)
        } else {
            filtered(s.subrange(p, new_pos))
        }
    }
}

/// A text step of the script engine at `p`: the text up to the next `</`
/// (not counting one at `p`), filtered, with the raw text added to the
/// script content.
pub open spec fn script_text(
    s: Seq<char>,
    p: int,
    content: Seq<char>,
    r: HTMLToken,
    new_pos: int,
    new_content: Seq<char>,
) -> bool {
    &&& r.kind == TokenKind::Character
    &&& found_from(s, p + 1, "</"@) ==> first_from(s, p + 1, new_pos, "</"@)
    &&& !found_from(s, p + 1, "</"@) ==> new_pos == s.len()
    &&& p < new_pos <= s.len()
    &&& r.data@ == filtered(s.subrange(p, new_pos))
    &&& new_content == content + s.subrange(p, new_pos)
}

/// One step in RAWTEXT mode for `script` at `p`, with the script text
/// `content` so far and the flag `suppressed` of the escape-comment rule.
/// A `</script` followed by a delimiter ends the script unless the rule
/// holds it back: in the escaped state the first such end tag is
/// suppressed, and a complete one is deferred while another `</script`
/// follows. `</script` followed by anything else makes the rest of the
/// input text.
pub open spec fn script_outcome(
    s: Seq<char>,
    p: int,
    content: Seq<char>,
    suppressed: bool,
    r: HTMLToken,
    new_pos: int,
    new_mode: TokenizerState,
    new_content: Seq<char>,
    new_suppressed: bool,
    new_tag: Option<Seq<char>>,
) -> bool {
    let ts = p + 2;
    let ne = scan_end(s, ts, Stop::Letters);
    let esc = escaped_script_comment(content);
    let honor_first = !(esc && !suppressed);
    if occurs_at(s, p, "</"@) && lower(s.subrange(ts, ne)) == "script"@ {
        if ne >= s.len() || !(is_space(s[ne]) || s[ne] == '/' || s[ne] == '>') {
            &&& r.kind == TokenKind::Character
            &&& r.data@ == filtered(s.subrange(p, s.len() as int))
            &&& new_pos == s.len()
            &&& new_mode == TokenizerState::Rawtext
            &&& new_tag == Some("script"@)
        } else {
            let gt = close_scan(s, ne, None).0;
            let end = close_scan(s, ne, None).1;
            let honor = if gt {
                honor_first && !(esc && contains(
                    lower(s.subrange(end + 1, s.len() as int)),
                    "</script"@,
                ))
            } else {
                honor_first
            };
            if honor {
                &&& r.kind == TokenKind::EndTag
                &&& r.tag_name@ == "script"@
                &&& new_pos == if gt { end + 1 } else { s.len() as int }
                &&& new_mode == TokenizerState::Data
                &&& new_content == Seq::<char>::empty()
                &&& !new_suppressed
                &&& new_tag is None
            } else {
                &&& new_suppressed == (suppressed || esc)
                &&& new_mode == TokenizerState::Rawtext
                &&& new_tag == Some("script"@)
                &&& script_text(s, p, content, r, new_pos, new_content)
            }
        }
    } else {
        &&& new_suppressed == suppressed
        &&& new_mode == TokenizerState::Rawtext
        &&& new_tag == Some("script"@)
        &&& script_text(s, p, content, r, new_pos, new_content)
    }
}

/// Whether `t` holds an odd number of the quote `q` once the escaped ones
/// (`q` after a backslash) are taken off.
pub open spec fn odd_quotes(t: Seq<char>, q: char) -> bool
    decreases t.len(),
{
    if t.len() == 0 {
        false
    } else {
        let n = t.len() as int;
        let hit = t[n - 1] == q;
        let escaped = hit && n >= 2 && t[n - 2] == '\\';
        odd_quotes(t.drop_last(), q) != (hit != escaped)
    }
}

/// The scan after `</script` for the `>` that closes it, outside quotes:
/// whether one was found, and where the scan stopped (at that `>`, at a
/// later `</script`, or at the end).
pub open spec fn close_scan(s: Seq<char>, i: int, quote: Option<char>) -> (bool, int)
    decreases s.len() - i,
{
    if i < 0 || i >= s.len() {
        (false, i)
    } else {
        match quote {
            Some(q) => close_scan(s, i + 1, if s[i] == q { None } else { quote }),
            None => if s[i] == '"' || s[i] == '\'' {
                close_scan(s, i + 1, Some(s[i]))
            } else if s[i] == '>' {
                (true, i)
            } else if s[i] == '<' && occurs_at(s, i, "</script"@) {
                (false, i)
            } else {
                close_scan(s, i + 1, None)
            },
        }
    }
}

/// `t` without a trailing `--`.
pub open spec fn strip_dashes(t: Seq<char>) -> Seq<char> {
    if t.len() >= 2 && t[t.len() - 2] == '-' && t[t.len() - 1] == '-' {
        t.subrange(0, t.len() - 2)
    } else {
        t
    }
}

/// The name of a mode, as the state hooks read and write it.
pub open spec fn state_name(m: TokenizerState) -> Seq<char> {
    match m {
        TokenizerState::Data => "DATA"@,
        TokenizerState::Rawtext => "RAWTEXT"@,
        TokenizerState::Plaintext => "PLAINTEXT"@,
    }
}

/// The mode that a name selects; an unknown name selects DATA.
pub open spec fn state_of_name(n: Seq<char>) -> TokenizerState {
    if n == "RAWTEXT"@ {
        TokenizerState::Rawtext
    } else if n == "PLAINTEXT"@ {
        TokenizerState::Plaintext
    } else {
        TokenizerState::Data
    }
}

/// The tokenizer: the input, a cursor into it, the mode, and the tokens that
/// are ready to be handed out.
pub struct RustTokenizer {
    html: Vec<char>,
    pos: usize,
    state: TokenizerState,
    rawtext_tag: Option<Vec<char>>,
    env_debug: bool,
    script_content: Vec<char>,
    script_suppressed_end_once: bool,
    pending_tokens: PendingBuffer,
    entities: EntityTable,
}

fn is_rawtext_element(n: &Vec<char>) -> (r: bool)
    ensures
        r == rawtext_element(n@),
{
    equals_str(n, "script") || equals_str(n, "style") || equals_str(n, "xmp") || equals_str(
        n,
        "iframe",
    ) || equals_str(n, "noembed") || equals_str(n, "noframes") || equals_str(n, "noscript")
        || equals_str(n, "textarea") || equals_str(n, "title")
}

fn is_rcdata_element(n: &Option<Vec<char>>) -> (r: bool)
    ensures
        r == (n matches Some(v) && rcdata_element(v@)),
{
    match n {
        Some(v) => equals_str(v, "title") || equals_str(v, "textarea"),
        None => false,
    }
}

impl RustTokenizer {
    /// The input.
    pub closed spec fn input(&self) -> Seq<char> {
        self.html@
    }

    /// The cursor: the index of the next character to read.
    pub closed spec fn position(&self) -> int {
        self.pos as int
    }

    pub closed spec fn mode(&self) -> TokenizerState {
        self.state
    }

    /// The tokens that are ready, in the order they will be handed out.
    pub closed spec fn queued(&self) -> Seq<HTMLToken> {
        self.pending_tokens@
    }

    /// The script text handed out since the current `script` element began.
    pub closed spec fn script_text(&self) -> Seq<char> {
        self.script_content@
    }

    /// Whether the escape-comment rule has already suppressed an end tag of
    /// the current `script` element.
    pub closed spec fn suppressed_once(&self) -> bool {
        self.script_suppressed_end_once
    }

    /// The named character references the tokenizer decodes.
    pub closed spec fn table(&self) -> Seq<(Seq<char>, Seq<char>)> {
        self.entities@
    }

    pub closed spec fn wf(&self) -> bool {
        &&& self.pos <= self.html@.len()
        &&& forall|i: int|
            0 <= i < self.pending_tokens@.len() ==> token_ok(
                self.entities@,
                #[trigger] self.pending_tokens@[i],
            )
    }

    /// No input is left and no token is queued: the stream has ended.
    pub open spec fn exhausted(&self) -> bool {
        self.position() >= self.input().len() && self.queued().len() == 0
    }

    /// What a step of the tokenizer keeps.
    spec fn keeps(&self, old: &RustTokenizer) -> bool {
        &&& self.wf()
        &&& self.html@ == old.html@
        &&& self.entities@ == old.entities@
        &&& self.pos >= old.pos
    }

    /// A tokenizer over `html`, in DATA mode at its start.
    pub fn new(html: &str, debug: bool) -> (r: RustTokenizer)
        ensures
            r.wf(),
            r.table() == crate::entities::html5_table(),
            r.active_tag() is None,
            r.script_text() == Seq::<char>::empty(),
            !r.suppressed_once(),
            r.debug_enabled() == debug,
            r.input() == html@,
            r.position() == 0,
            r.mode() == TokenizerState::Data,
            r.queued().len() == 0,
    {
        RustTokenizer::with_pending_buffer(html, debug, false)
    }

    /// As `new`, with the queue held in a `Vec` where `use_legacy` is set.
    pub fn with_pending_buffer(html: &str, debug: bool, use_legacy: bool) -> (r: RustTokenizer)
        ensures
            r.wf(),
            r.table() == crate::entities::html5_table(),
            r.active_tag() is None,
            r.script_text() == Seq::<char>::empty(),
            !r.suppressed_once(),
            r.debug_enabled() == debug,
            r.input() == html@,
            r.position() == 0,
            r.mode() == TokenizerState::Data,
            r.queued().len() == 0,
    {
        RustTokenizer {
            html: str_to_chars(html),
            pos: 0,
            state: TokenizerState::Data,
            rawtext_tag: None,
            env_debug: debug,
            script_content: Vec::new(),
            script_suppressed_end_once: false,
            pending_tokens: PendingBuffer::new(use_legacy),
            entities: EntityTable::html5(),
        }
    }

    /// Whether the diagnostic toggle was set.
    pub closed spec fn debug_enabled(&self) -> bool {
        self.env_debug
    }

    /// Whether the diagnostic toggle was set.
    pub fn debug(&self) -> (r: bool)
        ensures
            r == self.debug_enabled(),
    {
        self.env_debug
    }

    /// The character at the cursor.
    pub fn current_char(&self) -> (r: Option<char>)
        requires
            self.wf(),
        ensures
            r == (if self.position() < self.input().len() {
                Some(self.input()[self.position()])
            } else {
                None::<char>
            }),
    {
        if self.pos < self.html.len() {
            Some(self.html[self.pos])
        } else {
            None
        }
    }

    /// Decodes the character references of `text` by the attribute rule.
    pub fn decode_entities_in_attribute(&self, text: &Vec<char>) -> (r: Vec<char>)
        ensures
            r@ == decode(self.table(), text@, true),
    {
        self.entities.decode_entities_impl(text, true)
    }

    /// Decodes the character references of `text` by the text rule.
    pub fn decode_entities(&self, text: &Vec<char>) -> (r: Vec<char>)
        ensures
            r@ == decode(self.table(), text@, false),
    {
        self.entities.decode_entities_impl(text, false)
    }

    /// Text up to the next `<` (or the end), filtered, then decoded.
    fn try_text(&mut self) -> (r: Option<HTMLToken>)
        requires
            old(self).wf(),
        ensures
            final(self).keeps(old(self)),
            final(self).state == old(self).state,
            final(self).pending_tokens@ == old(self).pending_tokens@,
            old(self).pos < old(self).html@.len() && old(self).html@[old(self).pos as int] != '<'
                ==> {
                let e = next_index_of(old(self).html@, old(self).pos as int, '<');
                &&& r matches Some(t)
                &&& t.kind == TokenKind::Character
                &&& t.data@ == decode(
                    old(self).entities@,
                    filtered(old(self).html@.subrange(old(self).pos as int, e)),
                    false,
                )
                &&& token_ok(old(self).entities@, t)
                &&& final(self).pos == e
            },
            r matches Some(t) ==> token_ok(old(self).entities@, t),
            !(old(self).pos < old(self).html@.len() && old(self).html@[old(self).pos as int]
                != '<') ==> r is None && final(self).pos == old(self).pos,
            r is Some ==> final(self).pos > old(self).pos,
            final(self).rawtext_tag == old(self).rawtext_tag,
            final(self).script_content == old(self).script_content,
            final(self).script_suppressed_end_once == old(self).script_suppressed_end_once,
    {
        if self.pos >= self.html.len() || self.html[self.pos] == '<' {
            return None;
        }
        let start = self.pos;
        let end = index_of(&self.html, start + 1, '<');
        self.pos = end;
        let text = replace_invalid_characters(&self.html, start, end);
        let decoded = self.decode_entities(&text);
        let t = HTMLToken::new_character(&decoded);
        assert(lower(t.tag_name@) =~= t.tag_name@);
        Some(t)
    }

    /// A comment that starts with `<!--` at the cursor.
    fn handle_comment(&mut self) -> (r: HTMLToken)
        requires
            old(self).wf(),
            occurs_at(old(self).html@, old(self).pos as int, "<!--"@),
        ensures
            final(self).keeps(old(self)),
            final(self).pos > old(self).pos,
            final(self).state == old(self).state,
            final(self).rawtext_tag == old(self).rawtext_tag,
            final(self).script_content == old(self).script_content,
            final(self).script_suppressed_end_once == old(self).script_suppressed_end_once,
            final(self).pending_tokens@ == old(self).pending_tokens@,
            r.kind == TokenKind::Comment,
            !r.needs_rawtext,
            token_ok(old(self).entities@, r),
            comment_outcome(old(self).html@, old(self).pos as int, r, final(self).pos as int),
    {
        proof {
            reveal_strlit("<!--");
        }
        let len = self.html.len();
        self.pos = self.pos + 4;
        let start = self.pos;
        let empty: Vec<char> = Vec::new();
        if self.pos < len && self.html[self.pos] == '-' && self.pos + 1 < len && self.html[self.pos
            + 1] == '>' {
            self.pos = self.pos + 2;
            let t = HTMLToken::new_comment(&empty);
            assert(lower(t.tag_name@) =~= t.tag_name@);
            return t;
        }
        let ghost s = self.html@;
        let text = match find_str(&self.html, start, "-->") {
            Some(e) => {
                proof {
                    reveal_strlit("-->");
                    assert forall|e2: int| #[trigger] first_from(s, start as int, e2, "-->"@) implies e2 == e by {
                        if e2 < e {
                        } else if e2 > e {
                        }
                    }
                }
                let text = replace_invalid_characters(&self.html, start, e);
                self.pos = e + 3;
                text
            },
            None => match find_str(&self.html, start, "--!>") {
                Some(e) => {
                    proof {
                        reveal_strlit("--!>");
                        assert forall|e2: int| #[trigger] first_from(s, start as int, e2, "--!>"@) implies e2 == e by {
                            if e2 < e {
                            } else if e2 > e {
                            }
                        }
                    }
                    let text = replace_invalid_characters(&self.html, start, e);
                    self.pos = e + 4;
                    text
                },
                None => {
                    let text = replace_invalid_characters(&self.html, start, len);
                    self.pos = len;
                    let n = text.len();
                    if n >= 2 && text[n - 2] == '-' && text[n - 1] == '-' {
                        copy_range(&text, 0, n - 2)
                    } else {
                        text
                    }
                },
            },
        };
        let t = HTMLToken::new_comment(&text);
        assert(lower(t.tag_name@) =~= t.tag_name@);
        t
    }

    /// A bogus comment (`<!`, `<?` or `</` and no letter) at the cursor; a
    /// CDATA section is kept as a comment with its brackets.
    fn handle_bogus_comment(&mut self) -> (r: HTMLToken)
        requires
            old(self).wf(),
            old(self).pos + 2 <= old(self).html@.len(),
        ensures
            final(self).keeps(old(self)),
            final(self).pos > old(self).pos,
            final(self).state == old(self).state,
            final(self).rawtext_tag == old(self).rawtext_tag,
            final(self).script_content == old(self).script_content,
            final(self).script_suppressed_end_once == old(self).script_suppressed_end_once,
            final(self).pending_tokens@ == old(self).pending_tokens@,
            r.kind == TokenKind::Comment,
            !r.needs_rawtext,
            token_ok(old(self).entities@, r),
            bogus_outcome(old(self).html@, old(self).pos as int, r, final(self).pos as int),
    {
        let len = self.html.len();
        let ghost s = self.html@;
        if occurs(&self.html, self.pos, "<![CDATA[") {
            proof {
                reveal_strlit("<![CDATA[");
            }
            let start = self.pos + 9;
            let mut data: Vec<char> = Vec::new();
            push_str(&mut data, "[CDATA[");
            assert(data@ =~= "[CDATA["@);
            match find_str(&self.html, start, "]]>") {
                Some(e) => {
                    proof {
                        reveal_strlit("]]>");
                        assert forall|e2: int| #[trigger] first_from(s, old(self).pos as int + 9, e2, "]]>"@) implies e2 == e by {
                            if e2 < e {
                            } else if e2 > e {
                            }
                        }
                    }
                    let inner = replace_invalid_characters(&self.html, start, e);
                    self.pos = e + 3;
                    push_chars(&mut data, &inner);
                    push_str(&mut data, "]]");
                },
                None => {
                    let inner = replace_invalid_characters(&self.html, start, len);
                    self.pos = len;
                    let n = inner.len();
                    push_chars(&mut data, &inner);
                    let ghost before_pad = data@;
                    if n >= 2 && inner[n - 2] == ']' && inner[n - 1] == ']' {
                        data.push(' ');
                        assert(data@ =~= before_pad + seq![' ']);
                    } else {
                        assert(data@ =~= before_pad + Seq::<char>::empty());
                    }
                },
            }
            let t = HTMLToken::new_comment(&data);
            assert(lower(t.tag_name@) =~= t.tag_name@);
            return t;
        }
        let start = if occurs(&self.html, self.pos, "<?") {
            self.pos + 1
        } else {
            self.pos + 2
        };
        let gt = index_of(&self.html, start, '>');
        let text = replace_invalid_characters(&self.html, start, gt);
        self.pos = if gt < len {
            gt + 1
        } else {
            len
        };
        let t = HTMLToken::new_comment(&text);
        assert(lower(t.tag_name@) =~= t.tag_name@);
        t
    }

    /// Parses a start or end tag at the cursor (which holds `<`). `None`, with
    /// the cursor unchanged, where no tag name follows.
    fn parse_simple_tag(&mut self) -> (r: Option<HTMLToken>)
        requires
            old(self).wf(),
            old(self).pos < old(self).html@.len(),
        ensures
            final(self).keeps(old(self)),
            final(self).pending_tokens@ == old(self).pending_tokens@,
            r is None ==> final(self).pos == old(self).pos && final(self).state == old(self).state
                && final(self).rawtext_tag == old(self).rawtext_tag && final(self).script_content
                == old(self).script_content && final(self).script_suppressed_end_once == old(
                self).script_suppressed_end_once,
            r is Some ==> final(self).pos > old(self).pos,
            r matches Some(t) ==> if t.kind == TokenKind::StartTag && t.tag_name@ == "script"@ {
                final(self).script_content@ == Seq::<char>::empty()
                    && !final(self).script_suppressed_end_once
            } else {
                final(self).script_content == old(self).script_content
                    && final(self).script_suppressed_end_once == old(
                    self).script_suppressed_end_once
            },
            (r is None) == (tag_name_end(old(self).html@, tag_name_start(old(self).html@, old(self).pos as int))
                == tag_name_start(old(self).html@, old(self).pos as int)),
            r matches Some(t) ==> tag_outcome(
                old(self).html@,
                old(self).pos as int,
                old(self).entities@,
                t,
                final(self).pos as int,
            ),
            r matches Some(t) ==> token_ok(old(self).entities@, t),
            r matches Some(t) ==> t.needs_rawtext == (t.kind == TokenKind::StartTag && t.tag_name@
                == "textarea"@),
            r matches Some(t) ==> if t.kind == TokenKind::StartTag && rawtext_element(t.tag_name@) {
                &&& final(self).state == TokenizerState::Rawtext
                &&& final(self).rawtext_tag matches Some(v) && v@ == t.tag_name@
            } else {
                final(self).state == old(self).state && final(self).rawtext_tag == old(
                    self,
                ).rawtext_tag
            },
    {
        let len = self.html.len();
        let start_pos = self.pos;
        let mut p = start_pos + 1;
        let is_end_tag = p < len && self.html[p] == '/';
        if is_end_tag {
            p = p + 1;
        }
        let name_start = p;
        while p < len && !(space(self.html[p]) || self.html[p] == '/' || self.html[p] == '>')
            invariant
                name_start <= p <= len == self.html@.len(),
                tag_name_end(self.html@, name_start as int) == tag_name_end(self.html@, p as int),
            decreases len - p,
        {
            p = p + 1;
        }
        if p == name_start {
            return None;
        }
        let tag_name = lower_range(&self.html, name_start, p);
        proof {
            lemma_lower_idempotent(self.html@.subrange(name_start as int, p as int));
        }
        let attr_start = scan(&self.html, p, Stop::Space);
        let mut p = index_of(&self.html, attr_start, '>');
        let mut attr_end = p;
        // Quotes are counted on the trimmed attribute string; an escaped
        // quote (a backslash and a quote) does not count.
        let raw_attrs = copy_range(&self.html, attr_start, attr_end);
        let trimmed_attrs = trim(&raw_attrs);
        let mut dbl_odd = false;
        let mut sgl_odd = false;
        let mut k: usize = 0;
        while k < trimmed_attrs.len()
            invariant
                k <= trimmed_attrs@.len(),
                dbl_odd == odd_quotes(trimmed_attrs@.subrange(0, k as int), '"'),
                sgl_odd == odd_quotes(trimmed_attrs@.subrange(0, k as int), '\''),
            decreases trimmed_attrs@.len() - k,
        {
            let c = trimmed_attrs[k];
            let escaped = k >= 1 && trimmed_attrs[k - 1] == '\\';
            if c == '"' {
                dbl_odd = !dbl_odd;
                if escaped {
                    dbl_odd = !dbl_odd;
                }
            } else if c == '\'' {
                sgl_odd = !sgl_odd;
                if escaped {
                    sgl_odd = !sgl_odd;
                }
            }
            proof {
                let t = trimmed_attrs@.subrange(0, k + 1);
                assert(t.drop_last() =~= trimmed_attrs@.subrange(0, k as int));
            }
            k = k + 1;
        }
        proof {
            assert(trimmed_attrs@.subrange(0, trimmed_attrs@.len() as int) =~= trimmed_attrs@);
        }
        let empty: Vec<char> = Vec::new();
        if dbl_odd || sgl_odd {
            let q0 = if dbl_odd { '"' } else { '\'' };
            let mut in_quote: Option<char> = Some(q0);
            let mut scan = p;
            while scan < len
                invariant_except_break
                    quote_rescan(self.html@, p as int, Some(q0)) == quote_rescan(
                        self.html@,
                        scan as int,
                        in_quote,
                    ),
                invariant
                    p <= scan <= len == self.html@.len(),
                ensures
                    quote_rescan(self.html@, p as int, Some(q0)) == (scan as int, in_quote),
                decreases len - scan,
            {
                let ch = self.html[scan];
                match in_quote {
                    Some(q) => {
                        if ch == q {
                            in_quote = None;
                        }
                    },
                    None => {
                        if ch == '"' || ch == '\'' {
                            in_quote = Some(ch);
                        } else if ch == '>' {
                            break;
                        }
                    },
                }
                scan = scan + 1;
            }
            attr_end = scan;
            p = scan;
            if in_quote.is_some() && p >= len {
                self.pos = len;
                let t = HTMLToken::new_character(&empty);
                assert(lower(t.tag_name@) =~= t.tag_name@);
                return Some(t);
            }
        }
        let (is_self_closing, attributes) = parse_attributes(&self.entities, &self.html, attr_start, attr_end);
        let ghost attr_text = self.html@.subrange(attr_start as int, attr_end as int);
        if p >= len {
            self.pos = len;
            if is_end_tag {
                return Some(HTMLToken::new_end_tag(&tag_name));
            }
            if dbl_odd || sgl_odd {
                let t = HTMLToken::new_character(&empty);
                assert(lower(t.tag_name@) =~= t.tag_name@);
                return Some(t);
            }
            let text = replace_invalid_characters(&trimmed_attrs, 0, trimmed_attrs.len());
            assert(trimmed_attrs@.subrange(0, trimmed_attrs@.len() as int) =~= trimmed_attrs@);
            let t = HTMLToken::new_character(&text);
            assert(lower(t.tag_name@) =~= t.tag_name@);
            return Some(t);
        }
        p = p + 1;
        self.pos = p;
        if is_end_tag {
            return Some(HTMLToken::new_end_tag(&tag_name));
        }
        let needs_rawtext = equals_str(&tag_name, "textarea");
        if is_rawtext_element(&tag_name) {
            self.state = TokenizerState::Rawtext;
            self.rawtext_tag = Some(copy_range(&tag_name, 0, tag_name.len()));
            if equals_str(&tag_name, "script") {
                self.script_content = Vec::new();
                self.script_suppressed_end_once = false;
            }
        }
        let t = HTMLToken::new_start_tag(&tag_name, attributes, is_self_closing, needs_rawtext);
        assert(attribute_list(self.entities@, attr_text) == t.attrs());
        Some(t)
    }

    /// A `<` in DATA mode: text, a DOCTYPE, a comment, a bogus comment or a tag.
    fn try_tag(&mut self) -> (r: HTMLToken)
        requires
            old(self).wf(),
            old(self).pos < old(self).html@.len(),
            old(self).html@[old(self).pos as int] == '<',
            old(self).state == TokenizerState::Data,
        ensures
            final(self).keeps(old(self)),
            final(self).pos > old(self).pos,
            final(self).pending_tokens@ == old(self).pending_tokens@,
            token_ok(old(self).entities@, r),
            r.needs_rawtext == (r.kind == TokenKind::StartTag && r.tag_name@ == "textarea"@),
            if r.kind == TokenKind::StartTag && rawtext_element(r.tag_name@) {
                &&& final(self).state == TokenizerState::Rawtext
                &&& final(self).rawtext_tag matches Some(v) && v@ == r.tag_name@
            } else {
                final(self).state == old(self).state && final(self).rawtext_tag == old(
                    self,
                ).rawtext_tag
            },
            if r.kind == TokenKind::StartTag && r.tag_name@ == "script"@ {
                final(self).script_content@ == Seq::<char>::empty()
                    && !final(self).script_suppressed_end_once
            } else {
                final(self).script_content == old(self).script_content
                    && final(self).script_suppressed_end_once == old(
                    self).script_suppressed_end_once
            },
            markup_outcome(
                old(self).html@,
                old(self).pos as int,
                old(self).entities@,
                r,
                final(self).pos as int,
            ),
    {
        let pos = self.pos;
        let len = self.html.len();
        let mut lt: Vec<char> = Vec::new();
        lt.push('<');
        assert(lt@ =~= seq!['<']);
        if pos + 1 < len {
            let nxt = self.html[pos + 1];
            if !alpha(nxt) && !(nxt == '!' || nxt == '/' || nxt == '?') {
                self.pos = pos + 1;
                let t = HTMLToken::new_character(&lt);
                assert(lower(t.tag_name@) =~= t.tag_name@);
                return t;
            }
        }
        if pos + 1 >= len {
            self.pos = pos + 1;
            let t = HTMLToken::new_character(&lt);
            assert(lower(t.tag_name@) =~= t.tag_name@);
            return t;
        }
        proof {
            reveal_strlit("DOCTYPE");
        }
        if len - pos >= 9 && self.html[pos + 1] == '!' && occurs_ignore_case(
            &self.html,
            pos + 2,
            "DOCTYPE",
        ) {
            let p = scan(&self.html, pos + 9, Stop::Space);
            let gt = index_of(&self.html, p, '>');
            let raw = copy_range(&self.html, p, gt);
            let doctype = trim(&raw);
            self.pos = if gt < len {
                gt + 1
            } else {
                len
            };
            let t = HTMLToken::new_doctype(&doctype);
            assert(lower(t.tag_name@) =~= t.tag_name@);
            return t;
        }
        if occurs(&self.html, pos, "<!--") {
            if len - pos > 4 && self.html[pos + 4] == '>' {
                self.pos = pos + 5;
                let empty: Vec<char> = Vec::new();
                let t = HTMLToken::new_comment(&empty);
                assert(lower(t.tag_name@) =~= t.tag_name@);
                return t;
            }
            return self.handle_comment();
        }
        let is_end_tag_start = occurs(&self.html, pos, "</");
        let has_invalid_char = pos + 2 < len && !alpha(self.html[pos + 2]);
        if (is_end_tag_start && has_invalid_char) || occurs(&self.html, pos, "<!") || occurs(
            &self.html,
            pos,
            "<?",
        ) {
            return self.handle_bogus_comment();
        }
        match self.parse_simple_tag() {
            Some(t) => t,
            None => {
                self.pos = pos + 1;
                let t = HTMLToken::new_character(&lt);
                assert(lower(t.tag_name@) =~= t.tag_name@);
                t
            },
        }
    }

    /// Whether `content` (script text) is in the escaped state with a nested script tag.
    fn in_escaped_script_comment(content: &Vec<char>) -> (r: bool)
        ensures
            r == escaped_script_comment(content@),
    {
        let l = lower_range(content, 0, content.len());
        assert(content@.subrange(0, content@.len() as int) =~= content@);
        let ghost lv = lower(content@);
        if find_str(&l, 0, "-->").is_some() {
            return false;
        }
        match find_str(&l, 0, "<!--") {
            None => {
                assert(forall|idx: int| !first_at(lv, idx, "<!--"@));
                false
            },
            Some(idx) => {
                proof {
                    reveal_strlit("<!--");
                    reveal_strlit("<script");
                }
                assert(first_at(lv, idx as int, "<!--"@));
                assert forall|j: int| #[trigger] first_at(lv, j, "<!--"@) implies j == idx by {
                    if j < idx {
                    } else if j > idx {
                    }
                }
                let k = scan(&l, idx + 4, Stop::Space);
                occurs(&l, k, "<script") && k + 7 < l.len() && script_delimiter_exec(l[k + 7])
            },
        }
    }

    /// Whether an end tag after `content` ends the script; the first one
    /// inside the escaped state is suppressed, and that is remembered.
    fn should_honor_script_end_tag(&mut self, content: &Vec<char>) -> (r: bool)
        requires
            old(self).wf(),
        ensures
            r == !(escaped_script_comment(content@) && !old(self).script_suppressed_end_once),
            final(self).script_suppressed_end_once == (old(self).script_suppressed_end_once
                || escaped_script_comment(content@)),
            final(self).keeps(old(self)),
            final(self).pos == old(self).pos,
            final(self).state == old(self).state,
            final(self).rawtext_tag == old(self).rawtext_tag,
            final(self).script_content == old(self).script_content,
            final(self).pending_tokens@ == old(self).pending_tokens@,
    {
        if RustTokenizer::in_escaped_script_comment(content) {
            if !self.script_suppressed_end_once {
                self.script_suppressed_end_once = true;
                return false;
            }
        }
        true
    }

    /// Leaves RAWTEXT for DATA.
    fn end_rawtext(&mut self)
        ensures
            final(self).state == TokenizerState::Data,
            final(self).rawtext_tag is None,
            final(self).html == old(self).html,
            final(self).pos == old(self).pos,
            final(self).entities == old(self).entities,
            final(self).pending_tokens == old(self).pending_tokens,
            final(self).script_content == old(self).script_content,
            final(self).script_suppressed_end_once == old(self).script_suppressed_end_once,
    {
        self.state = TokenizerState::Data;
        self.rawtext_tag = None;
    }

    /// Emits the end tag `name`, after the text `html[from..to]` where that
    /// is not empty (the end tag then waits in the queue).
    fn emit_end(&mut self, from: usize, to: usize, name: &Vec<char>, decode_text: bool) -> (r: HTMLToken)
        requires
            old(self).wf(),
            from <= to <= old(self).html@.len(),
            lower(name@) == name@,
        ensures
            final(self).wf(),
            final(self).html@ == old(self).html@,
            final(self).entities@ == old(self).entities@,
            final(self).pos == old(self).pos,
            final(self).state == old(self).state,
            final(self).rawtext_tag == old(self).rawtext_tag,
            final(self).script_content == old(self).script_content,
            final(self).script_suppressed_end_once == old(self).script_suppressed_end_once,
            token_ok(old(self).entities@, r),
            r.kind == TokenKind::Character || r.kind == TokenKind::EndTag,
            !r.needs_rawtext,
            from == to ==> final(self).pending_tokens@ == old(self).pending_tokens@,
            from == to ==> r.kind == TokenKind::EndTag && r.tag_name@ == name@,
    {
        let end = HTMLToken::new_end_tag(name);
        if from < to {
            let text = replace_invalid_characters(&self.html, from, to);
            let text = if decode_text {
                self.decode_entities(&text)
            } else {
                text
            };
            let ghost before = self.pending_tokens@;
            self.pending_tokens.enqueue(end);
            assert forall|i: int| 0 <= i < self.pending_tokens@.len() implies token_ok(
                self.entities@,
                #[trigger] self.pending_tokens@[i],
            ) by {
                if i < before.len() {
                    assert(self.pending_tokens@[i] == before[i]);
                }
            }
            let t = HTMLToken::new_character(&text);
            assert(lower(t.tag_name@) =~= t.tag_name@);
            t
        } else {
            end
        }
    }

    /// The text from the cursor up to the next `</` (not counting one at the
    /// cursor) or the end.
    fn text_to_next_close(&mut self) -> (r: (usize, usize))
        requires
            old(self).wf(),
            old(self).pos < old(self).html@.len(),
        ensures
            final(self).keeps(old(self)),
            final(self).state == old(self).state,
            final(self).rawtext_tag == old(self).rawtext_tag,
            final(self).script_content == old(self).script_content,
            final(self).script_suppressed_end_once == old(self).script_suppressed_end_once,
            final(self).pending_tokens@ == old(self).pending_tokens@,
            r.0 == old(self).pos,
            r.1 == final(self).pos,
            r.0 < r.1 <= old(self).html@.len(),
            found_from(old(self).html@, r.0 + 1, "</"@) ==> first_from(
                old(self).html@,
                r.0 + 1,
                r.1 as int,
                "</"@,
            ),
            !found_from(old(self).html@, r.0 + 1, "</"@) ==> r.1 == old(self).html@.len(),
    {
        let len = self.html.len();
        let start = self.pos;
        self.pos = match find_str(&self.html, start + 1, "</") {
            Some(k) => {
                proof {
                    reveal_strlit("</");
                }
                k
            },
            None => self.html.len(),
        };
        (start, self.pos)
    }

    /// One step in RAWTEXT mode for an element other than `script`.
    fn tokenize_regular_rawtext(&mut self) -> (r: HTMLToken)
        requires
            old(self).wf(),
            old(self).pos < old(self).html@.len(),
            old(self).state == TokenizerState::Rawtext,
        ensures
            final(self).pending_tokens@ == old(self).pending_tokens@,
            final(self).keeps(old(self)),
            final(self).pos > old(self).pos,
            token_ok(old(self).entities@, r),
            !r.needs_rawtext,
            r.kind == TokenKind::Character || (r.kind == TokenKind::EndTag && final(self).state
                == TokenizerState::Data),
            rawtext_outcome(
                old(self).html@,
                old(self).pos as int,
                old(self).active_tag(),
                old(self).entities@,
                r,
                final(self).pos as int,
                final(self).mode(),
                final(self).active_tag(),
            ),
    {
        let len = self.html.len();
        if occurs(&self.html, self.pos, "</") {
            proof {
                reveal_strlit("</");
            }
            let tag_start = self.pos + 2;
            let i = scan(&self.html, tag_start, Stop::Letters);
            let potential_tag = lower_range(&self.html, tag_start, i);
            proof {
                lemma_lower_idempotent(self.html@.subrange(tag_start as int, i as int));
            }
            let i = scan(&self.html, i, Stop::Space);
            let i = scan(&self.html, i, Stop::Slashes);
            let i = scan(&self.html, i, Stop::Space);
            let matches_tag = match &self.rawtext_tag {
                Some(t) => crate::chars::same_chars(t, &potential_tag),
                None => false,
            };
            if matches_tag && i < len && self.html[i] == '>' {
                let from = self.pos;
                let rcdata = is_rcdata_element(&self.rawtext_tag);
                self.pos = i + 1;
                self.end_rawtext();
                return self.emit_end(from, tag_start - 2, &potential_tag, rcdata);
            }
        }
        let (start, end) = self.text_to_next_close();
        let text = replace_invalid_characters(&self.html, start, end);
        let text = if is_rcdata_element(&self.rawtext_tag) {
            self.decode_entities(&text)
        } else {
            text
        };
        let t = HTMLToken::new_character(&text);
        assert(lower(t.tag_name@) =~= t.tag_name@);
        t
    }

    /// Emits the rest of the input as script text.
    fn script_rest_as_text(&mut self) -> (r: HTMLToken)
        requires
            old(self).wf(),
            old(self).pos < old(self).html@.len(),
        ensures
            final(self).keeps(old(self)),
            final(self).pos > old(self).pos,
            final(self).state == old(self).state,
            final(self).pending_tokens@ == old(self).pending_tokens@,
            token_ok(old(self).entities@, r),
            !r.needs_rawtext,
            r.kind == TokenKind::Character,
            r.data@ == filtered(old(self).html@.subrange(old(self).pos as int, old(self).html@.len() as int)),
            final(self).pos == old(self).html@.len(),
            final(self).rawtext_tag == old(self).rawtext_tag,
    {
        let len = self.html.len();
        let frag = replace_invalid_characters(&self.html, self.pos, len);
        self.pos = len;
        push_chars(&mut self.script_content, &frag);
        let t = HTMLToken::new_character(&frag);
        assert(lower(t.tag_name@) =~= t.tag_name@);
        t
    }

    /// One step in RAWTEXT mode for `script`: an end tag ends the script
    /// unless the escape-comment rule suppresses or defers it.
    fn tokenize_script_content(&mut self) -> (r: HTMLToken)
        requires
            old(self).wf(),
            old(self).pos < old(self).html@.len(),
            old(self).state == TokenizerState::Rawtext,
            old(self).active_tag() == Some("script"@),
        ensures
            final(self).pending_tokens@ == old(self).pending_tokens@,
            final(self).keeps(old(self)),
            final(self).pos > old(self).pos,
            token_ok(old(self).entities@, r),
            !r.needs_rawtext,
            r.kind == TokenKind::Character || (r.kind == TokenKind::EndTag && final(self).state
                == TokenizerState::Data),
            script_outcome(
                old(self).html@,
                old(self).pos as int,
                old(self).script_content@,
                old(self).script_suppressed_end_once,
                r,
                final(self).pos as int,
                final(self).state,
                final(self).script_content@,
                final(self).script_suppressed_end_once,
                final(self).active_tag(),
            ),
    {
        let len = self.html.len();
        if occurs(&self.html, self.pos, "</") {
            proof {
                reveal_strlit("</");
                reveal_strlit("</script");
            }
            let tag_start = self.pos + 2;
            let i = scan(&self.html, tag_start, Stop::Letters);
            let potential_tag = lower_range(&self.html, tag_start, i);
            proof {
                lemma_lower_idempotent(self.html@.subrange(tag_start as int, i as int));
            }
            if equals_str(&potential_tag, "script") {
                if i >= len {
                    return self.script_rest_as_text();
                }
                let next_char = self.html[i];
                if !(space(next_char) || next_char == '/' || next_char == '>') {
                    return self.script_rest_as_text();
                }
                let mut scan = i;
                let mut saw_gt = false;
                let mut quote: Option<char> = None;
                while scan < len
                    invariant_except_break
                        close_scan(self.html@, i as int, None) == close_scan(self.html@, scan as int, quote),
                        !saw_gt,
                    invariant
                        i <= scan <= len == self.html@.len(),
                    ensures
                        close_scan(self.html@, i as int, None) == (saw_gt, scan as int),
                        saw_gt ==> scan < len,
                    decreases len - scan,
                {
                    let c = self.html[scan];
                    match quote {
                        Some(q) => {
                            if c == q {
                                quote = None;
                            }
                        },
                        None => {
                            if c == '"' || c == '\'' {
                                quote = Some(c);
                            } else if c == '>' {
                                saw_gt = true;
                                break;
                            } else if c == '<' && occurs(&self.html, scan, "</script") {
                                break;
                            }
                        },
                    }
                    scan = scan + 1;
                }
                let from = self.pos;
                let mut full_content = copy_range(&self.script_content, 0, self.script_content.len());
                let before = copy_range(&self.html, from, tag_start - 2);
                push_chars(&mut full_content, &before);
                assert(full_content@ =~= old(self).script_content@);
                if saw_gt {
                    let mut honor = self.should_honor_script_end_tag(&full_content);
                    if RustTokenizer::in_escaped_script_comment(&full_content) {
                        let rest = lower_range(&self.html, scan + 1, len);
                        if find_str(&rest, 0, "</script").is_some() {
                            honor = false;
                        }
                    }
                    if honor {
                        self.pos = scan + 1;
                        self.end_rawtext();
                        self.script_content = Vec::new();
                        self.script_suppressed_end_once = false;
                        return self.emit_end(from, tag_start - 2, &potential_tag, false);
                    }
                } else {
                    let honor = self.should_honor_script_end_tag(&full_content);
                    if honor {
                        self.pos = len;
                        self.end_rawtext();
                        self.script_content = Vec::new();
                        self.script_suppressed_end_once = false;
                        return self.emit_end(from, tag_start - 2, &potential_tag, false);
                    }
                }
            }
        }
        let (start, end) = self.text_to_next_close();
        let raw = copy_range(&self.html, start, end);
        push_chars(&mut self.script_content, &raw);
        let text = replace_invalid_characters(&self.html, start, end);
        let t = HTMLToken::new_character(&text);
        assert(lower(t.tag_name@) =~= t.tag_name@);
        t
    }

    /// One step in RAWTEXT mode.
    fn tokenize_rawtext(&mut self) -> (r: HTMLToken)
        requires
            old(self).wf(),
            old(self).pos < old(self).html@.len(),
            old(self).state == TokenizerState::Rawtext,
        ensures
            final(self).pending_tokens@ == old(self).pending_tokens@,
            old(self).active_tag() == Some("script"@) ==> script_outcome(
                old(self).html@,
                old(self).pos as int,
                old(self).script_content@,
                old(self).script_suppressed_end_once,
                r,
                final(self).pos as int,
                final(self).state,
                final(self).script_content@,
                final(self).script_suppressed_end_once,
                final(self).active_tag(),
            ),
            old(self).active_tag() != Some("script"@) ==> rawtext_outcome(
                old(self).html@,
                old(self).pos as int,
                old(self).active_tag(),
                old(self).entities@,
                r,
                final(self).pos as int,
                final(self).mode(),
                final(self).active_tag(),
            ),
            final(self).keeps(old(self)),
            final(self).pos > old(self).pos,
            token_ok(old(self).entities@, r),
            !r.needs_rawtext,
            r.kind == TokenKind::Character || (r.kind == TokenKind::EndTag && final(self).state
                == TokenizerState::Data),
    {
        let is_script = match &self.rawtext_tag {
            Some(t) => equals_str(t, "script"),
            None => false,
        };
        if is_script {
            self.tokenize_script_content()
        } else {
            self.tokenize_regular_rawtext()
        }
    }

    /// What a call of `next_token` establishes, from the tokenizer `old`
    /// before it to `new` after it, with the result `r`.
    pub open spec fn next_token_post(old: RustTokenizer, new: RustTokenizer, r: Option<HTMLToken>) -> bool {
        &&& new.wf()
        &&& new.input() == old.input()
        &&& new.table() == old.table()
        &&& new.position() >= old.position()
        &&& r is None <==> old.exhausted()
        &&& r is None ==> new.position() == old.position() && new.mode() == old.mode()
            && new.queued() == old.queued()
        &&& r matches Some(t) ==> t.is_last_token == new.exhausted()
        &&& old.queued().len() == 0 ==> new.queued() == old.queued()
        &&& old.queued().len() == 0 && r is Some ==> new.position() > old.position()
        &&& r matches Some(t) ==> token_ok(old.table(), t)
        &&& old.queued().len() > 0 ==> (r matches Some(t) && t.kind == old.queued()[0].kind
            && t.data == old.queued()[0].data && t.tag_name == old.queued()[0].tag_name
            && new.queued() == old.queued().drop_first() && new.position() == old.position())
        &&& ({
            let p = old.position();
            let s = old.input();
            old.queued().len() == 0 && old.mode() == TokenizerState::Data && p < s.len() && s[p]
                != '<' ==> {
                let e = next_index_of(s, p, '<');
                &&& r matches Some(t)
                &&& t.kind == TokenKind::Character
                &&& t.data@ == decode(old.table(), filtered(s.subrange(p, e)), false)
                &&& new.position() == e
                &&& new.mode() == TokenizerState::Data
                &&& new.queued() == old.queued()
            }
        })
        &&& ({
            let p = old.position();
            let s = old.input();
            old.queued().len() == 0 && old.mode() == TokenizerState::Plaintext && p < s.len() ==> {
                &&& r matches Some(t)
                &&& t.kind == TokenKind::Character
                &&& t.data@ == filtered(s.subrange(p, s.len() as int))
                &&& t.is_last_token
                &&& new.position() == s.len()
            }
        })
        &&& ({
            let p = old.position();
            let s = old.input();
            old.queued().len() == 0 && old.mode() == TokenizerState::Data && p < s.len() && s[p]
                == '<' ==> (r matches Some(t) && markup_outcome(s, p, old.table(), t, new.position()))
        })
        &&& ({
            let p = old.position();
            let s = old.input();
            old.queued().len() == 0 && old.mode() == TokenizerState::Rawtext && p < s.len()
                && old.active_tag() != Some("script"@) ==> (r matches Some(t) && rawtext_outcome(
                s,
                p,
                old.active_tag(),
                old.table(),
                t,
                new.position(),
                new.mode(),
                new.active_tag(),
            ))
        })
        &&& ({
            let p = old.position();
            let s = old.input();
            old.queued().len() == 0 && old.mode() == TokenizerState::Rawtext && p < s.len()
                && old.active_tag() == Some("script"@) ==> (r matches Some(t) && script_outcome(
                s,
                p,
                old.script_text(),
                old.suppressed_once(),
                t,
                new.position(),
                new.mode(),
                new.script_text(),
                new.suppressed_once(),
                new.active_tag(),
            ))
        })
        &&& r matches Some(t) ==> (old.queued().len() == 0 && old.mode() == TokenizerState::Data
            ==> {
            &&& if t.kind == TokenKind::StartTag && rawtext_element(t.tag_name@) {
                new.mode() == TokenizerState::Rawtext && new.active_tag() == Some(t.tag_name@)
            } else {
                new.mode() == TokenizerState::Data && new.active_tag() == old.active_tag()
            }
            &&& if t.kind == TokenKind::StartTag && t.tag_name@ == "script"@ {
                new.script_text() == Seq::<char>::empty() && !new.suppressed_once()
            } else {
                new.script_text() == old.script_text() && new.suppressed_once()
                    == old.suppressed_once()
            }
        })
    }

    /// The next token, or `None` once the input is consumed and no token is
    /// queued. Queued tokens come first, in order.
    pub fn next_token(&mut self) -> (r: Option<HTMLToken>)
        requires
            old(self).wf(),
        ensures
            RustTokenizer::next_token_post(*old(self), *final(self), r),
    {
        let ghost old_pending = self.pending_tokens@;
        match self.pending_tokens.pop_front() {
            Some(t) => {
                let mut t = t;
                assert(token_ok(self.entities@, old_pending[0]));
                assert forall|i: int| 0 <= i < self.pending_tokens@.len() implies token_ok(
                    self.entities@,
                    #[trigger] self.pending_tokens@[i],
                ) by {
                    assert(self.pending_tokens@[i] == old_pending[i + 1]);
                }
                t.is_last_token = self.pos >= self.html.len() && self.pending_tokens.is_empty();
                return Some(t);
            },
            None => {},
        }
        if self.pos >= self.html.len() {
            return None;
        }
        let mut t = match self.state {
            TokenizerState::Data => {
                if self.html[self.pos] == '<' {
                    self.try_tag()
                } else {
                    match self.try_text() {
                        Some(t) => t,
                        None => {
                            return None;
                        },
                    }
                }
            },
            TokenizerState::Rawtext => self.tokenize_rawtext(),
            TokenizerState::Plaintext => {
                let len = self.html.len();
                let data = replace_invalid_characters(&self.html, self.pos, len);
                self.pos = len;
                let t = HTMLToken::new_character(&data);
                assert(lower(t.tag_name@) =~= t.tag_name@);
                t
            },
        };
        t.is_last_token = self.pos >= self.html.len() && self.pending_tokens.is_empty();
        Some(t)
    }

    /// The tag whose end tag ends RAWTEXT mode.
    pub closed spec fn active_tag(&self) -> Option<Seq<char>> {
        match self.rawtext_tag {
            Some(v) => Some(v@),
            None => None,
        }
    }

    /// Switches to RAWTEXT mode for the element `tag_name` (lowercased).
    pub fn start_rawtext(&mut self, tag_name: &str)
        requires
            old(self).wf(),
        ensures
            final(self).wf(),
            final(self).input() == old(self).input(),
            final(self).table() == old(self).table(),
            final(self).position() == old(self).position(),
            final(self).queued() == old(self).queued(),
            final(self).mode() == TokenizerState::Rawtext,
            final(self).active_tag() == Some(lower(tag_name@)),
    {
        let name = str_to_chars(tag_name);
        let l = lower_range(&name, 0, name.len());
        assert(name@.subrange(0, name@.len() as int) =~= name@);
        self.state = TokenizerState::Rawtext;
        if equals_str(&l, "script") {
            self.script_content = Vec::new();
        }
        self.rawtext_tag = Some(l);
    }

    /// Switches to PLAINTEXT mode: the rest of the input is one text.
    pub fn start_plaintext(&mut self)
        requires
            old(self).wf(),
        ensures
            final(self).wf(),
            final(self).input() == old(self).input(),
            final(self).table() == old(self).table(),
            final(self).position() == old(self).position(),
            final(self).queued() == old(self).queued(),
            final(self).mode() == TokenizerState::Plaintext,
            final(self).active_tag() is None,
    {
        self.state = TokenizerState::Plaintext;
        self.rawtext_tag = None;
    }

    /// The name of the mode.
    pub fn state(&self) -> (r: String)
        ensures
            r@ == state_name(self.mode()),
    {
        let name = match self.state {
            TokenizerState::Data => "DATA",
            TokenizerState::Rawtext => "RAWTEXT",
            TokenizerState::Plaintext => "PLAINTEXT",
        };
        String::from_str(name)
    }

    /// Sets the mode by name; an unknown name selects DATA.
    pub fn set_state(&mut self, state: &str)
        requires
            old(self).wf(),
        ensures
            final(self).wf(),
            final(self).input() == old(self).input(),
            final(self).table() == old(self).table(),
            final(self).position() == old(self).position(),
            final(self).queued() == old(self).queued(),
            final(self).active_tag() == old(self).active_tag(),
            final(self).mode() == state_of_name(state@),
    {
        let n = str_to_chars(state);
        self.state = if equals_str(&n, "RAWTEXT") {
            TokenizerState::Rawtext
        } else if equals_str(&n, "PLAINTEXT") {
            TokenizerState::Plaintext
        } else {
            TokenizerState::Data
        };
    }

    /// The element whose end tag ends RAWTEXT mode.
    pub fn rawtext_tag(&self) -> (r: Option<String>)
        ensures
            r is Some == self.active_tag() is Some,
            r matches Some(s) ==> self.active_tag() == Some(s@),
    {
        match &self.rawtext_tag {
            Some(v) => Some(crate::chars::chars_to_string(v)),
            None => None,
        }
    }

    /// Sets the element whose end tag ends RAWTEXT mode, as given.
    pub fn set_rawtext_tag(&mut self, tag: Option<String>)
        requires
            old(self).wf(),
        ensures
            final(self).wf(),
            final(self).input() == old(self).input(),
            final(self).table() == old(self).table(),
            final(self).position() == old(self).position(),
            final(self).queued() == old(self).queued(),
            final(self).mode() == old(self).mode(),
            final(self).active_tag() == (match tag {
                Some(s) => Some(s@),
                None => None::<Seq<char>>,
            }),
    {
        self.rawtext_tag = match tag {
            Some(s) => Some(str_to_chars(s.as_str())),
            None => None,
        };
    }
}

fn script_delimiter_exec(c: char) -> (r: bool)
    ensures
        r == script_delimiter(c),
{
    c == ' ' || c == '/' || c == '\t' || c == '\n' || c == '\r' || c == '\x0C' || c == '>'
}

} // verus!
