use vstd::prelude::*;
use indexmap::IndexMap;
use crate::attributes::{attribute_entries, map_entry, map_len, new_map, add_first};
use crate::chars::{chars_to_string, lower, lower_range, str_to_chars};
use std::collections::VecDeque;

verus! {

/// The kinds of token that the tokenizer emits.
#[derive(PartialEq, Eq, Structural, Clone, Copy, Debug)]
pub enum TokenKind {
    Character,
    StartTag,
    EndTag,
    Comment,
    Doctype,
}

/// One emitted token.
pub struct HTMLToken {
    pub kind: TokenKind,
    /// The payload of a Character, Comment or DOCTYPE token.
    pub data: String,
    /// The lowercase name of a StartTag or EndTag token.
    pub tag_name: String,
    /// The attributes, in insertion order; see `attributes`.
    pub attributes_map: IndexMap<String, String>,
    pub is_self_closing: bool,
    pub is_last_token: bool,
    /// Set on `<textarea>` start tags only: the tree stage activates RCDATA itself.
    pub needs_rawtext: bool,
    pub ignored_end_tag: bool,
}

/// The names of `es` are pairwise distinct.
pub open spec fn distinct_names(es: Seq<(Seq<char>, Seq<char>)>) -> bool {
    forall|i: int, j: int| 0 <= i < j < es.len() ==> es[i].0 != es[j].0
}

impl HTMLToken {
    /// The attributes of the token, in order.
    pub open spec fn attrs(&self) -> Seq<(Seq<char>, Seq<char>)> {
        attribute_entries(self.attributes_map)
    }

    /// A token with the given parts and every flag unset.
    fn bare(kind: TokenKind, data: String, tag_name: String, attributes_map: IndexMap<String, String>) -> (r: HTMLToken)
        ensures
            r.kind == kind,
            r.data@ == data@,
            r.tag_name@ == tag_name@,
            r.attrs() == attribute_entries(attributes_map),
            !r.is_self_closing,
            !r.is_last_token,
            !r.needs_rawtext,
            !r.ignored_end_tag,
    {
        HTMLToken {
            kind,
            data,
            tag_name,
            attributes_map,
            is_self_closing: false,
            is_last_token: false,
            needs_rawtext: false,
            ignored_end_tag: false,
        }
    }

    /// A Character token with the given payload.
    pub fn new_character(data: &Vec<char>) -> (r: HTMLToken)
        ensures
            r.kind == TokenKind::Character,
            r.data@ == data@,
            r.tag_name@ == Seq::<char>::empty(),
            r.attrs() == Seq::<(Seq<char>, Seq<char>)>::empty(),
            !r.is_self_closing && !r.is_last_token && !r.needs_rawtext,
    {
        HTMLToken::bare(TokenKind::Character, chars_to_string(data), String::new(), new_map())
    }

    /// A Comment token with the given payload.
    pub fn new_comment(data: &Vec<char>) -> (r: HTMLToken)
        ensures
            r.kind == TokenKind::Comment,
            r.data@ == data@,
            r.tag_name@ == Seq::<char>::empty(),
            r.attrs() == Seq::<(Seq<char>, Seq<char>)>::empty(),
            !r.is_self_closing && !r.is_last_token && !r.needs_rawtext,
    {
        HTMLToken::bare(TokenKind::Comment, chars_to_string(data), String::new(), new_map())
    }

    /// A DOCTYPE token with the given payload.
    pub fn new_doctype(data: &Vec<char>) -> (r: HTMLToken)
        ensures
            r.kind == TokenKind::Doctype,
            r.data@ == data@,
            r.tag_name@ == Seq::<char>::empty(),
            r.attrs() == Seq::<(Seq<char>, Seq<char>)>::empty(),
            !r.is_self_closing && !r.is_last_token && !r.needs_rawtext,
    {
        HTMLToken::bare(TokenKind::Doctype, chars_to_string(data), String::new(), new_map())
    }

    /// An EndTag token; the name is lowercased.
    pub fn new_end_tag(tag_name: &Vec<char>) -> (r: HTMLToken)
        ensures
            r.kind == TokenKind::EndTag,
            r.data@ == Seq::<char>::empty(),
            r.tag_name@ == lower(tag_name@),
            r.attrs() == Seq::<(Seq<char>, Seq<char>)>::empty(),
            !r.is_self_closing && !r.is_last_token && !r.needs_rawtext,
    {
        let name = lower_range(tag_name, 0, tag_name.len());
        assert(tag_name@.subrange(0, tag_name@.len() as int) =~= tag_name@);
        HTMLToken::bare(TokenKind::EndTag, String::new(), chars_to_string(&name), new_map())
    }

    /// A StartTag token; the name is lowercased.
    pub fn new_start_tag(tag_name: &Vec<char>, attributes_map: IndexMap<String, String>, is_self_closing: bool, needs_rawtext: bool) -> (r: HTMLToken)
        ensures
            r.kind == TokenKind::StartTag,
            r.data@ == Seq::<char>::empty(),
            r.tag_name@ == lower(tag_name@),
            r.attrs() == attribute_entries(attributes_map),
            r.is_self_closing == is_self_closing,
            r.needs_rawtext == needs_rawtext,
            !r.is_last_token,
    {
        let name = lower_range(tag_name, 0, tag_name.len());
        assert(tag_name@.subrange(0, tag_name@.len() as int) =~= tag_name@);
        let mut r = HTMLToken::bare(TokenKind::StartTag, String::new(), chars_to_string(&name), attributes_map);
        r.is_self_closing = is_self_closing;
        r.needs_rawtext = needs_rawtext;
        r
    }

    /// A token built from its parts: the name is lowercased and, of
    /// attributes that share a name, the first is kept.
    pub fn new(
        kind: TokenKind,
        data: Option<String>,
        tag_name: Option<String>,
        attributes: Option<Vec<(String, String)>>,
        is_self_closing: Option<bool>,
        is_last_token: Option<bool>,
        needs_rawtext: Option<bool>,
    ) -> (r: HTMLToken)
        ensures
            r.kind == kind,
            r.data@ == (match data {
                Some(d) => d@,
                None => Seq::<char>::empty(),
            }),
            r.tag_name@ == (match tag_name {
                Some(t) => lower(t@),
                None => Seq::<char>::empty(),
            }),
            r.attrs() == (match attributes {
                Some(a) => first_wins_of(a@),
                None => Seq::<(Seq<char>, Seq<char>)>::empty(),
            }),
            r.is_self_closing == (is_self_closing == Some(true)),
            r.is_last_token == (is_last_token == Some(true)),
            r.needs_rawtext == (needs_rawtext == Some(true)),
            !r.ignored_end_tag,
    {
        let data = match data {
            Some(d) => d,
            None => String::new(),
        };
        let name = match tag_name {
            Some(t) => {
                let cs = str_to_chars(t.as_str());
                let l = lower_range(&cs, 0, cs.len());
                assert(cs@.subrange(0, cs@.len() as int) =~= cs@);
                chars_to_string(&l)
            },
            None => String::new(),
        };
        let map = match attributes {
            Some(a) => map_of_pairs(&a),
            None => new_map(),
        };
        let mut r = HTMLToken::bare(kind, data, name, map);
        r.is_self_closing = is_self_closing == Some(true);
        r.is_last_token = is_last_token == Some(true);
        r.needs_rawtext = needs_rawtext == Some(true);
        r
    }

    /// The attributes, in order.
    pub fn attributes(&self) -> (r: Vec<(String, String)>)
        ensures
            r@.len() == self.attrs().len(),
            forall|i: int| 0 <= i < r@.len() ==> (#[trigger] r@[i]).0@ == self.attrs()[i].0 && r@[i].1@ == self.attrs()[i].1,
    {
        let n = map_len(&self.attributes_map);
        let mut out: Vec<(String, String)> = Vec::new();
        let mut i: usize = 0;
        while i < n
            invariant
                i <= n == self.attrs().len(),
                out@.len() == i,
                forall|k: int| 0 <= k < i ==> (#[trigger] out@[k]).0@ == self.attrs()[k].0 && out@[k].1@ == self.attrs()[k].1,
            decreases n - i,
        {
            out.push(map_entry(&self.attributes_map, i));
            i = i + 1;
        }
        out
    }

    /// Replaces the attributes; of pairs that share a name, the first is kept.
    pub fn set_attributes(&mut self, pairs: Vec<(String, String)>)
        ensures
            final(self).attrs() == first_wins_of(pairs@),
            final(self).kind == old(self).kind,
            final(self).data == old(self).data,
            final(self).tag_name == old(self).tag_name,
            final(self).is_self_closing == old(self).is_self_closing,
            final(self).is_last_token == old(self).is_last_token,
            final(self).needs_rawtext == old(self).needs_rawtext,
            final(self).ignored_end_tag == old(self).ignored_end_tag,
    {
        self.attributes_map = map_of_pairs(&pairs);
    }

    /// The name of the token's kind.
    pub fn get_type(&self) -> (r: String)
        ensures
            r@ == kind_name(self.kind),
    {
        let name = match self.kind {
            TokenKind::Character => "Character",
            TokenKind::StartTag => "StartTag",
            TokenKind::EndTag => "EndTag",
            TokenKind::Comment => "Comment",
            TokenKind::Doctype => "DOCTYPE",
        };
        String::from_str(name)
    }
}

pub open spec fn kind_name(k: TokenKind) -> Seq<char> {
    match k {
        TokenKind::Character => "Character"@,
        TokenKind::StartTag => "StartTag"@,
        TokenKind::EndTag => "EndTag"@,
        TokenKind::Comment => "Comment"@,
        TokenKind::Doctype => "DOCTYPE"@,
    }
}

/// The views of `ps`, the first of each name kept.
pub open spec fn first_wins_of(ps: Seq<(String, String)>) -> Seq<(Seq<char>, Seq<char>)> {
    crate::attributes::first_wins(ps.map_values(|p: (String, String)| (p.0@, p.1@)))
}

/// A map of `pairs`, in order, the first of each name kept.
fn map_of_pairs(pairs: &Vec<(String, String)>) -> (r: IndexMap<String, String>)
    ensures
        attribute_entries(r) == first_wins_of(pairs@),
{
    let ghost ps = pairs@.map_values(|p: (String, String)| (p.0@, p.1@));
    let mut m = new_map();
    let mut i: usize = 0;
    assert(ps.subrange(0, ps.len() as int) =~= ps);
    while i < pairs.len()
        invariant
            i <= pairs@.len() == ps.len(),
            ps == pairs@.map_values(|p: (String, String)| (p.0@, p.1@)),
            crate::attributes::keep_first(attribute_entries(m), ps.subrange(i as int, ps.len() as int)) == crate::attributes::first_wins(ps),
        decreases pairs@.len() - i,
    {
        let k = str_to_chars(pairs[i].0.as_str());
        let v = str_to_chars(pairs[i].1.as_str());
        assert(ps.subrange(i as int, ps.len() as int) =~= seq![ps[i as int]] + ps.subrange(i + 1, ps.len() as int));
        proof {
            crate::attributes::lemma_keep_first_step(attribute_entries(m), ps[i as int], ps.subrange(i + 1, ps.len() as int));
        }
        add_first(&mut m, &k, &v);
        i = i + 1;
    }
    assert(ps.subrange(ps.len() as int, ps.len() as int) =~= Seq::<(Seq<char>, Seq<char>)>::empty());
    m
}

/// The queue of tokens that are ready to be handed out, first in first out.
pub enum PendingBuffer {
    Deque(VecDeque<HTMLToken>),
    Legacy(Vec<HTMLToken>),
}

impl View for PendingBuffer {
    type V = Seq<HTMLToken>;

    open spec fn view(&self) -> Seq<HTMLToken> {
        match self {
            PendingBuffer::Deque(q) => q@,
            PendingBuffer::Legacy(q) => q@,
        }
    }
}

impl PendingBuffer {
    /// An empty queue, held in a `Vec` where `use_legacy` is set.
    pub fn new(use_legacy: bool) -> (r: PendingBuffer)
        ensures
            r@ == Seq::<HTMLToken>::empty(),
    {
        if use_legacy {
            PendingBuffer::Legacy(Vec::new())
        } else {
            PendingBuffer::Deque(VecDeque::new())
        }
    }

    pub fn enqueue(&mut self, token: HTMLToken)
        ensures
            final(self)@ == old(self)@.push(token),
    {
        match self {
            PendingBuffer::Deque(queue) => queue.push_back(token),
            PendingBuffer::Legacy(queue) => queue.push(token),
        }
    }

    pub fn pop_front(&mut self) -> (r: Option<HTMLToken>)
        ensures
            old(self)@.len() == 0 ==> r is None && final(self)@ == old(self)@,
            old(self)@.len() > 0 ==> r == Some(old(self)@[0]) && final(self)@ == old(self)@.drop_first(),
    {
        match self {
            PendingBuffer::Deque(queue) => queue.pop_front(),
            PendingBuffer::Legacy(queue) => {
                if queue.len() == 0 {
                    None
                } else {
                    Some(queue.remove(0))
                }
            },
        }
    }

    pub fn is_empty(&self) -> (r: bool)
        ensures
            r == (self@.len() == 0),
    {
        match self {
            PendingBuffer::Deque(queue) => queue.len() == 0,
            PendingBuffer::Legacy(queue) => queue.len() == 0,
        }
    }
}

} // verus!
