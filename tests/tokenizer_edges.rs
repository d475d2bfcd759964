use rust_tokenizer::{HTMLToken, PendingBuffer, RustTokenizer, TokenKind};

fn tokens(html: &str) -> Vec<HTMLToken> {
    let mut t = RustTokenizer::new(html, false);
    let mut out = Vec::new();
    while let Some(tok) = t.next_token() {
        out.push(tok);
    }
    out
}

fn summary(toks: &[HTMLToken]) -> Vec<(TokenKind, String)> {
    toks.iter()
        .map(|t| {
            let s = match t.kind {
                TokenKind::StartTag | TokenKind::EndTag => t.tag_name.clone(),
                _ => t.data.clone(),
            };
            (t.kind, s)
        })
        .collect()
}

fn pairs(items: &[(&str, &str)]) -> Vec<(String, String)> {
    items.iter().map(|(k, v)| (k.to_string(), v.to_string())).collect()
}

fn only_last_marked(toks: &[HTMLToken]) {
    let n = toks.len();
    for (i, t) in toks.iter().enumerate() {
        assert_eq!(t.is_last_token, i + 1 == n);
    }
}

#[test]
fn empty_input_yields_nothing() {
    let mut t = RustTokenizer::new("", false);
    assert!(t.next_token().is_none());
    assert!(t.next_token().is_none());
}

#[test]
fn stream_ends_after_last_token() {
    let mut t = RustTokenizer::new("a<b>c</b>", false);
    let mut n = 0;
    while let Some(tok) = t.next_token() {
        n += 1;
        if tok.is_last_token {
            assert!(t.next_token().is_none());
            break;
        }
    }
    assert_eq!(n, 4);
}

#[test]
fn text_without_markup_is_one_token() {
    let toks = tokens("x &lt; y &#x41;\u{0}z");
    assert_eq!(toks.len(), 1);
    assert_eq!(toks[0].kind, TokenKind::Character);
    assert_eq!(toks[0].data, "x < y A\u{FFFD}z");
    assert!(toks[0].is_last_token);
}

#[test]
fn invalid_controls_are_replaced_but_whitespace_kept() {
    let toks = tokens("a\u{1}\t\n\r\u{c}\u{1f}b");
    assert_eq!(toks[0].data, "a\u{FFFD}\t\n\r\u{c}\u{FFFD}b");
}

#[test]
fn numeric_references() {
    let toks = tokens("&#128;&#0;&#xD800;&#x110000;&#x1F600;&#65&#;&#x;");
    assert_eq!(toks[0].data, "\u{20AC}\u{FFFD}\u{FFFD}\u{FFFD}\u{1F600}A&#;&#x;");
}

#[test]
fn unknown_named_reference_is_kept() {
    let toks = tokens("&bogus; &amp");
    assert_eq!(toks[0].data, "&bogus; &");
}

#[test]
fn attribute_rule_on_references_without_semicolon() {
    let toks = tokens("<a href=\"?x=1&amp=2&ampy&amp;z&lt3\">&amp=&lt3</a>");
    assert_eq!(toks[0].attributes(), pairs(&[("href", "?x=1&amp=2&ampy&z&lt3")]));
    assert_eq!(toks[1].data, "&=<3");
}

#[test]
fn tag_names_are_lowercased() {
    let toks = tokens("<DiV CLASS=Top></DIV>");
    assert_eq!(summary(&toks), vec![(TokenKind::StartTag, "div".to_string()), (TokenKind::EndTag, "div".to_string())]);
    assert_eq!(toks[0].attributes(), pairs(&[("class", "Top")]));
}

#[test]
fn self_closing_marker() {
    assert!(tokens("<br />")[0].is_self_closing);
    assert!(tokens("<img src=x />")[0].is_self_closing);
    assert!(!tokens("<a href=x/>")[0].is_self_closing);
    assert_eq!(tokens("<a href=x/>")[0].attributes(), pairs(&[("href", "x/")]));
}

#[test]
fn slash_separated_attributes() {
    assert_eq!(tokens("<a //problem/6869687>")[0].attributes(), pairs(&[("6869687", ""), ("problem", "")]));
    assert_eq!(tokens("<a /x/y/z>")[0].attributes(), pairs(&[("x", ""), ("y", ""), ("z", "")]));
}

#[test]
fn boolean_and_quoted_attributes() {
    let toks = tokens("<input disabled value='a b' data-x = \"q\">");
    assert_eq!(toks[0].attributes(), pairs(&[("disabled", ""), ("value", "a b"), ("data-x", "q")]));
}

#[test]
fn lone_less_than_is_text() {
    let toks = tokens("1 <3 <");
    assert_eq!(summary(&toks), vec![
        (TokenKind::Character, "1 ".to_string()),
        (TokenKind::Character, "<".to_string()),
        (TokenKind::Character, "3 ".to_string()),
        (TokenKind::Character, "<".to_string()),
    ]);
    only_last_marked(&toks);
}

#[test]
fn doctype_is_case_insensitive_and_trimmed() {
    let toks = tokens("<!doctype  HTML >x");
    assert_eq!(summary(&toks), vec![(TokenKind::Doctype, "HTML".to_string()), (TokenKind::Character, "x".to_string())]);
    let toks = tokens("<!DOCTYPE html");
    assert_eq!(summary(&toks), vec![(TokenKind::Doctype, "html".to_string())]);
}

#[test]
fn comments_and_their_ends() {
    assert_eq!(summary(&tokens("<!-- a -->b")), vec![(TokenKind::Comment, " a ".to_string()), (TokenKind::Character, "b".to_string())]);
    assert_eq!(summary(&tokens("<!--x--!>")), vec![(TokenKind::Comment, "x".to_string())]);
    assert_eq!(summary(&tokens("<!--open--")), vec![(TokenKind::Comment, "open".to_string())]);
    assert_eq!(summary(&tokens("<!--a\u{0}-->")), vec![(TokenKind::Comment, "a\u{FFFD}".to_string())]);
}

#[test]
fn bogus_comments() {
    assert_eq!(summary(&tokens("</1>")), vec![(TokenKind::Comment, "1".to_string())]);
    assert_eq!(summary(&tokens("<!x>")), vec![(TokenKind::Comment, "x".to_string())]);
    assert_eq!(summary(&tokens("<?pi")), vec![(TokenKind::Comment, "?pi".to_string())]);
}

#[test]
fn cdata_sections() {
    assert_eq!(summary(&tokens("<![CDATA[x<y]]>z")), vec![(TokenKind::Comment, "[CDATA[x<y]]".to_string()), (TokenKind::Character, "z".to_string())]);
    assert_eq!(summary(&tokens("<![CDATA[x]]")), vec![(TokenKind::Comment, "[CDATA[x]] ".to_string())]);
    assert_eq!(summary(&tokens("<![CDATA[x")), vec![(TokenKind::Comment, "[CDATA[x".to_string())]);
}

#[test]
fn unterminated_tags_at_end_of_input() {
    assert_eq!(summary(&tokens("<div class=x")), vec![(TokenKind::Character, "class=x".to_string())]);
    assert_eq!(summary(&tokens("<div")), vec![(TokenKind::Character, "".to_string())]);
    assert_eq!(summary(&tokens("</div")), vec![(TokenKind::EndTag, "div".to_string())]);
}

#[test]
fn quoted_greater_than_with_unbalanced_count() {
    let toks = tokens("<a title='x>y'>z");
    assert_eq!(toks[0].kind, TokenKind::StartTag);
    assert_eq!(toks[0].attributes(), pairs(&[("title", "x>y")]));
    assert_eq!(summary(&toks[1..]), vec![(TokenKind::Character, "z".to_string())]);
}

#[test]
fn rcdata_decodes_and_rawtext_does_not() {
    let toks = tokens("<title>a&amp;<b></title>x");
    assert_eq!(summary(&toks), vec![
        (TokenKind::StartTag, "title".to_string()),
        (TokenKind::Character, "a&<b>".to_string()),
        (TokenKind::EndTag, "title".to_string()),
        (TokenKind::Character, "x".to_string()),
    ]);
    let toks = tokens("<style>a&amp;</b></style>");
    assert_eq!(summary(&toks), vec![
        (TokenKind::StartTag, "style".to_string()),
        (TokenKind::Character, "a&amp;".to_string()),
        (TokenKind::Character, "</b>".to_string()),
        (TokenKind::EndTag, "style".to_string()),
    ]);
    only_last_marked(&toks);
}

#[test]
fn rawtext_end_tag_allows_space_and_slash() {
    let toks = tokens("<xmp>a</XMP / >");
    assert_eq!(summary(&toks), vec![
        (TokenKind::StartTag, "xmp".to_string()),
        (TokenKind::Character, "a".to_string()),
        (TokenKind::EndTag, "xmp".to_string()),
    ]);
}

#[test]
fn only_textarea_asks_for_rawtext() {
    assert!(tokens("<textarea>")[0].needs_rawtext);
    assert!(!tokens("<title>")[0].needs_rawtext);
    assert!(!tokens("<script>")[0].needs_rawtext);
    assert!(!tokens("<div>")[0].needs_rawtext);
}

#[test]
fn script_end_tag_and_text() {
    let toks = tokens("<script>if (a<b) x();</script >y");
    assert_eq!(summary(&toks), vec![
        (TokenKind::StartTag, "script".to_string()),
        (TokenKind::Character, "if (a<b) x();".to_string()),
        (TokenKind::EndTag, "script".to_string()),
        (TokenKind::Character, "y".to_string()),
    ]);
}

#[test]
fn script_end_tag_followed_by_other_character_is_text() {
    let toks = tokens("<script>a</scriptx>b");
    assert_eq!(summary(&toks), vec![
        (TokenKind::StartTag, "script".to_string()),
        (TokenKind::Character, "a".to_string()),
        (TokenKind::Character, "</scriptx>b".to_string()),
    ]);
}

#[test]
fn partial_script_end_tag_at_end_of_input() {
    let toks = tokens("<script>a</script ");
    assert_eq!(summary(&toks), vec![
        (TokenKind::StartTag, "script".to_string()),
        (TokenKind::Character, "a".to_string()),
        (TokenKind::EndTag, "script".to_string()),
    ]);
}

#[test]
fn plaintext_takes_the_rest() {
    let mut t = RustTokenizer::new("<plaintext>a<b>&amp;\u{0}", false);
    let first = t.next_token().unwrap();
    assert_eq!(first.tag_name, "plaintext");
    t.start_plaintext();
    assert_eq!(t.state(), "PLAINTEXT");
    let rest = t.next_token().unwrap();
    assert_eq!(rest.kind, TokenKind::Character);
    assert_eq!(rest.data, "a<b>&amp;\u{FFFD}");
    assert!(rest.is_last_token);
    assert!(t.next_token().is_none());
}

#[test]
fn state_hooks() {
    let mut t = RustTokenizer::new("a</FOO>b", false);
    assert_eq!(t.state(), "DATA");
    assert_eq!(t.rawtext_tag(), None);
    t.start_rawtext("FOO");
    assert_eq!(t.state(), "RAWTEXT");
    assert_eq!(t.rawtext_tag(), Some("foo".to_string()));
    let toks: Vec<_> = std::iter::from_fn(|| t.next_token()).collect();
    assert_eq!(summary(&toks), vec![
        (TokenKind::Character, "a".to_string()),
        (TokenKind::EndTag, "foo".to_string()),
        (TokenKind::Character, "b".to_string()),
    ]);
    t.set_state("RAWTEXT");
    assert_eq!(t.state(), "RAWTEXT");
    t.set_state("nonsense");
    assert_eq!(t.state(), "DATA");
    t.set_rawtext_tag(Some("Title".to_string()));
    assert_eq!(t.rawtext_tag(), Some("Title".to_string()));
    t.set_rawtext_tag(None);
    assert_eq!(t.rawtext_tag(), None);
}

#[test]
fn current_char_and_debug_flag() {
    let mut t = RustTokenizer::new("é<", true);
    assert!(t.debug());
    assert_eq!(t.current_char(), Some('é'));
    t.next_token();
    assert_eq!(t.current_char(), Some('<'));
    t.next_token();
    assert_eq!(t.current_char(), None);
}

#[test]
fn legacy_pending_buffer_behaves_the_same() {
    let mut t = RustTokenizer::with_pending_buffer("<b>x</b>", false, true);
    let toks: Vec<_> = std::iter::from_fn(|| t.next_token()).collect();
    assert_eq!(summary(&toks), vec![
        (TokenKind::StartTag, "b".to_string()),
        (TokenKind::Character, "x".to_string()),
        (TokenKind::EndTag, "b".to_string()),
    ]);
}

#[test]
fn pending_buffer_is_first_in_first_out() {
    for legacy in [false, true] {
        let mut q = PendingBuffer::new(legacy);
        assert!(q.is_empty());
        q.enqueue(HTMLToken::new(TokenKind::Character, Some("1".to_string()), None, None, None, None, None));
        q.enqueue(HTMLToken::new(TokenKind::EndTag, None, Some("P".to_string()), None, None, None, None));
        assert_eq!(q.pop_front().unwrap().data, "1");
        assert_eq!(q.pop_front().unwrap().tag_name, "p");
        assert!(q.pop_front().is_none());
        assert!(q.is_empty());
    }
}

#[test]
fn token_constructor_and_attribute_setter() {
    let mut tok = HTMLToken::new(
        TokenKind::StartTag,
        None,
        Some("SPAN".to_string()),
        Some(pairs(&[("a", "1"), ("b", "2"), ("a", "3")])),
        Some(true),
        None,
        Some(false),
    );
    assert_eq!(tok.tag_name, "span");
    assert!(tok.is_self_closing);
    assert!(!tok.is_last_token);
    assert_eq!(tok.attributes(), pairs(&[("a", "1"), ("b", "2")]));
    assert_eq!(tok.get_type(), "StartTag");
    tok.set_attributes(pairs(&[("z", "9"), ("y", "8"), ("z", "7")]));
    assert_eq!(tok.attributes(), pairs(&[("z", "9"), ("y", "8")]));
    let d = HTMLToken::new(TokenKind::Doctype, Some("html".to_string()), None, None, None, Some(true), None);
    assert_eq!(d.get_type(), "DOCTYPE");
    assert!(d.is_last_token);
}

#[test]
fn decode_methods_differ_only_on_the_attribute_rule() {
    let t = RustTokenizer::new("", false);
    let text: Vec<char> = "&notit; &amp=1 &copy2".chars().collect();
    let as_text: String = t.decode_entities(&text).into_iter().collect();
    let as_attr: String = t.decode_entities_in_attribute(&text).into_iter().collect();
    assert_eq!(as_text, "\u{AC}it; &=1 \u{A9}2");
    assert_eq!(as_attr, "&notit; &amp=1 &copy2");
}

#[test]
fn unterminated_tag_text_is_filtered() {
    let toks = tokens("<a b\u{1}");
    assert_eq!(summary(&toks), vec![(TokenKind::Character, "b\u{FFFD}".to_string())]);
}

#[test]
fn end_of_input_inside_quote_opened_before_first_gt() {
    let toks = tokens("<svg title='a>b");
    assert_eq!(summary(&toks), vec![(TokenKind::Character, "".to_string())]);
    assert!(toks[0].is_last_token);
}

#[test]
fn gt_inside_open_double_quote_does_not_end_tag() {
    let toks = tokens("<a title=\"x>y\">");
    assert_eq!(toks.len(), 1);
    assert_eq!(toks[0].kind, TokenKind::StartTag);
    assert_eq!(toks[0].attributes(), pairs(&[("title", "x>y")]));
}

#[test]
fn unicode_whitespace_is_trimmed() {
    let toks = tokens("<!DOCTYPE html\u{A0}>");
    assert_eq!(summary(&toks), vec![(TokenKind::Doctype, "html".to_string())]);
    let toks = tokens("<p a=1\u{A0}>");
    assert_eq!(toks[0].attributes(), pairs(&[("a", "1")]));
}

#[test]
fn escaped_script_end_tag_deferred_while_another_follows() {
    let toks = tokens("<script><!--<script>x</script>y</script><script>a</script>");
    let texts: String = toks[1..toks.len() - 1].iter().map(|t| {
        assert_eq!(t.kind, TokenKind::Character);
        t.data.clone()
    }).collect();
    assert_eq!(texts, "<!--<script>x</script>y</script><script>a");
    assert_eq!(summary(&toks[toks.len() - 1..]), vec![(TokenKind::EndTag, "script".to_string())]);
}

#[test]
fn script_after_script_starts_fresh() {
    let toks = tokens("<script>a</script><script>b</script>");
    assert_eq!(summary(&toks), vec![
        (TokenKind::StartTag, "script".to_string()),
        (TokenKind::Character, "a".to_string()),
        (TokenKind::EndTag, "script".to_string()),
        (TokenKind::StartTag, "script".to_string()),
        (TokenKind::Character, "b".to_string()),
        (TokenKind::EndTag, "script".to_string()),
    ]);
}

#[test]
fn non_tag_tokens_have_no_tag_fields() {
    for t in tokens("x<!--c--><!DOCTYPE html>") {
        assert_eq!(t.tag_name, "");
        assert!(t.attributes().is_empty());
        assert!(!t.is_self_closing);
    }
}
