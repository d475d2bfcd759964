use rust_tokenizer::{HTMLToken, RustTokenizer, TokenKind};

fn tokens(html: &str) -> Vec<HTMLToken> {
    let mut t = RustTokenizer::new(html, false);
    let mut out = Vec::new();
    while let Some(tok) = t.next_token() {
        out.push(tok);
    }
    out
}

fn attrs(tok: &HTMLToken) -> Vec<(String, String)> {
    tok.attributes()
}

fn pairs(items: &[(&str, &str)]) -> Vec<(String, String)> {
    items.iter().map(|(k, v)| (k.to_string(), v.to_string())).collect()
}

#[test]
fn well_formed_tag_round_trip() {
    let toks = tokens("<x a=\"1\" b=\"2\">");
    assert_eq!(toks.len(), 1);
    assert_eq!(toks[0].kind, TokenKind::StartTag);
    assert_eq!(toks[0].tag_name, "x");
    assert_eq!(attrs(&toks[0]), pairs(&[("a", "1"), ("b", "2")]));
    assert!(!toks[0].is_self_closing);
    assert!(toks[0].is_last_token);
}

#[test]
fn text_and_void_tag() {
    let toks = tokens("hello<br>world");
    assert_eq!(toks.len(), 3);
    assert_eq!(toks[0].kind, TokenKind::Character);
    assert_eq!(toks[0].data, "hello");
    assert!(!toks[0].is_last_token);
    assert_eq!(toks[1].kind, TokenKind::StartTag);
    assert_eq!(toks[1].tag_name, "br");
    assert!(toks[1].attributes().is_empty());
    assert!(!toks[1].is_self_closing);
    assert!(!toks[1].is_last_token);
    assert_eq!(toks[2].kind, TokenKind::Character);
    assert_eq!(toks[2].data, "world");
    assert!(toks[2].is_last_token);
}

#[test]
fn doctype() {
    let toks = tokens("<!DOCTYPE html>");
    assert_eq!(toks.len(), 1);
    assert_eq!(toks[0].kind, TokenKind::Doctype);
    assert_eq!(toks[0].data, "html");
    assert!(toks[0].is_last_token);
}

#[test]
fn entities_in_text() {
    let toks = tokens("a&amp;b&#65;c");
    assert_eq!(toks.len(), 1);
    assert_eq!(toks[0].kind, TokenKind::Character);
    assert_eq!(toks[0].data, "a&bAc");
    assert!(toks[0].is_last_token);
}

#[test]
fn escaped_script_comment_suppresses_first_end_tag() {
    let toks = tokens("<script><!--<script>x</script>y</script>");
    assert_eq!(toks[0].kind, TokenKind::StartTag);
    assert_eq!(toks[0].tag_name, "script");
    let text: String = toks[1..toks.len() - 1]
        .iter()
        .map(|t| {
            assert_eq!(t.kind, TokenKind::Character);
            t.data.clone()
        })
        .collect();
    assert_eq!(text, "<!--<script>x</script>y");
    let last = toks.last().unwrap();
    assert_eq!(last.kind, TokenKind::EndTag);
    assert_eq!(last.tag_name, "script");
    assert!(last.is_last_token);
    assert!(toks[..toks.len() - 1].iter().all(|t| !t.is_last_token));
}

#[test]
fn duplicate_attributes_first_wins() {
    let toks = tokens("<p a=1 a=2 A=3>");
    assert_eq!(toks.len(), 1);
    assert_eq!(toks[0].kind, TokenKind::StartTag);
    assert_eq!(toks[0].tag_name, "p");
    assert_eq!(attrs(&toks[0]), pairs(&[("a", "1")]));
    assert!(toks[0].is_last_token);
}

#[test]
fn empty_comments() {
    for input in ["<!-->", "<!--->"] {
        let toks = tokens(input);
        assert_eq!(toks.len(), 1);
        assert_eq!(toks[0].kind, TokenKind::Comment);
        assert_eq!(toks[0].data, "");
        assert!(toks[0].is_last_token);
    }
}

#[test]
fn processing_instruction_is_bogus_comment() {
    let toks = tokens("<?xml?>");
    assert_eq!(toks.len(), 1);
    assert_eq!(toks[0].kind, TokenKind::Comment);
    assert_eq!(toks[0].data, "?xml?");
    assert!(toks[0].is_last_token);
}

#[test]
fn eof_inside_quoted_value_suppresses_tag() {
    let toks = tokens("<svg xmlns='http://x");
    assert_eq!(toks.len(), 1);
    assert_eq!(toks[0].kind, TokenKind::Character);
    assert_eq!(toks[0].data, "");
    assert!(toks[0].is_last_token);
}

#[test]
fn eof_after_closed_quote_keeps_attribute_text() {
    let toks = tokens("<svg xmlns='http://x'");
    assert_eq!(toks.len(), 1);
    assert_eq!(toks[0].kind, TokenKind::Character);
    assert_eq!(toks[0].data, "xmlns='http://x'");
    assert!(toks[0].is_last_token);
}
