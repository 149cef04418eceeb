use html_scan::eager::Halt;
use html_scan::tag_name::{tag_name_hash, A, B, DIV, SCRIPT, SVG};
use html_scan::tokenizer::{OwnedTagPreview, Tokenizer};
use html_scan::tree_builder_simulator::{LexUnitRequest, Namespace, TagFacts};

fn scan(chunks: &[&[u8]]) -> (Vec<OwnedTagPreview>, Result<(), Halt>) {
    let mut t = Tokenizer::new();
    let mut out = Vec::new();
    for c in chunks {
        if let Err(h) = t.write(c, &mut out) {
            return (out, Err(h));
        }
    }
    let r = t.end();
    (out, r)
}

const OPEN: TagFacts = TagFacts { self_closing: false, font_breaks_out: false };

/// Scans, answering every request for full tokenization with `facts`.
fn scan_resuming(
    chunks: &[&[u8]],
    facts: impl Fn(LexUnitRequest) -> TagFacts,
) -> (Vec<OwnedTagPreview>, Result<(), Halt>, Vec<LexUnitRequest>) {
    let mut t = Tokenizer::new();
    let mut out = Vec::new();
    let mut requests = Vec::new();
    for c in chunks {
        let mut r = t.write(c, &mut out);
        while let Err(Halt::LexUnitRequired(req)) = r {
            requests.push(req);
            r = t.resume(facts(req), &mut out);
        }
        if let Err(h) = r {
            return (out, Err(h), requests);
        }
    }
    let r = t.end();
    (out, r, requests)
}

fn summary(ps: &[OwnedTagPreview]) -> Vec<(bool, String)> {
    ps.iter()
        .map(|p| (p.is_end_tag, String::from_utf8(p.name.clone()).unwrap()))
        .collect()
}

#[test]
fn chunked_script_matches_whole_document() {
    let whole = scan(&[b"<script>hi</script>"]);
    let split = scan(&[b"<scr", b"ipt>hi</scr", b"ipt>"]);
    assert_eq!(whole, split);
    assert_eq!(
        summary(&split.0),
        vec![(false, "script".to_string()), (true, "script".to_string())]
    );
    assert_eq!(split.0[0].name_hash, Some(SCRIPT));
    assert_eq!(split.1, Ok(()));
}

#[test]
fn every_split_point_gives_the_same_previews() {
    let doc: &[u8] = b"<div class='x>y'><!-- <b> --><a href=\"q\">t</a><script>if (a<b) {}</script><b>";
    let whole = scan(&[doc]);
    for i in 0..=doc.len() {
        for j in i..=doc.len() {
            let parts = scan(&[&doc[..i], &doc[i..j], &doc[j..]]);
            assert_eq!(parts, whole, "split at {} and {}", i, j);
        }
    }
    assert_eq!(
        summary(&whole.0),
        vec![
            (false, "div".to_string()),
            (false, "a".to_string()),
            (true, "a".to_string()),
            (false, "script".to_string()),
            (true, "script".to_string()),
            (false, "b".to_string()),
        ]
    );
}

#[test]
fn byte_at_a_time_feeding() {
    let doc: &[u8] = b"<p>one</p><title>x<i></title><i>";
    let bytes: Vec<&[u8]> = doc.chunks(1).collect();
    assert_eq!(scan(&bytes), scan(&[doc]));
    assert_eq!(
        summary(&scan(&bytes).0),
        vec![
            (false, "p".to_string()),
            (true, "p".to_string()),
            (false, "title".to_string()),
            (true, "title".to_string()),
            (false, "i".to_string()),
        ]
    );
}

#[test]
fn open_tag_bytes_are_blocked_and_not_repeated() {
    let mut t = Tokenizer::new();
    let mut out = Vec::new();
    assert_eq!(t.write(b"text<di", &mut out), Ok(()));
    assert!(out.is_empty());
    assert_eq!(t.write(b"v id=1>", &mut out), Ok(()));
    assert_eq!(summary(&out), vec![(false, "div".to_string())]);
    assert_eq!(out[0].name_hash, Some(DIV));
    assert_eq!(t.write(b"</div>", &mut out), Ok(()));
    assert_eq!(summary(&out), vec![(false, "div".to_string()), (true, "div".to_string())]);
}

#[test]
fn end_tag_flag_is_reset() {
    let (ps, r) = scan(&[b"<a></a>"]);
    assert_eq!(r, Ok(()));
    assert_eq!(summary(&ps), vec![(false, "a".to_string()), (true, "a".to_string())]);
    assert_eq!(ps[0].name_hash, Some(A));
    let (ps, _) = scan(&[b"</x><a></a>"]);
    assert_eq!(
        summary(&ps),
        vec![(true, "x".to_string()), (false, "a".to_string()), (true, "a".to_string())]
    );
}

#[test]
fn raw_text_hides_markup() {
    let (ps, r) = scan(&[b"<script>a<b>c</script>d<b>"]);
    assert_eq!(r, Ok(()));
    assert_eq!(
        summary(&ps),
        vec![(false, "script".to_string()), (true, "script".to_string()), (false, "b".to_string())]
    );
    assert_eq!(ps[2].name_hash, Some(B));
}

#[test]
fn raw_text_ends_only_at_its_own_end_tag() {
    let (ps, _) = scan(&[b"<style></div></styles></style><i>"]);
    assert_eq!(
        summary(&ps),
        vec![(false, "style".to_string()), (true, "style".to_string()), (false, "i".to_string())]
    );
}

#[test]
fn plaintext_never_ends() {
    let (ps, _) = scan(&[b"<plaintext></plaintext><b>"]);
    assert_eq!(summary(&ps), vec![(false, "plaintext".to_string())]);
}

#[test]
fn truncated_tag_at_end_of_input() {
    let (ps, r) = scan(&[b"<di"]);
    assert!(ps.is_empty());
    assert_eq!(r, Ok(()));
}

#[test]
fn comments_and_bogus_comments_hide_tags() {
    let (ps, _) = scan(&[b"<!-- <b> --><!--><i><?x <u>><!DOCTYPE html><em>"]);
    assert_eq!(
        summary(&ps),
        vec![(false, "i".to_string()), (false, "em".to_string())]
    );
}

#[test]
fn quoted_attribute_values_hide_angle_brackets() {
    let (ps, _) = scan(&[b"<a title=\">\" alt='<b>'><b>"]);
    assert_eq!(summary(&ps), vec![(false, "a".to_string()), (false, "b".to_string())]);
}

#[test]
fn cdata_only_in_foreign_content() {
    let (ps, r, reqs) = scan_resuming(&[b"<svg><![CDATA[<b>]]></svg><i>"], |_| OPEN);
    assert_eq!(r, Ok(()));
    assert_eq!(reqs, vec![LexUnitRequest::ForeignContentEnter(Namespace::Svg)]);
    assert_eq!(
        summary(&ps),
        vec![(false, "svg".to_string()), (true, "svg".to_string()), (false, "i".to_string())]
    );
    assert_eq!(ps[0].name_hash, Some(SVG));
    let (ps, _) = scan(&[b"<![CDATA[x]]><u>"]);
    assert_eq!(summary(&ps), vec![(false, "u".to_string())]);
}

#[test]
fn script_inside_svg_is_not_raw_text() {
    let (ps, r, _) = scan_resuming(&[b"<svg><script><b></b></script></svg>"], |_| OPEN);
    assert_eq!(r, Ok(()));
    assert_eq!(ps.len(), 6);
}

#[test]
fn self_closing_svg_opens_no_foreign_content() {
    let doc: &[u8] = b"<svg/><style>a<b>c</style>";
    let (ps, r, _) = scan_resuming(&[doc], |_| TagFacts { self_closing: true, font_breaks_out: false });
    assert_eq!(r, Ok(()));
    assert_eq!(
        summary(&ps),
        vec![(false, "svg".to_string()), (false, "style".to_string()), (true, "style".to_string())]
    );
    let (ps, _, _) = scan_resuming(&[doc], |_| OPEN);
    assert_eq!(ps.len(), 4);
}

#[test]
fn svg_asks_for_full_tokenization() {
    let (ps, r) = scan(&[b"<svg/><b>"]);
    assert_eq!(r, Err(Halt::LexUnitRequired(LexUnitRequest::ForeignContentEnter(Namespace::Svg))));
    assert_eq!(summary(&ps), vec![(false, "svg".to_string())]);
}

#[test]
fn escaped_script_data() {
    let (ps, r) = scan(&[b"<script><!--<script></script>x<b>--></script><i>"]);
    assert_eq!(r, Ok(()));
    assert_eq!(
        summary(&ps),
        vec![(false, "script".to_string()), (true, "script".to_string()), (false, "i".to_string())]
    );
    let (ps, _) = scan(&[b"<script><!--x</script><b>"]);
    assert_eq!(
        summary(&ps),
        vec![(false, "script".to_string()), (true, "script".to_string()), (false, "b".to_string())]
    );
    let (ps, _) = scan(&[b"<script><!-- <scripts> </script><u>"]);
    assert_eq!(ps.len(), 3);
}

#[test]
fn escaped_script_data_across_chunks() {
    let doc: &[u8] = b"<script><!--<script></script>x<b>--></script><i>";
    let whole = scan(&[doc]);
    for i in 0..=doc.len() {
        assert_eq!(scan(&[&doc[..i], &doc[i..]]), whole);
    }
}

#[test]
fn comment_end_forms() {
    let (ps, _) = scan(&[b"<!-- a --!><b><!--!><i>--><u><!---><s>"]);
    assert_eq!(
        summary(&ps),
        vec![(false, "b".to_string()), (false, "u".to_string()), (false, "s".to_string())]
    );
}

#[test]
fn unquoted_attribute_values() {
    let (ps, _) = scan(&[b"<a b=c=\"><x>\">"]);
    assert_eq!(summary(&ps), vec![(false, "a".to_string()), (false, "x".to_string())]);
    let (ps, _) = scan(&[b"<a b=c'd e=\"f>g\"><i>"]);
    assert_eq!(summary(&ps), vec![(false, "a".to_string()), (false, "i".to_string())]);
}

#[test]
fn ambiguous_text_switch_in_select_is_an_error() {
    let (ps, r) = scan(&[b"<select><style>"]);
    assert_eq!(summary(&ps), vec![(false, "select".to_string())]);
    match r {
        Err(Halt::Ambiguity(e)) => assert_eq!(Some(e.on_tag_name_hash), tag_name_hash(b"style")),
        other => panic!("unexpected {:?}", other),
    }
    let (_, r) = scan(&[b"<select><script></script></select><style>"]);
    assert_eq!(r, Ok(()));
    let (_, r) = scan(&[b"<frameset><noframes></noframes><xmp>"]);
    assert!(matches!(r, Err(Halt::Ambiguity(_))));
}

#[test]
fn halt_is_final() {
    let mut t = Tokenizer::new();
    let mut out = Vec::new();
    assert!(t.write(b"<select><title>", &mut out).is_err());
    let n = out.len();
    assert!(t.write(b"<b>", &mut out).is_err());
    assert!(t.resume(OPEN, &mut out).is_err());
    assert_eq!(out.len(), n);
    assert!(t.end().is_err());
}

#[test]
fn resume_without_request_changes_nothing() {
    let mut t = Tokenizer::new();
    let mut out = Vec::new();
    assert_eq!(t.write(b"<p>x", &mut out), Ok(()));
    assert_eq!(t.resume(OPEN, &mut out), Ok(()));
    assert_eq!(out.len(), 1);
}

#[test]
fn font_in_foreign_content_needs_full_tokenization() {
    let (ps, r, reqs) = scan_resuming(&[b"<math><font color=red><title>a<b></title>"], |req| match req {
        LexUnitRequest::FontInForeignContent => TagFacts { self_closing: false, font_breaks_out: true },
        _ => OPEN,
    });
    assert_eq!(r, Ok(()));
    assert_eq!(
        reqs,
        vec![LexUnitRequest::ForeignContentEnter(Namespace::MathML), LexUnitRequest::FontInForeignContent]
    );
    assert_eq!(
        summary(&ps),
        vec![
            (false, "math".to_string()),
            (false, "font".to_string()),
            (false, "title".to_string()),
            (true, "title".to_string()),
        ]
    );
}

#[test]
fn integration_point_needs_full_tokenization() {
    let (ps, r, reqs) = scan_resuming(&[b"<svg><foreignObject><style><b></style></foreignObject><i>"], |_| OPEN);
    assert_eq!(r, Ok(()));
    assert_eq!(
        reqs,
        vec![LexUnitRequest::ForeignContentEnter(Namespace::Svg), LexUnitRequest::IntegrationPointEnter]
    );
    assert_eq!(
        summary(&ps),
        vec![
            (false, "svg".to_string()),
            (false, "foreignObject".to_string()),
            (false, "style".to_string()),
            (true, "style".to_string()),
            (true, "foreignObject".to_string()),
            (false, "i".to_string()),
        ]
    );
}

#[test]
fn breakout_tag_leaves_foreign_content() {
    let (ps, r, _) = scan_resuming(&[b"<svg><p><title>x<b></title>"], |_| OPEN);
    assert_eq!(r, Ok(()));
    assert_eq!(
        summary(&ps),
        vec![
            (false, "svg".to_string()),
            (false, "p".to_string()),
            (false, "title".to_string()),
            (true, "title".to_string()),
        ]
    );
}
