use html_scan::ambiguity_guard::{AmbiguityGuard, GuardState, ParsingAmbiguityError};
use html_scan::base::{align, Cursor, Range};
use html_scan::eager::{
    Bookmark, EagerState, EagerStateMachine, FeedbackProviders, ParsingLoopTerminationReason,
    TagPreview,
};
use html_scan::rewriter::{HTMLRewriter, HandlerJsErrorWrap};
use html_scan::tag_name::{
    tag_name_hash, update_hash, DIV, MATH, NOFRAMES, SCRIPT, SELECT, STYLE, SVG, TEMPLATE, TEXTAREA,
    TITLE,
};
use html_scan::tree_builder_simulator::{
    LexUnitRequest, Namespace, TagFacts, TextParsingMode, TreeBuilderFeedback, TreeBuilderSimulator,
};

#[test]
fn tag_name_hash_values() {
    assert_eq!(tag_name_hash(b"a"), Some(6));
    assert_eq!(tag_name_hash(b"div"), Some(DIV));
    assert_eq!(tag_name_hash(b"DiV"), Some(DIV));
    assert_eq!(tag_name_hash(b"div"), Some((4 + 5) * 1024 + (9 + 5) * 32 + (22 + 5)));
    assert_eq!(tag_name_hash(b"h1"), Some((8 + 5) * 32 + 1));
    assert_eq!(tag_name_hash(b"h7"), None);
    assert_eq!(tag_name_hash(b"annotation-xml"), None);
    assert_eq!(tag_name_hash(b""), Some(0));
    assert_eq!(tag_name_hash(b"abcdefghijklm"), Some(7179065851787067954));
    assert_eq!(tag_name_hash(b"abcdefghijklmn"), None);
    assert_eq!(tag_name_hash(b"zzzzzzzzzzzz"), Some(1152921504606846975));
    assert_eq!(tag_name_hash(b"zzzzzzzzzzzzz"), None);
    assert_eq!(update_hash(None, b'a'), None);
    assert_eq!(update_hash(Some(0), b'Z'), Some(31));
}

#[test]
fn guard_decisions_are_repeatable() {
    let seq: Vec<(bool, &[u8])> = vec![
        (false, b"select"),
        (false, b"template"),
        (false, b"template"),
        (true, b"template"),
        (false, b"title"),
        (true, b"template"),
        (false, b"script"),
        (true, b"select"),
        (false, b"style"),
        (false, b"frameset"),
        (false, b"noframes"),
        (false, b"iframe"),
    ];
    let run = || {
        let mut g = AmbiguityGuard::new();
        let mut decisions = Vec::new();
        for (is_end, name) in &seq {
            let h = tag_name_hash(name);
            if *is_end {
                g.track_end_tag(h);
                decisions.push(true);
            } else {
                decisions.push(g.track_start_tag(h).is_ok());
            }
        }
        (decisions, g.state)
    };
    let first = run();
    assert_eq!(first, run());
    assert_eq!(
        first.0,
        vec![true, true, true, true, false, true, true, true, true, true, true, false]
    );
    assert_eq!(first.1, GuardState::InOrAfterFrameset);
}

#[test]
fn guard_template_depth() {
    let mut g = AmbiguityGuard::new();
    assert!(g.track_start_tag(Some(SELECT)).is_ok());
    assert!(g.track_start_tag(Some(TEMPLATE)).is_ok());
    assert!(g.track_start_tag(Some(TEMPLATE)).is_ok());
    assert_eq!(g.state, GuardState::InTemplateInSelect(2));
    g.track_end_tag(Some(TEMPLATE));
    g.track_end_tag(Some(TEMPLATE));
    assert_eq!(g.state, GuardState::InSelect);
    assert_eq!(
        g.track_start_tag(Some(TEXTAREA)),
        Ok(())
    );
    assert_eq!(g.state, GuardState::Default);
    assert!(g.track_start_tag(Some(NOFRAMES)).is_ok());
    let mut g = AmbiguityGuard { state: GuardState::InSelect };
    assert_eq!(
        g.track_start_tag(Some(TITLE)),
        Err(ParsingAmbiguityError { on_tag_name_hash: TITLE })
    );
    assert_eq!(g.state, GuardState::InSelect);
}

#[test]
fn simulator_mode_table() {
    let mut s = TreeBuilderSimulator::new();
    let sw = |m| TreeBuilderFeedback::SwitchTextParsingMode(m);
    assert_eq!(s.get_feedback_for_start_tag_name(Some(SCRIPT)), sw(TextParsingMode::ScriptData));
    assert_eq!(s.get_feedback_for_start_tag_name(Some(TITLE)), sw(TextParsingMode::RCData));
    assert_eq!(s.get_feedback_for_start_tag_name(tag_name_hash(b"textarea")), sw(TextParsingMode::RCData));
    assert_eq!(s.get_feedback_for_start_tag_name(Some(STYLE)), sw(TextParsingMode::RawText));
    assert_eq!(s.get_feedback_for_start_tag_name(tag_name_hash(b"noscript")), sw(TextParsingMode::RawText));
    assert_eq!(s.get_feedback_for_start_tag_name(tag_name_hash(b"plaintext")), sw(TextParsingMode::PlainText));
    assert_eq!(s.get_feedback_for_start_tag_name(Some(DIV)), TreeBuilderFeedback::NoAction);
    assert_eq!(s.get_feedback_for_start_tag_name(None), TreeBuilderFeedback::NoAction);
    assert_eq!(s.current_ns(), Namespace::Html);
}

#[test]
fn simulator_namespaces() {
    let mut s = TreeBuilderSimulator::new();
    let open = TagFacts { self_closing: false, font_breaks_out: false };
    assert_eq!(
        s.get_feedback_for_start_tag_name(Some(SVG)),
        TreeBuilderFeedback::RequestLexUnit(LexUnitRequest::ForeignContentEnter(Namespace::Svg))
    );
    assert_eq!(s.current_ns(), Namespace::Html);
    assert_eq!(
        s.apply_lex_unit(LexUnitRequest::ForeignContentEnter(Namespace::Svg), TagFacts { self_closing: true, font_breaks_out: false }),
        TreeBuilderFeedback::NoAction
    );
    assert_eq!(s.current_ns(), Namespace::Html);
    assert_eq!(s.apply_lex_unit(LexUnitRequest::ForeignContentEnter(Namespace::Svg), open), TreeBuilderFeedback::SetAllowCdata(true));
    assert_eq!(s.current_ns(), Namespace::Svg);
    assert_eq!(s.get_feedback_for_start_tag_name(Some(SCRIPT)), TreeBuilderFeedback::NoAction);
    assert_eq!(s.apply_lex_unit(LexUnitRequest::ForeignContentEnter(Namespace::MathML), open), TreeBuilderFeedback::SetAllowCdata(true));
    assert_eq!(s.current_ns(), Namespace::MathML);
    assert_eq!(
        s.get_feedback_for_start_tag_name(tag_name_hash(b"mi")),
        TreeBuilderFeedback::RequestLexUnit(LexUnitRequest::IntegrationPointEnter)
    );
    assert_eq!(s.apply_lex_unit(LexUnitRequest::IntegrationPointEnter, open), TreeBuilderFeedback::SetAllowCdata(false));
    assert_eq!(s.current_ns(), Namespace::Html);
    assert_eq!(
        s.get_feedback_for_start_tag_name(Some(SCRIPT)),
        TreeBuilderFeedback::SwitchTextParsingMode(TextParsingMode::ScriptData)
    );
    assert_eq!(s.get_feedback_for_end_tag_name(tag_name_hash(b"mi")), TreeBuilderFeedback::SetAllowCdata(true));
    assert_eq!(s.current_ns(), Namespace::MathML);
    assert_eq!(s.get_feedback_for_end_tag_name(Some(MATH)), TreeBuilderFeedback::SetAllowCdata(true));
    assert_eq!(s.get_feedback_for_end_tag_name(Some(MATH)), TreeBuilderFeedback::NoAction);
    assert_eq!(s.get_feedback_for_end_tag_name(Some(SVG)), TreeBuilderFeedback::SetAllowCdata(false));
    assert_eq!(s.current_ns(), Namespace::Html);
    assert_eq!(s.get_feedback_for_end_tag_name(Some(SVG)), TreeBuilderFeedback::NoAction);
}

#[test]
fn machine_run_and_rebase() {
    let mut m = EagerStateMachine::new(FeedbackProviders::new());
    let input: &[u8] = b"x<b>y</b><sp";
    let (ps, reason) = m.run(input);
    assert_eq!(ps.len(), 2);
    match ps[0] {
        TagPreview::StartTag(i) => {
            assert_eq!(i.name_range, Range { start: 2, end: 3 });
            assert_eq!(i.name_hash, tag_name_hash(b"b"));
        }
        _ => panic!("expected a start tag"),
    }
    assert!(ps[1].is_end_tag());
    assert_eq!(ps[1].name_range(), Range { start: 7, end: 8 });
    assert_eq!(reason, ParsingLoopTerminationReason::EndOfInput { blocked_byte_count: 3 });
    assert_eq!(m.get_blocked_byte_count(input.len()), 3);
    assert_eq!(m.get_state(), EagerState::TagName);
    m.adjust_for_next_input();
    let next: &[u8] = b"<span>";
    let (ps, reason) = m.run(next);
    assert_eq!(ps.len(), 1);
    assert_eq!(ps[0].name_range(), Range { start: 1, end: 5 });
    assert_eq!(ps[0].name_hash(), tag_name_hash(b"span"));
    assert_eq!(reason, ParsingLoopTerminationReason::EndOfInput { blocked_byte_count: 0 });
    m.store_last_text_parsing_mode_change(TextParsingMode::Data);
}

#[test]
fn machine_bookmark_on_lex_unit_request() {
    let mut m = EagerStateMachine::new(FeedbackProviders::new());
    let input: &[u8] = b"ab<svg>c<desc>";
    let (ps, reason) = m.run(input);
    assert_eq!(ps.len(), 1);
    assert_eq!(
        reason,
        ParsingLoopTerminationReason::LexUnitRequiredForAdjustment(Bookmark {
            pos: 2,
            request: LexUnitRequest::ForeignContentEnter(Namespace::Svg)
        })
    );
    assert!(m.is_halted().is_some());
    m.resume(TagFacts { self_closing: false, font_breaks_out: false });
    assert!(m.is_halted().is_none());
    let (ps, reason) = m.run(input);
    assert_eq!(ps.len(), 1);
    assert_eq!(
        reason,
        ParsingLoopTerminationReason::LexUnitRequiredForAdjustment(Bookmark {
            pos: 8,
            request: LexUnitRequest::IntegrationPointEnter
        })
    );
}

#[test]
fn base_primitives() {
    let mut v: usize = 10;
    align(&mut v, 4);
    assert_eq!(v, 6);
    align(&mut v, 9);
    assert_eq!(v, 0);
    assert_eq!(Cursor::new().pos(), 0);
}

#[test]
fn rewriter_registers_handlers() {
    let mut r: HTMLRewriter<u32> = HTMLRewriter::new();
    assert_eq!(r.element_handler_count(), 0);
    r.on("div.a", 1);
    r.on("p", 2);
    r.on_document(3);
    assert_eq!(r.element_handler_count(), 2);
    assert_eq!(r.document_handler_count(), 1);
    assert_eq!(r.selector(0), "div.a");
    assert_eq!(r.selector(1), "p");
    let e = HandlerJsErrorWrap::new("boom");
    assert_eq!(e.message(), "boom");
    assert_eq!(e.0, "boom".to_string());
}
