use vstd::prelude::*;
use crate::ambiguity_guard::is_tag;
use crate::tag_name::{
    DESC, FONT, FOREIGN_OBJECT, IFRAME, MATH, MI, MN, MO, MS, MTEXT, NOEMBED, NOFRAMES, NOSCRIPT,
    PLAINTEXT, SCRIPT, STYLE, SVG, TEXTAREA, TITLE, XMP,
};

verus! {

#[derive(Clone, Copy, Debug, PartialEq, Eq, Structural)]
pub enum Namespace {
    Html,
    Svg,
    MathML,
}

/// How the text that follows a tag is scanned.
#[derive(Clone, Copy, Debug, PartialEq, Eq, Structural)]
pub enum TextParsingMode {
    Data,
    PlainText,
    RCData,
    RawText,
    ScriptData,
    CDataSection,
}

/// Why the scanner must hand a tag over to full tokenization.
#[derive(Clone, Copy, Debug, PartialEq, Eq, Structural)]
pub enum LexUnitRequest {
    /// `<svg>` or `<math>` opens the namespace only when the tag is not self-closing.
    ForeignContentEnter(Namespace),
    /// Entering an integration point depends on whether the tag is self-closing.
    IntegrationPointEnter,
    /// `<font>` leaves foreign content only when it carries certain attributes.
    FontInForeignContent,
}

/// What full tokenization of a requested tag found out.
#[derive(Clone, Copy, Debug, PartialEq, Eq, Structural)]
pub struct TagFacts {
    pub self_closing: bool,
    /// The tag is a `<font>` with a `color`, `face` or `size` attribute.
    pub font_breaks_out: bool,
}

/// A directive for the scanner, answered for each tag name.
#[derive(Clone, Copy, Debug, PartialEq, Eq, Structural)]
pub enum TreeBuilderFeedback {
    SwitchTextParsingMode(TextParsingMode),
    SetAllowCdata(bool),
    RequestLexUnit(LexUnitRequest),
    NoAction,
}

pub open spec fn current_ns(ns: Seq<Namespace>) -> Namespace {
    if ns.len() == 0 {
        Namespace::Html
    } else {
        ns.last()
    }
}

/// The text-parsing mode that an HTML start tag switches to, if any.
pub open spec fn text_mode_feedback(h: Option<u64>) -> TreeBuilderFeedback {
    if is_tag(h, TEXTAREA) || is_tag(h, TITLE) {
        TreeBuilderFeedback::SwitchTextParsingMode(TextParsingMode::RCData)
    } else if is_tag(h, PLAINTEXT) {
        TreeBuilderFeedback::SwitchTextParsingMode(TextParsingMode::PlainText)
    } else if is_tag(h, SCRIPT) {
        TreeBuilderFeedback::SwitchTextParsingMode(TextParsingMode::ScriptData)
    } else if is_tag(h, STYLE) || is_tag(h, IFRAME) || is_tag(h, XMP) || is_tag(h, NOEMBED)
        || is_tag(h, NOFRAMES) || is_tag(h, NOSCRIPT) {
        TreeBuilderFeedback::SwitchTextParsingMode(TextParsingMode::RawText)
    } else {
        TreeBuilderFeedback::NoAction
    }
}

/// Start tags that break out of foreign content: b, big, blockquote, body,
/// br, center, code, dd, div, dl, dt, em, embed, h1 to h6, head, hr, i, img,
/// li, listing, menu, meta, nobr, ol, p, pre, ruby, s, small, span, strong,
/// strike, sub, sup, table, tt, u, ul, var (by hash, in that order).
pub open spec fn is_breakout_hash(t: u64) -> bool {
    t == 7 || t == 7628 || t == 265678647808810 || t == 250174 || t == 247 || t == 279569751
        || t == 282922 || t == 297 || t == 9691 || t == 305 || t == 313 || t == 338
        || t == 11083081 || (417 <= t && t <= 422) || t == 436425 || t == 439 || t == 14
        || t == 14924 || t == 558 || t == 18749373036 || t == 600698 || t == 600870
        || t == 643319 || t == 657 || t == 21 || t == 22250 || t == 780542 || t == 24
        || t == 25762353 || t == 808147 || t == 832295532 || t == 832289290 || t == 25415
        || t == 25429 || t == 26418730 || t == 825 || t == 26 || t == 849 || t == 27863
}

pub open spec fn is_breakout(h: Option<u64>) -> bool {
    match h {
        Some(t) => is_breakout_hash(t),
        None => false,
    }
}

/// Tags that may open an HTML island inside the current foreign namespace.
pub open spec fn is_integration_point(cur: Namespace, h: Option<u64>) -> bool {
    (cur == Namespace::Svg && (is_tag(h, FOREIGN_OBJECT) || is_tag(h, DESC) || is_tag(h, TITLE)))
        || (cur == Namespace::MathML && (is_tag(h, MI) || is_tag(h, MO) || is_tag(h, MN)
        || is_tag(h, MS) || is_tag(h, MTEXT)))
}

pub open spec fn leave_ns(ns: Seq<Namespace>) -> (Seq<Namespace>, TreeBuilderFeedback) {
    let rest = ns.drop_last();
    (rest, TreeBuilderFeedback::SetAllowCdata(current_ns(rest) != Namespace::Html))
}

/// The namespace stack and the feedback after a start tag.
pub open spec fn sim_start(ns: Seq<Namespace>, h: Option<u64>) -> (Seq<Namespace>, TreeBuilderFeedback) {
    let cur = current_ns(ns);
    if cur != Namespace::Html && is_breakout(h) {
        leave_ns(ns)
    } else if cur != Namespace::Html && is_tag(h, FONT) {
        (ns, TreeBuilderFeedback::RequestLexUnit(LexUnitRequest::FontInForeignContent))
    } else if is_integration_point(cur, h) {
        (ns, TreeBuilderFeedback::RequestLexUnit(LexUnitRequest::IntegrationPointEnter))
    } else if is_tag(h, SVG) {
        (ns, TreeBuilderFeedback::RequestLexUnit(LexUnitRequest::ForeignContentEnter(Namespace::Svg)))
    } else if is_tag(h, MATH) {
        (ns, TreeBuilderFeedback::RequestLexUnit(LexUnitRequest::ForeignContentEnter(Namespace::MathML)))
    } else if cur == Namespace::Html {
        (ns, text_mode_feedback(h))
    } else {
        (ns, TreeBuilderFeedback::NoAction)
    }
}

/// The namespace stack and the feedback after an end tag.
pub open spec fn sim_end(ns: Seq<Namespace>, h: Option<u64>) -> (Seq<Namespace>, TreeBuilderFeedback) {
    let cur = current_ns(ns);
    if (cur == Namespace::Svg && is_tag(h, SVG)) || (cur == Namespace::MathML && is_tag(h, MATH))
        || (cur != Namespace::Html && (is_tag(h, crate::tag_name::BR) || is_tag(h, crate::tag_name::P)))
        || (cur == Namespace::Html && ns.len() > 0 && is_integration_point(current_ns(ns.drop_last()), h)) {
        leave_ns(ns)
    } else {
        (ns, TreeBuilderFeedback::NoAction)
    }
}

/// The namespace stack and the feedback once a requested tag is known.
pub open spec fn sim_lex(ns: Seq<Namespace>, req: LexUnitRequest, facts: TagFacts) -> (Seq<Namespace>, TreeBuilderFeedback) {
    match req {
        LexUnitRequest::ForeignContentEnter(n) => {
            if facts.self_closing {
                (ns, TreeBuilderFeedback::NoAction)
            } else {
                (ns.push(n), TreeBuilderFeedback::SetAllowCdata(true))
            }
        },
        LexUnitRequest::IntegrationPointEnter => {
            if facts.self_closing {
                (ns, TreeBuilderFeedback::NoAction)
            } else {
                (ns.push(Namespace::Html), TreeBuilderFeedback::SetAllowCdata(false))
            }
        },
        LexUnitRequest::FontInForeignContent => {
            if facts.font_breaks_out && ns.len() > 0 {
                leave_ns(ns)
            } else {
                (ns, TreeBuilderFeedback::NoAction)
            }
        },
    }
}

/// Follows just enough of tree construction to tell the scanner how to read
/// what comes after each tag: a stack of the open foreign namespaces.
#[derive(Debug)]
pub struct TreeBuilderSimulator {
    ns_stack: Vec<Namespace>,
}

fn is_breakout_tag(h: Option<u64>) -> (r: bool)
    ensures
        r == is_breakout(h),
{
    match h {
        Some(t) => t == 7 || t == 7628 || t == 265678647808810 || t == 250174 || t == 247
            || t == 279569751 || t == 282922 || t == 297 || t == 9691 || t == 305 || t == 313
            || t == 338 || t == 11083081 || (417 <= t && t <= 422) || t == 436425 || t == 439
            || t == 14 || t == 14924 || t == 558 || t == 18749373036 || t == 600698
            || t == 600870 || t == 643319 || t == 657 || t == 21 || t == 22250 || t == 780542
            || t == 24 || t == 25762353 || t == 808147 || t == 832295532 || t == 832289290
            || t == 25415 || t == 25429 || t == 26418730 || t == 825 || t == 26 || t == 849
            || t == 27863,
        None => false,
    }
}

impl TreeBuilderSimulator {
    pub closed spec fn view(&self) -> Seq<Namespace> {
        self.ns_stack@
    }

    pub fn new() -> (r: TreeBuilderSimulator)
        ensures
            r@ == Seq::<Namespace>::empty(),
    {
        TreeBuilderSimulator { ns_stack: Vec::new() }
    }

    pub fn current_ns(&self) -> (r: Namespace)
        ensures
            r == current_ns(self@),
    {
        let n = self.ns_stack.len();
        if n == 0 {
            Namespace::Html
        } else {
            self.ns_stack[n - 1]
        }
    }

    fn leave_ns(&mut self) -> (r: TreeBuilderFeedback)
        requires
            old(self)@.len() > 0,
        ensures
            (final(self)@, r) == leave_ns(old(self)@),
    {
        self.ns_stack.pop();
        assert(self@ =~= old(self)@.drop_last());
        let cur = self.current_ns();
        TreeBuilderFeedback::SetAllowCdata(cur != Namespace::Html)
    }

    fn text_mode_feedback(h: Option<u64>) -> (r: TreeBuilderFeedback)
        ensures
            r == text_mode_feedback(h),
    {
        if h == Some(TEXTAREA) || h == Some(TITLE) {
            TreeBuilderFeedback::SwitchTextParsingMode(TextParsingMode::RCData)
        } else if h == Some(PLAINTEXT) {
            TreeBuilderFeedback::SwitchTextParsingMode(TextParsingMode::PlainText)
        } else if h == Some(SCRIPT) {
            TreeBuilderFeedback::SwitchTextParsingMode(TextParsingMode::ScriptData)
        } else if h == Some(STYLE) || h == Some(IFRAME) || h == Some(XMP) || h == Some(NOEMBED)
            || h == Some(NOFRAMES) || h == Some(NOSCRIPT) {
            TreeBuilderFeedback::SwitchTextParsingMode(TextParsingMode::RawText)
        } else {
            TreeBuilderFeedback::NoAction
        }
    }

    pub fn get_feedback_for_start_tag_name(&mut self, h: Option<u64>) -> (r: TreeBuilderFeedback)
        ensures
            (final(self)@, r) == sim_start(old(self)@, h),
    {
        let cur = self.current_ns();
        let integration = (cur == Namespace::Svg && (h == Some(FOREIGN_OBJECT) || h == Some(DESC)
            || h == Some(TITLE))) || (cur == Namespace::MathML && (h == Some(MI) || h == Some(MO)
            || h == Some(MN) || h == Some(MS) || h == Some(MTEXT)));
        if cur != Namespace::Html && is_breakout_tag(h) {
            self.leave_ns()
        } else if cur != Namespace::Html && h == Some(FONT) {
            TreeBuilderFeedback::RequestLexUnit(LexUnitRequest::FontInForeignContent)
        } else if integration {
            TreeBuilderFeedback::RequestLexUnit(LexUnitRequest::IntegrationPointEnter)
        } else if h == Some(SVG) {
            TreeBuilderFeedback::RequestLexUnit(LexUnitRequest::ForeignContentEnter(Namespace::Svg))
        } else if h == Some(MATH) {
            TreeBuilderFeedback::RequestLexUnit(LexUnitRequest::ForeignContentEnter(Namespace::MathML))
        } else if cur == Namespace::Html {
            Self::text_mode_feedback(h)
        } else {
            TreeBuilderFeedback::NoAction
        }
    }

    pub fn get_feedback_for_end_tag_name(&mut self, h: Option<u64>) -> (r: TreeBuilderFeedback)
        ensures
            (final(self)@, r) == sim_end(old(self)@, h),
    {
        let cur = self.current_ns();
        let n = self.ns_stack.len();
        let island_end = if cur == Namespace::Html && n > 0 {
            let below = if n >= 2 { self.ns_stack[n - 2] } else { Namespace::Html };
            proof {
                assert(current_ns(self@.drop_last()) == below);
            }
            (below == Namespace::Svg && (h == Some(FOREIGN_OBJECT) || h == Some(DESC) || h == Some(TITLE)))
                || (below == Namespace::MathML && (h == Some(MI) || h == Some(MO) || h == Some(MN)
                || h == Some(MS) || h == Some(MTEXT)))
        } else {
            false
        };
        if (cur == Namespace::Svg && h == Some(SVG)) || (cur == Namespace::MathML && h == Some(MATH))
            || (cur != Namespace::Html && (h == Some(crate::tag_name::BR) || h == Some(crate::tag_name::P)))
            || island_end {
            self.leave_ns()
        } else {
            TreeBuilderFeedback::NoAction
        }
    }

    /// Applies what full tokenization found out about a requested tag.
    pub fn apply_lex_unit(&mut self, request: LexUnitRequest, facts: TagFacts) -> (r: TreeBuilderFeedback)
        ensures
            (final(self)@, r) == sim_lex(old(self)@, request, facts),
    {
        match request {
            LexUnitRequest::ForeignContentEnter(n) => {
                if facts.self_closing {
                    TreeBuilderFeedback::NoAction
                } else {
                    self.ns_stack.push(n);
                    TreeBuilderFeedback::SetAllowCdata(true)
                }
            },
            LexUnitRequest::IntegrationPointEnter => {
                if facts.self_closing {
                    TreeBuilderFeedback::NoAction
                } else {
                    self.ns_stack.push(Namespace::Html);
                    TreeBuilderFeedback::SetAllowCdata(false)
                }
            },
            LexUnitRequest::FontInForeignContent => {
                if facts.font_breaks_out && self.ns_stack.len() > 0 {
                    self.leave_ns()
                } else {
                    TreeBuilderFeedback::NoAction
                }
            },
        }
    }
}

} // verus!
