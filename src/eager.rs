use vstd::prelude::*;
use crate::ambiguity_guard::{guard_end, guard_start, AmbiguityGuard, GuardState, ParsingAmbiguityError};
use crate::base::{aligned, align, Cursor, Range};
use crate::tag_name::{hash_step, is_ascii_alpha, is_alpha, update_hash, SCRIPT};
use crate::tree_builder_simulator::{
    sim_end, sim_lex, sim_start, LexUnitRequest, TagFacts, Namespace, TextParsingMode, TreeBuilderFeedback,
    TreeBuilderSimulator,
};

verus! {

/// The scanner's current transition function.
#[derive(Clone, Copy, Debug, PartialEq, Eq, Structural)]
pub enum EagerState {
    Data,
    TagOpen,
    EndTagOpen,
    TagName,
    /// Inside a tag after its name, outside any quoted value.
    AttrArea,
    /// After `=` inside a tag.
    AfterEq,
    AttrValueQuoted,
    AttrValueUnquoted,
    MarkupDeclOpen,
    /// After `<!-`.
    MarkupDeclDash,
    /// Just after `<!--`.
    CommentStart,
    /// Just after `<!---`.
    CommentStartDash,
    /// Inside a comment; the count of trailing dashes seen, at most two, or
    /// three just after `--!`.
    Comment(u8),
    /// Matching `[CDATA[`; the count of bytes matched so far.
    CdataOpen(u8),
    /// Inside a CDATA section; the count of trailing `]`, at most two.
    CdataSection(u8),
    BogusComment,
    RawData,
    RawLt,
    /// After `</` in text of the given kind.
    RawEndTagOpen(TextKind),
    /// Scanning a candidate end tag name in text of the given kind.
    RawEndTagName(TextKind),
    ScriptData,
    ScriptLt,
    /// After `<!` (zero) or `<!-` (one) in script data.
    ScriptEscapeStart(u8),
    /// Inside `<!--` in script data; the count of trailing dashes, at most two.
    ScriptEscaped(u8),
    ScriptEscapedLt,
    /// Matching a tag name after `<` in escaped script data.
    ScriptDoubleEscapeStart,
    /// Inside a `<script>` opened within escaped script data.
    ScriptDoubleEscaped(u8),
    ScriptDoubleEscapedLt,
    /// Matching a tag name after `</` in double-escaped script data.
    ScriptDoubleEscapeEnd,
    PlainText,
}

/// The text in which a candidate end tag is being scanned.
#[derive(Clone, Copy, Debug, PartialEq, Eq, Structural)]
pub enum TextKind {
    /// Raw text or RC data.
    Raw,
    Script,
    ScriptEscaped,
}

/// Why the scanner stopped: for good on an ambiguity, until `resume` on a
/// request for full tokenization.
#[derive(Clone, Copy, Debug, PartialEq, Eq, Structural)]
pub enum Halt {
    Ambiguity(ParsingAmbiguityError),
    LexUnitRequired(LexUnitRequest),
}

/// The long-lived components that the scanner consults on each tag.
#[derive(Debug)]
pub struct FeedbackProviders {
    pub ambiguity_guard: AmbiguityGuard,
    pub tree_builder_simulator: TreeBuilderSimulator,
}

impl FeedbackProviders {
    pub fn new() -> (r: FeedbackProviders)
        ensures
            r.ambiguity_guard.state == GuardState::Default,
            r.tree_builder_simulator@ == Seq::<Namespace>::empty(),
    {
        FeedbackProviders {
            ambiguity_guard: AmbiguityGuard::new(),
            tree_builder_simulator: TreeBuilderSimulator::new(),
        }
    }
}

/// A tag name: its span in the current chunk and its hash.
#[derive(Clone, Copy, Debug, PartialEq, Eq, Structural)]
pub struct TagNameInfo {
    pub name_range: Range,
    pub name_hash: Option<u64>,
}

#[derive(Clone, Copy, Debug, PartialEq, Eq, Structural)]
pub enum TagPreview {
    StartTag(TagNameInfo),
    EndTag(TagNameInfo),
}

impl TagPreview {
    pub open spec fn info(self) -> TagNameInfo {
        match self {
            TagPreview::StartTag(i) => i,
            TagPreview::EndTag(i) => i,
        }
    }

    pub open spec fn name_range_within(self, len: nat) -> bool {
        self.info().name_range.within(len)
    }

    pub fn name_range(&self) -> (r: Range)
        ensures
            r == self.info().name_range,
    {
        match self {
            TagPreview::StartTag(i) => i.name_range,
            TagPreview::EndTag(i) => i.name_range,
        }
    }

    pub fn is_end_tag(&self) -> (r: bool)
        ensures
            r == self is EndTag,
    {
        match self {
            TagPreview::StartTag(_) => false,
            TagPreview::EndTag(_) => true,
        }
    }

    pub fn name_hash(&self) -> (r: Option<u64>)
        ensures
            r == self.info().name_hash,
    {
        match self {
            TagPreview::StartTag(i) => i.name_hash,
            TagPreview::EndTag(i) => i.name_hash,
        }
    }
}

/// Where a suspended scan must be taken up by full tokenization.
#[derive(Clone, Copy, Debug, PartialEq, Eq, Structural)]
pub struct Bookmark {
    /// Offset of the tag's `<` in the current chunk.
    pub pos: usize,
    pub request: LexUnitRequest,
}

#[derive(Clone, Copy, Debug, PartialEq, Eq, Structural)]
pub enum ParsingLoopTerminationReason {
    EndOfInput { blocked_byte_count: usize },
    LexUnitRequiredForAdjustment(Bookmark),
    Ambiguity(ParsingAmbiguityError),
}

#[derive(Clone, Copy, Debug, PartialEq, Eq, Structural)]
pub enum ParsingLoopDirective {
    Proceed,
    Break(ParsingLoopTerminationReason),
}

/// A tag preview as the document sees it: kind, name bytes and hash.
pub struct PreviewEvent {
    pub is_end: bool,
    pub name: Seq<u8>,
    pub hash: Option<u64>,
}

/// Everything of the scanner that decides what it does next, free of chunk offsets.
pub struct Model {
    pub state: EagerState,
    pub is_in_end_tag: bool,
    pub tag_name_hash: Option<u64>,
    pub last_start_tag_name_hash: Option<u64>,
    pub allow_cdata: bool,
    pub closing_quote: u8,
    pub pending: Option<TextParsingMode>,
    pub guard: GuardState,
    pub ns: Seq<Namespace>,
    /// The bytes of the tag name being scanned.
    pub name: Seq<u8>,
    pub halt: Option<Halt>,
}

pub open spec fn initial_model() -> Model {
    Model {
        state: EagerState::Data,
        is_in_end_tag: false,
        tag_name_hash: None,
        last_start_tag_name_hash: None,
        allow_cdata: false,
        closing_quote: 34,
        pending: None,
        guard: GuardState::Default,
        ns: Seq::empty(),
        name: Seq::empty(),
        halt: None,
    }
}

pub open spec fn is_ws(c: u8) -> bool {
    c == 9 || c == 10 || c == 12 || c == 13 || c == 32
}

/// Ends a tag name: whitespace, `/` or `>`.
pub open spec fn is_name_end(c: u8) -> bool {
    is_ws(c) || c == 47 || c == 62
}

/// The bytes of `[CDATA[`.
pub open spec fn cdata_byte(k: u8) -> u8 {
    if k == 0 || k == 6 { 91 } else if k == 1 { 67 } else if k == 2 || k == 4 { 68 } else if k == 3 { 65 } else { 84 }
}

pub open spec fn text_state(mode: TextParsingMode) -> EagerState {
    match mode {
        TextParsingMode::Data => EagerState::Data,
        TextParsingMode::PlainText => EagerState::PlainText,
        TextParsingMode::CDataSection => EagerState::CdataSection(0),
        TextParsingMode::ScriptData => EagerState::ScriptData,
        _ => EagerState::RawData,
    }
}

/// A byte handed back to the text of kind `k`.
pub open spec fn reconsume_text(m: Model, k: TextKind, c: u8) -> Model {
    match k {
        TextKind::Raw => if c == 60 { goto(m, EagerState::RawLt) } else { goto(m, EagerState::RawData) },
        TextKind::Script => if c == 60 { goto(m, EagerState::ScriptLt) } else { goto(m, EagerState::ScriptData) },
        TextKind::ScriptEscaped => escaped_on(m, 0, c),
    }
}

pub open spec fn dash_count(d: u8) -> u8 {
    if d < 2 { (d + 1) as u8 } else { 2 }
}

/// Escaped script data after `d` dashes, on byte `c`.
pub open spec fn escaped_on(m: Model, d: u8, c: u8) -> Model {
    if c == 45 {
        goto(m, EagerState::ScriptEscaped(dash_count(d)))
    } else if c == 60 {
        goto(m, EagerState::ScriptEscapedLt)
    } else if c == 62 && d >= 2 {
        goto(m, EagerState::ScriptData)
    } else {
        goto(m, EagerState::ScriptEscaped(0))
    }
}

/// Double-escaped script data after `d` dashes, on byte `c`.
pub open spec fn double_escaped_on(m: Model, d: u8, c: u8) -> Model {
    if c == 45 {
        goto(m, EagerState::ScriptDoubleEscaped(dash_count(d)))
    } else if c == 60 {
        goto(m, EagerState::ScriptDoubleEscapedLt)
    } else if c == 62 && d >= 2 {
        goto(m, EagerState::ScriptData)
    } else {
        goto(m, EagerState::ScriptDoubleEscaped(0))
    }
}

/// The tag is complete: the staged mode change, if any, takes effect now.
pub open spec fn finish_tag(m: Model) -> Model {
    Model {
        state: text_state(match m.pending { Some(p) => p, None => TextParsingMode::Data }),
        pending: None,
        ..m
    }
}

pub open spec fn apply_feedback(m: Model, fb: TreeBuilderFeedback) -> Model {
    match fb {
        TreeBuilderFeedback::SwitchTextParsingMode(mode) => Model { pending: Some(mode), ..m },
        TreeBuilderFeedback::SetAllowCdata(b) => Model { allow_cdata: b, ..m },
        TreeBuilderFeedback::RequestLexUnit(r) => Model { halt: Some(Halt::LexUnitRequired(r)), ..m },
        TreeBuilderFeedback::NoAction => m,
    }
}

pub open spec fn after_name(m: Model, c: u8) -> Model {
    if c == 62 {
        finish_tag(m)
    } else {
        Model { state: EagerState::AttrArea, ..m }
    }
}

/// The tag name ended on `c`: preview it, consult the guard and the simulator.
pub open spec fn name_end(m: Model, c: u8) -> (Model, Seq<PreviewEvent>) {
    let ev = PreviewEvent { is_end: m.is_in_end_tag, name: m.name, hash: m.tag_name_hash };
    if m.is_in_end_tag {
        let (ns, fb) = sim_end(m.ns, m.tag_name_hash);
        let m1 = Model { is_in_end_tag: false, guard: guard_end(m.guard, m.tag_name_hash), ns: ns, ..m };
        (after_name(apply_feedback(m1, fb), c), seq![ev])
    } else {
        match guard_start(m.guard, m.tag_name_hash) {
            Err(e) => (Model { last_start_tag_name_hash: m.tag_name_hash, halt: Some(Halt::Ambiguity(e)), ..m }, Seq::empty()),
            Ok(g) => {
                let (ns, fb) = sim_start(m.ns, m.tag_name_hash);
                let m1 = Model { last_start_tag_name_hash: m.tag_name_hash, guard: g, ns: ns, ..m };
                (after_name(apply_feedback(m1, fb), c), seq![ev])
            },
        }
    }
}

pub open spec fn goto(m: Model, s: EagerState) -> Model {
    Model { state: s, ..m }
}

pub open spec fn start_name(m: Model, s: EagerState, is_end: bool, c: u8) -> Model {
    Model { state: s, is_in_end_tag: is_end, tag_name_hash: hash_step(Some(0), c), name: seq![c], ..m }
}

pub open spec fn extend_name(m: Model, c: u8) -> Model {
    Model { tag_name_hash: hash_step(m.tag_name_hash, c), name: m.name.push(c), ..m }
}

/// One byte of input: the next model and the previews it emits.
pub open spec fn step(m: Model, c: u8) -> (Model, Seq<PreviewEvent>) {
    if m.halt.is_some() {
        (m, Seq::empty())
    } else {
        match m.state {
            EagerState::TagName => {
                if is_name_end(c) { name_end(m, c) } else { (extend_name(m, c), Seq::empty()) }
            },
            EagerState::RawEndTagName(k) => {
                if is_ascii_alpha(c) {
                    (extend_name(m, c), Seq::empty())
                } else if is_name_end(c) && m.tag_name_hash.is_some()
                    && m.tag_name_hash == m.last_start_tag_name_hash {
                    name_end(Model { is_in_end_tag: true, ..m }, c)
                } else {
                    (reconsume_text(m, k, c), Seq::empty())
                }
            },
            _ => (step_plain(m, c), Seq::empty()),
        }
    }
}

/// The transitions that emit nothing.
pub open spec fn step_plain(m: Model, c: u8) -> Model {
    match m.state {
        EagerState::Data => if c == 60 { goto(m, EagerState::TagOpen) } else { m },
        EagerState::TagOpen => {
            if c == 47 {
                goto(m, EagerState::EndTagOpen)
            } else if is_ascii_alpha(c) {
                start_name(m, EagerState::TagName, false, c)
            } else if c == 33 {
                goto(m, EagerState::MarkupDeclOpen)
            } else if c == 63 {
                goto(m, EagerState::BogusComment)
            } else if c == 60 {
                m
            } else {
                goto(m, EagerState::Data)
            }
        },
        EagerState::EndTagOpen => {
            if is_ascii_alpha(c) {
                start_name(m, EagerState::TagName, true, c)
            } else if c == 62 {
                goto(m, EagerState::Data)
            } else {
                goto(m, EagerState::BogusComment)
            }
        },
        EagerState::AttrArea => {
            if c == 62 { finish_tag(m) } else if c == 61 { goto(m, EagerState::AfterEq) } else { m }
        },
        EagerState::AfterEq => {
            if is_ws(c) {
                m
            } else if c == 34 || c == 39 {
                Model { state: EagerState::AttrValueQuoted, closing_quote: c, ..m }
            } else if c == 62 {
                finish_tag(m)
            } else {
                goto(m, EagerState::AttrValueUnquoted)
            }
        },
        EagerState::AttrValueQuoted => if c == m.closing_quote { goto(m, EagerState::AttrArea) } else { m },
        EagerState::AttrValueUnquoted => {
            if is_ws(c) { goto(m, EagerState::AttrArea) } else if c == 62 { finish_tag(m) } else { m }
        },
        EagerState::MarkupDeclOpen => {
            if c == 45 {
                goto(m, EagerState::MarkupDeclDash)
            } else if c == 91 && m.allow_cdata {
                goto(m, EagerState::CdataOpen(1))
            } else if c == 62 {
                goto(m, EagerState::Data)
            } else {
                goto(m, EagerState::BogusComment)
            }
        },
        EagerState::MarkupDeclDash => {
            if c == 45 {
                goto(m, EagerState::CommentStart)
            } else if c == 62 {
                goto(m, EagerState::Data)
            } else {
                goto(m, EagerState::BogusComment)
            }
        },
        EagerState::CommentStart => {
            if c == 45 {
                goto(m, EagerState::CommentStartDash)
            } else if c == 62 {
                goto(m, EagerState::Data)
            } else {
                goto(m, EagerState::Comment(0))
            }
        },
        EagerState::CommentStartDash => {
            if c == 45 {
                goto(m, EagerState::Comment(2))
            } else if c == 62 {
                goto(m, EagerState::Data)
            } else {
                goto(m, EagerState::Comment(0))
            }
        },
        EagerState::Comment(d) => {
            if c == 45 {
                goto(m, EagerState::Comment(if d == 3 { 1 } else { dash_count(d) }))
            } else if c == 33 && d == 2 {
                goto(m, EagerState::Comment(3))
            } else if c == 62 && d >= 2 {
                goto(m, EagerState::Data)
            } else {
                goto(m, EagerState::Comment(0))
            }
        },
        EagerState::CdataOpen(k) => {
            if k < 7 && c == cdata_byte(k) {
                goto(m, if k >= 6 { EagerState::CdataSection(0) } else { EagerState::CdataOpen((k + 1) as u8) })
            } else if c == 62 {
                goto(m, EagerState::Data)
            } else {
                goto(m, EagerState::BogusComment)
            }
        },
        EagerState::CdataSection(b) => {
            if c == 93 {
                goto(m, EagerState::CdataSection(if b < 2 { (b + 1) as u8 } else { 2 }))
            } else if c == 62 && b >= 2 {
                goto(m, EagerState::Data)
            } else {
                goto(m, EagerState::CdataSection(0))
            }
        },
        EagerState::BogusComment => if c == 62 { goto(m, EagerState::Data) } else { m },
        EagerState::RawData => if c == 60 { goto(m, EagerState::RawLt) } else { m },
        EagerState::RawLt => {
            if c == 47 { goto(m, EagerState::RawEndTagOpen(TextKind::Raw)) } else { reconsume_text(m, TextKind::Raw, c) }
        },
        EagerState::RawEndTagOpen(k) => {
            if is_ascii_alpha(c) {
                start_name(m, EagerState::RawEndTagName(k), false, c)
            } else {
                reconsume_text(m, k, c)
            }
        },
        EagerState::ScriptData => if c == 60 { goto(m, EagerState::ScriptLt) } else { m },
        EagerState::ScriptLt => {
            if c == 47 {
                goto(m, EagerState::RawEndTagOpen(TextKind::Script))
            } else if c == 33 {
                goto(m, EagerState::ScriptEscapeStart(0))
            } else {
                reconsume_text(m, TextKind::Script, c)
            }
        },
        EagerState::ScriptEscapeStart(k) => {
            if c == 45 {
                goto(m, if k == 0 { EagerState::ScriptEscapeStart(1) } else { EagerState::ScriptEscaped(2) })
            } else {
                reconsume_text(m, TextKind::Script, c)
            }
        },
        EagerState::ScriptEscaped(d) => escaped_on(m, d, c),
        EagerState::ScriptEscapedLt => {
            if c == 47 {
                goto(m, EagerState::RawEndTagOpen(TextKind::ScriptEscaped))
            } else if is_ascii_alpha(c) {
                Model { state: EagerState::ScriptDoubleEscapeStart, tag_name_hash: hash_step(Some(0), c), ..m }
            } else {
                escaped_on(m, 0, c)
            }
        },
        EagerState::ScriptDoubleEscapeStart => {
            if is_name_end(c) {
                goto(m, if m.tag_name_hash == Some(SCRIPT) { EagerState::ScriptDoubleEscaped(0) } else { EagerState::ScriptEscaped(0) })
            } else if is_ascii_alpha(c) {
                Model { tag_name_hash: hash_step(m.tag_name_hash, c), ..m }
            } else {
                escaped_on(m, 0, c)
            }
        },
        EagerState::ScriptDoubleEscaped(d) => double_escaped_on(m, d, c),
        EagerState::ScriptDoubleEscapedLt => {
            if c == 47 {
                Model { state: EagerState::ScriptDoubleEscapeEnd, tag_name_hash: Some(0), ..m }
            } else {
                double_escaped_on(m, 0, c)
            }
        },
        EagerState::ScriptDoubleEscapeEnd => {
            if is_name_end(c) {
                goto(m, if m.tag_name_hash == Some(SCRIPT) { EagerState::ScriptEscaped(0) } else { EagerState::ScriptDoubleEscaped(0) })
            } else if is_ascii_alpha(c) {
                Model { tag_name_hash: hash_step(m.tag_name_hash, c), ..m }
            } else {
                double_escaped_on(m, 0, c)
            }
        },
        _ => m,
    }
}

/// The model after a whole byte sequence, and all previews it emits in order.
pub open spec fn run_model(m: Model, s: Seq<u8>) -> (Model, Seq<PreviewEvent>)
    decreases s.len(),
{
    if s.len() == 0 {
        (m, Seq::empty())
    } else {
        let (m1, e1) = run_model(m, s.drop_last());
        let (m2, e2) = step(m1, s.last());
        (m2, e1 + e2)
    }
}

pub open spec fn preview_event(p: TagPreview, input: Seq<u8>) -> PreviewEvent {
    match p {
        TagPreview::StartTag(i) => PreviewEvent {
            is_end: false,
            name: input.subrange(i.name_range.start as int, i.name_range.end as int),
            hash: i.name_hash,
        },
        TagPreview::EndTag(i) => PreviewEvent {
            is_end: true,
            name: input.subrange(i.name_range.start as int, i.name_range.end as int),
            hash: i.name_hash,
        },
    }
}

pub open spec fn preview_events(ps: Seq<TagPreview>, input: Seq<u8>) -> Seq<PreviewEvent> {
    ps.map_values(|p: TagPreview| preview_event(p, input))
}


/// The model once full tokenization has answered a request with `facts`:
/// the simulator takes them in and the scan may go on. Any other model is
/// left as it is.
pub open spec fn resume_model(m: Model, facts: TagFacts) -> Model {
    match m.halt {
        Some(Halt::LexUnitRequired(req)) => {
            let (ns, fb) = sim_lex(m.ns, req, facts);
            apply_feedback(Model { ns: ns, halt: None, ..m }, fb)
        },
        _ => m,
    }
}

/// Scanning a document in two pieces, the second from where the first left
/// the model, gives the same final model and the same previews, in the same
/// order, as scanning it whole: the split point does not matter.
pub proof fn lemma_chunk_boundary_invariance(m: Model, a: Seq<u8>, b: Seq<u8>)
    ensures
        run_model(m, a + b).0 == run_model(run_model(m, a).0, b).0,
        run_model(m, a + b).1 == run_model(m, a).1 + run_model(run_model(m, a).0, b).1,
    decreases b.len(),
{
    if b.len() == 0 {
        assert(a + b =~= a);
        assert(run_model(m, a).1 + Seq::<PreviewEvent>::empty() =~= run_model(m, a).1);
    } else {
        assert((a + b).drop_last() =~= a + b.drop_last());
        assert((a + b).last() == b.last());
        lemma_chunk_boundary_invariance(m, a, b.drop_last());
        let (ma, ea) = run_model(m, a);
        let (m1, e1) = run_model(ma, b.drop_last());
        let (m2, e2) = step(m1, b.last());
        assert(ea + e1 + e2 =~= ea + (e1 + e2));
    }
}

/// A halted scan stays halted and emits nothing more.
pub proof fn lemma_halted_absorbs(m: Model, s: Seq<u8>)
    requires
        m.halt.is_some(),
    ensures
        run_model(m, s).0 == m,
        run_model(m, s).1 == Seq::<PreviewEvent>::empty(),
    decreases s.len(),
{
    if s.len() > 0 {
        lemma_halted_absorbs(m, s.drop_last());
        assert(Seq::<PreviewEvent>::empty() + Seq::<PreviewEvent>::empty() =~= Seq::<PreviewEvent>::empty());
    }
}

/// Scans byte by byte for tag boundaries and names only, and emits a preview
/// for each tag name. Offsets refer to the current chunk; everything else is
/// carried across chunks.
pub struct EagerStateMachine {
    input_cursor: Cursor,
    tag_start: Option<usize>,
    tag_name_start: usize,
    is_in_end_tag: bool,
    tag_name_hash: Option<u64>,
    last_start_tag_name_hash: Option<u64>,
    allow_cdata: bool,
    state: EagerState,
    closing_quote: u8,
    feedback_providers: FeedbackProviders,
    pending_text_parsing_mode_change: Option<TextParsingMode>,
    last_text_parsing_mode_change: TextParsingMode,
    halt: Option<Halt>,
    /// Offset of the `<` of the tag that asked for full tokenization.
    bookmark_pos: usize,
    name: Ghost<Seq<u8>>,
}

/// States in which an open tag's bytes must be kept.
pub open spec fn in_tag_state(s: EagerState) -> bool {
    s == EagerState::TagOpen || s == EagerState::EndTagOpen || s == EagerState::AttrArea
        || s == EagerState::AfterEq || s == EagerState::AttrValueQuoted
        || s == EagerState::AttrValueUnquoted || s == EagerState::RawLt || s == EagerState::ScriptLt
        || s == EagerState::ScriptEscapedLt || s is RawEndTagOpen
}

pub open spec fn opt_events(r: Option<TagPreview>, input: Seq<u8>) -> Seq<PreviewEvent> {
    match r {
        Some(p) => seq![preview_event(p, input)],
        None => Seq::empty(),
    }
}

pub open spec fn is_name_state(s: EagerState) -> bool {
    s == EagerState::TagName || s is RawEndTagName
}

impl EagerStateMachine {
    pub closed spec fn view(&self) -> Model {
        Model {
            state: self.state,
            is_in_end_tag: self.is_in_end_tag,
            tag_name_hash: self.tag_name_hash,
            last_start_tag_name_hash: self.last_start_tag_name_hash,
            allow_cdata: self.allow_cdata,
            closing_quote: self.closing_quote,
            pending: self.pending_text_parsing_mode_change,
            guard: self.feedback_providers.ambiguity_guard.state,
            ns: self.feedback_providers.tree_builder_simulator@,
            name: self.name@,
            halt: self.halt,
        }
    }

    /// Offset of the next byte to scan in the current chunk.
    pub closed spec fn cursor(&self) -> nat {
        self.input_cursor.pos as nat
    }

    /// Offset of the `<` of the tag that asked for full tokenization.
    pub closed spec fn bookmark_spec(&self) -> usize {
        self.bookmark_pos
    }

    /// Offset where the open tag began, if a tag is open.
    pub closed spec fn tag_start_spec(&self) -> Option<usize> {
        self.tag_start
    }

    /// The scanner's offsets fit `input`, and the open tag name is what
    /// `input` holds at its span.
    pub closed spec fn wf(&self, input: Seq<u8>) -> bool {
        &&& self.input_cursor.pos <= input.len()
        &&& (self.tag_start matches Some(ts) ==> ts <= self.input_cursor.pos)
        &&& (is_name_state(self.state) && self.halt is None) ==> {
            &&& self.tag_start matches Some(ts)
            &&& ts <= self.tag_name_start <= self.input_cursor.pos
            &&& input.subrange(self.tag_name_start as int, self.input_cursor.pos as int) == self.name@
        }
        &&& (self.halt matches Some(Halt::LexUnitRequired(_)) ==> !is_name_state(self.state))
        &&& (in_tag_state(self.state) ==> self.tag_start is Some)
    }

    pub fn new(feedback_providers: FeedbackProviders) -> (r: EagerStateMachine)
        ensures
            r@ == (Model {
                guard: feedback_providers.ambiguity_guard.state,
                ns: feedback_providers.tree_builder_simulator@,
                ..initial_model()
            }),
            r.cursor() == 0,
            r.tag_start_spec() is None,
            r.last_text_parsing_mode_change() == TextParsingMode::Data,
            r.wf(Seq::empty()),
    {
        EagerStateMachine {
            input_cursor: Cursor::new(),
            tag_start: None,
            tag_name_start: 0,
            is_in_end_tag: false,
            tag_name_hash: None,
            last_start_tag_name_hash: None,
            allow_cdata: false,
            state: EagerState::Data,
            closing_quote: 34,
            feedback_providers,
            pending_text_parsing_mode_change: None,
            last_text_parsing_mode_change: TextParsingMode::Data,
            halt: None,
            bookmark_pos: 0,
            name: Ghost(Seq::empty()),
        }
    }

    /// Takes up the scan after full tokenization answered a request.
    pub fn resume(&mut self, facts: TagFacts)
        ensures
            final(self)@ == resume_model(old(self)@, facts),
            final(self).cursor() == old(self).cursor(),
            final(self).tag_start_spec() == old(self).tag_start_spec(),
            final(self).last_text_parsing_mode_change() == old(self).last_text_parsing_mode_change(),
            forall|input: Seq<u8>| old(self).wf(input) ==> #[trigger] final(self).wf(input),
    {
        if let Some(Halt::LexUnitRequired(request)) = self.halt {
            let feedback = self.feedback_providers.tree_builder_simulator.apply_lex_unit(request, facts);
            self.halt = None;
            let _ = self.handle_tree_builder_feedback(feedback, 0);
        }
    }

    pub proof fn lemma_wf_bounds(&self, input: Seq<u8>)
        requires
            self.wf(input),
        ensures
            self.cursor() <= input.len(),
            self.tag_start_spec() matches Some(ts) ==> ts <= self.cursor(),
    {
    }

    /// Handing in more bytes after the current chunk keeps the offsets valid.
    pub proof fn lemma_wf_extend(&self, a: Seq<u8>, b: Seq<u8>)
        requires
            self.wf(a),
        ensures
            self.wf(a + b),
    {
        if is_name_state(self.state) && self.halt is None {
            assert((a + b).subrange(self.tag_name_start as int, self.input_cursor.pos as int)
                =~= a.subrange(self.tag_name_start as int, self.input_cursor.pos as int));
        }
    }

    pub fn get_state(&self) -> (r: EagerState)
        ensures
            r == self@.state,
    {
        self.state
    }

    pub fn is_halted(&self) -> (r: Option<Halt>)
        ensures
            r == self@.halt,
    {
        self.halt
    }

    /// How many trailing bytes of a chunk of `input_len` bytes belong to an
    /// open tag and must be handed in again at the start of the next chunk.
    pub fn get_blocked_byte_count(&self, input_len: usize) -> (r: usize)
        requires
            self.tag_start_spec() matches Some(ts) ==> ts <= input_len,
        ensures
            r == match self.tag_start_spec() {
                Some(ts) => (input_len - ts) as usize,
                None => 0usize,
            },
    {
        match self.tag_start {
            Some(tag_start) => input_len - tag_start,
            None => 0,
        }
    }

    /// Rebases every retained offset onto the next chunk, which starts with
    /// the blocked bytes: the cursor lands just after them.
    pub fn adjust_for_next_input(&mut self)
        ensures
            final(self)@ == old(self)@,
            final(self).last_text_parsing_mode_change() == old(self).last_text_parsing_mode_change(),
            final(self).tag_start_spec() == match old(self).tag_start_spec() {
                Some(_) => Some(0usize),
                None => None::<usize>,
            },
            final(self).cursor() == match old(self).tag_start_spec() {
                Some(ts) => aligned(old(self).cursor() as usize, ts) as nat,
                None => 0,
            },
            forall|input: Seq<u8>, k: nat|
                old(self).wf(input) && old(self).cursor() == input.len() && k <= input.len()
                && k == input.len() - match old(self).tag_start_spec() { Some(ts) => ts as int, None => input.len() as int }
                ==> #[trigger] final(self).wf(input.subrange(input.len() - k, input.len() as int)),
    {
        if let Some(tag_start) = self.tag_start {
            align(&mut self.input_cursor.pos, tag_start);
            align(&mut self.tag_name_start, tag_start);
            self.tag_start = Some(0);
        } else {
            self.input_cursor = Cursor::new();
        }
        assert forall|input: Seq<u8>, k: nat|
            old(self).wf(input) && old(self).cursor() == input.len() && k <= input.len()
            && k == input.len() - match old(self).tag_start_spec() { Some(ts) => ts as int, None => input.len() as int }
            implies #[trigger] self.wf(input.subrange(input.len() - k, input.len() as int)) by {
            let t = input.subrange(input.len() - k, input.len() as int);
            if is_name_state(self.state) && self.halt is None {
                assert(t.subrange(self.tag_name_start as int, self.input_cursor.pos as int)
                    =~= input.subrange(old(self).tag_name_start as int, old(self).input_cursor.pos as int));
            }
        }
    }

    /// The text-parsing mode that the driver last switched to.
    pub closed spec fn last_text_parsing_mode_change(&self) -> TextParsingMode {
        self.last_text_parsing_mode_change
    }

    pub fn store_last_text_parsing_mode_change(&mut self, mode: TextParsingMode)
        ensures
            final(self).last_text_parsing_mode_change() == mode,
            final(self)@ == old(self)@,
            final(self).cursor() == old(self).cursor(),
            final(self).tag_start_spec() == old(self).tag_start_spec(),
            forall|input: Seq<u8>| old(self).wf(input) ==> #[trigger] final(self).wf(input),
    {
        self.last_text_parsing_mode_change = mode;
    }
}

impl EagerStateMachine {
    /// The chunk offsets, and the mode the driver last stored, are as in `other`.
    spec fn offsets_kept(&self, other: &EagerStateMachine) -> bool {
        &&& self.last_text_parsing_mode_change == other.last_text_parsing_mode_change
        &&& self.input_cursor == other.input_cursor
        &&& self.tag_start == other.tag_start
        &&& self.tag_name_start == other.tag_name_start
        &&& self.bookmark_pos == other.bookmark_pos
    }

    fn create_tag_preview(&mut self) -> (r: TagPreview)
        ensures
            final(self).offsets_kept(old(self)),
            ({
                let info = TagNameInfo {
                    name_range: Range { start: old(self).tag_name_start, end: old(self).input_cursor.pos },
                    name_hash: old(self).tag_name_hash,
                };
                if old(self)@.is_in_end_tag {
                    r == TagPreview::EndTag(info) && final(self)@ == (Model { is_in_end_tag: false, ..old(self)@ })
                } else {
                    r == TagPreview::StartTag(info)
                        && final(self)@ == (Model { last_start_tag_name_hash: old(self).tag_name_hash, ..old(self)@ })
                }
            }),
    {
        let name_range = Range { start: self.tag_name_start, end: self.input_cursor.pos() };
        let tag_name_info = TagNameInfo { name_range, name_hash: self.tag_name_hash };
        if self.is_in_end_tag {
            self.is_in_end_tag = false;
            TagPreview::EndTag(tag_name_info)
        } else {
            self.last_start_tag_name_hash = self.tag_name_hash;
            TagPreview::StartTag(tag_name_info)
        }
    }

    fn get_feedback_for_tag(&mut self, tag_preview: &TagPreview) -> (r: Result<TreeBuilderFeedback, ParsingAmbiguityError>)
        ensures
            final(self).offsets_kept(old(self)),
            match *tag_preview {
                TagPreview::StartTag(i) => match guard_start(old(self)@.guard, i.name_hash) {
                    Err(e) => r == Err::<TreeBuilderFeedback, ParsingAmbiguityError>(e) && final(self)@ == old(self)@,
                    Ok(g) => {
                        let (ns, fb) = sim_start(old(self)@.ns, i.name_hash);
                        r == Ok::<TreeBuilderFeedback, ParsingAmbiguityError>(fb)
                            && final(self)@ == (Model { guard: g, ns: ns, ..old(self)@ })
                    },
                },
                TagPreview::EndTag(i) => {
                    let (ns, fb) = sim_end(old(self)@.ns, i.name_hash);
                    r == Ok::<TreeBuilderFeedback, ParsingAmbiguityError>(fb)
                        && final(self)@ == (Model { guard: guard_end(old(self)@.guard, i.name_hash), ns: ns, ..old(self)@ })
                },
            },
    {
        match *tag_preview {
            TagPreview::StartTag(info) => {
                match self.feedback_providers.ambiguity_guard.track_start_tag(info.name_hash) {
                    Err(e) => Err(e),
                    Ok(()) => Ok(self.feedback_providers.tree_builder_simulator.get_feedback_for_start_tag_name(info.name_hash)),
                }
            },
            TagPreview::EndTag(info) => {
                self.feedback_providers.ambiguity_guard.track_end_tag(info.name_hash);
                Ok(self.feedback_providers.tree_builder_simulator.get_feedback_for_end_tag_name(info.name_hash))
            },
        }
    }

    fn handle_tree_builder_feedback(&mut self, feedback: TreeBuilderFeedback, tag_start: usize) -> (r: ParsingLoopDirective)
        ensures
            final(self).offsets_kept(old(self)),
            final(self)@ == apply_feedback(old(self)@, feedback),
            r == match feedback {
                TreeBuilderFeedback::RequestLexUnit(req) => ParsingLoopDirective::Break(
                    ParsingLoopTerminationReason::LexUnitRequiredForAdjustment(Bookmark { pos: tag_start, request: req })),
                _ => ParsingLoopDirective::Proceed,
            },
    {
        match feedback {
            TreeBuilderFeedback::SwitchTextParsingMode(mode) => {
                // The tag is still being scanned: the switch waits for its end.
                self.pending_text_parsing_mode_change = Some(mode);
                ParsingLoopDirective::Proceed
            },
            TreeBuilderFeedback::SetAllowCdata(allow_cdata) => {
                self.allow_cdata = allow_cdata;
                ParsingLoopDirective::Proceed
            },
            TreeBuilderFeedback::RequestLexUnit(request) => {
                self.halt = Some(Halt::LexUnitRequired(request));
                ParsingLoopDirective::Break(ParsingLoopTerminationReason::LexUnitRequiredForAdjustment(
                    Bookmark { pos: tag_start, request },
                ))
            },
            TreeBuilderFeedback::NoAction => ParsingLoopDirective::Proceed,
        }
    }

    fn text_state(mode: TextParsingMode) -> (r: EagerState)
        ensures
            r == text_state(mode),
    {
        match mode {
            TextParsingMode::Data => EagerState::Data,
            TextParsingMode::PlainText => EagerState::PlainText,
            TextParsingMode::CDataSection => EagerState::CdataSection(0),
            TextParsingMode::ScriptData => EagerState::ScriptData,
            _ => EagerState::RawData,
        }
    }

    /// The tag is complete: applies the staged mode change.
    fn finish_tag(&mut self)
        ensures
            final(self)@ == finish_tag(old(self)@),
            final(self).input_cursor == old(self).input_cursor,
            final(self).bookmark_pos == old(self).bookmark_pos,
            final(self).last_text_parsing_mode_change == old(self).last_text_parsing_mode_change,
            final(self).tag_start is None,
    {
        let mode = match self.pending_text_parsing_mode_change {
            Some(m) => m,
            None => TextParsingMode::Data,
        };
        self.state = Self::text_state(mode);
        self.pending_text_parsing_mode_change = None;
        self.tag_start = None;
    }

    /// The tag name ended on `c`, the byte under the cursor.
    fn emit_tag_preview(&mut self, c: u8, Ghost(input): Ghost<Seq<u8>>) -> (r: Option<TagPreview>)
        requires
            old(self).wf(input),
            is_name_state(old(self).state),
            old(self).halt is None,
            old(self).input_cursor.pos < input.len(),
        ensures
            (final(self)@, opt_events(r, input)) == name_end(old(self)@, c),
            final(self).input_cursor == old(self).input_cursor,
            final(self).last_text_parsing_mode_change == old(self).last_text_parsing_mode_change,
            final(self).bookmark_pos == if final(self).halt matches Some(Halt::LexUnitRequired(_)) {
                old(self).tag_start.unwrap()
            } else {
                old(self).bookmark_pos
            },
            final(self).wf(input),
            r matches Some(p) ==> p.name_range_within(input.len()),
    {
        let ghost m = self@;
        let preview = self.create_tag_preview();
        assert(preview_event(preview, input) == (PreviewEvent { is_end: m.is_in_end_tag, name: m.name, hash: m.tag_name_hash }));
        match self.get_feedback_for_tag(&preview) {
            Err(e) => {
                self.halt = Some(Halt::Ambiguity(e));
                None
            },
            Ok(feedback) => {
                let tag_start = self.tag_start.unwrap();
                let directive = self.handle_tree_builder_feedback(feedback, tag_start);
                if let ParsingLoopDirective::Break(_) = directive {
                    self.bookmark_pos = tag_start;
                }
                if c == 62 {
                    self.finish_tag();
                } else {
                    self.state = EagerState::AttrArea;
                }
                Some(preview)
            },
        }
    }
}

fn is_whitespace(c: u8) -> (r: bool)
    ensures
        r == is_ws(c),
{
    c == 9 || c == 10 || c == 12 || c == 13 || c == 32
}

fn cdata_byte_at(k: u8) -> (r: u8)
    ensures
        r == cdata_byte(k),
{
    if k == 0 || k == 6 { 91 } else if k == 1 { 67 } else if k == 2 || k == 4 { 68 } else if k == 3 { 65 } else { 84 }
}

impl EagerStateMachine {
    fn goto(&mut self, s: EagerState)
        ensures
            final(self)@ == goto(old(self)@, s),
            final(self).offsets_kept(old(self)),
    {
        self.state = s;
    }

    /// Hands `c`, the byte at `pos`, back to the text of kind `k`.
    fn reconsume_text(&mut self, k: TextKind, c: u8, pos: usize)
        requires
            pos >= old(self).input_cursor.pos,
        ensures
            final(self)@ == reconsume_text(old(self)@, k, c),
            final(self).input_cursor == old(self).input_cursor,
            final(self).tag_name_start == old(self).tag_name_start,
            final(self).last_text_parsing_mode_change == old(self).last_text_parsing_mode_change,
            final(self).tag_start == if c == 60 { Some(pos) } else { None::<usize> },
    {
        match k {
            TextKind::Raw => {
                self.tag_start = if c == 60 { Some(pos) } else { None };
                self.goto(if c == 60 { EagerState::RawLt } else { EagerState::RawData });
            },
            TextKind::Script => {
                self.tag_start = if c == 60 { Some(pos) } else { None };
                self.goto(if c == 60 { EagerState::ScriptLt } else { EagerState::ScriptData });
            },
            TextKind::ScriptEscaped => self.escaped_on(0, c, pos),
        }
    }

    fn escaped_on(&mut self, d: u8, c: u8, pos: usize)
        ensures
            final(self)@ == escaped_on(old(self)@, d, c),
            final(self).input_cursor == old(self).input_cursor,
            final(self).tag_name_start == old(self).tag_name_start,
            final(self).last_text_parsing_mode_change == old(self).last_text_parsing_mode_change,
            final(self).tag_start == if c == 60 { Some(pos) } else { None::<usize> },
    {
        self.tag_start = if c == 60 { Some(pos) } else { None };
        if c == 45 {
            self.goto(EagerState::ScriptEscaped(if d < 2 { d + 1 } else { 2 }));
        } else if c == 60 {
            self.goto(EagerState::ScriptEscapedLt);
        } else if c == 62 && d >= 2 {
            self.goto(EagerState::ScriptData);
        } else {
            self.goto(EagerState::ScriptEscaped(0));
        }
    }

    fn double_escaped_on(&mut self, d: u8, c: u8)
        ensures
            final(self)@ == double_escaped_on(old(self)@, d, c),
            final(self).input_cursor == old(self).input_cursor,
            final(self).tag_name_start == old(self).tag_name_start,
            final(self).last_text_parsing_mode_change == old(self).last_text_parsing_mode_change,
            final(self).tag_start is None,
    {
        self.tag_start = None;
        if c == 45 {
            self.goto(EagerState::ScriptDoubleEscaped(if d < 2 { d + 1 } else { 2 }));
        } else if c == 60 {
            self.goto(EagerState::ScriptDoubleEscapedLt);
        } else if c == 62 && d >= 2 {
            self.goto(EagerState::ScriptData);
        } else {
            self.goto(EagerState::ScriptDoubleEscaped(0));
        }
    }

    /// The script-data transitions, which emit nothing.
    fn step_script(&mut self, c: u8, pos: usize)
        requires
            pos == old(self).input_cursor.pos,
            old(self).tag_start matches Some(ts) ==> ts <= pos,
            in_tag_state(old(self).state) ==> old(self).tag_start is Some,
            match old(self).state {
                EagerState::ScriptData | EagerState::ScriptLt | EagerState::ScriptEscapeStart(_)
                | EagerState::ScriptEscaped(_) | EagerState::ScriptEscapedLt
                | EagerState::ScriptDoubleEscapeStart | EagerState::ScriptDoubleEscaped(_)
                | EagerState::ScriptDoubleEscapedLt | EagerState::ScriptDoubleEscapeEnd => true,
                _ => false,
            },
        ensures
            final(self)@ == step_plain(old(self)@, c),
            final(self).input_cursor == old(self).input_cursor,
            final(self).tag_name_start == old(self).tag_name_start,
            final(self).last_text_parsing_mode_change == old(self).last_text_parsing_mode_change,
            !is_name_state(final(self).state),
            final(self).tag_start matches Some(ts) ==> ts <= pos,
            in_tag_state(final(self).state) ==> final(self).tag_start is Some,
    {
        match self.state {
            EagerState::ScriptData => {
                if c == 60 {
                    self.tag_start = Some(pos);
                    self.goto(EagerState::ScriptLt);
                }
            },
            EagerState::ScriptLt => {
                if c == 47 {
                    self.goto(EagerState::RawEndTagOpen(TextKind::Script));
                } else if c == 33 {
                    self.tag_start = None;
                    self.goto(EagerState::ScriptEscapeStart(0));
                } else {
                    self.reconsume_text(TextKind::Script, c, pos);
                }
            },
            EagerState::ScriptEscapeStart(k) => {
                if c == 45 {
                    self.goto(if k == 0 { EagerState::ScriptEscapeStart(1) } else { EagerState::ScriptEscaped(2) });
                } else {
                    self.reconsume_text(TextKind::Script, c, pos);
                }
            },
            EagerState::ScriptEscaped(d) => self.escaped_on(d, c, pos),
            EagerState::ScriptEscapedLt => {
                if c == 47 {
                    self.goto(EagerState::RawEndTagOpen(TextKind::ScriptEscaped));
                } else if is_alpha(c) {
                    self.tag_start = None;
                    self.tag_name_hash = update_hash(Some(0), c);
                    self.goto(EagerState::ScriptDoubleEscapeStart);
                } else {
                    self.escaped_on(0, c, pos);
                }
            },
            EagerState::ScriptDoubleEscapeStart => {
                if is_whitespace(c) || c == 47 || c == 62 {
                    self.goto(if self.tag_name_hash == Some(SCRIPT) {
                        EagerState::ScriptDoubleEscaped(0)
                    } else {
                        EagerState::ScriptEscaped(0)
                    });
                } else if is_alpha(c) {
                    self.tag_name_hash = update_hash(self.tag_name_hash, c);
                } else {
                    self.escaped_on(0, c, pos);
                }
            },
            EagerState::ScriptDoubleEscaped(d) => self.double_escaped_on(d, c),
            EagerState::ScriptDoubleEscapedLt => {
                if c == 47 {
                    self.tag_name_hash = Some(0);
                    self.goto(EagerState::ScriptDoubleEscapeEnd);
                } else {
                    self.double_escaped_on(0, c);
                }
            },
            EagerState::ScriptDoubleEscapeEnd => {
                if is_whitespace(c) || c == 47 || c == 62 {
                    self.goto(if self.tag_name_hash == Some(SCRIPT) {
                        EagerState::ScriptEscaped(0)
                    } else {
                        EagerState::ScriptDoubleEscaped(0)
                    });
                } else if is_alpha(c) {
                    self.tag_name_hash = update_hash(self.tag_name_hash, c);
                } else {
                    self.double_escaped_on(0, c);
                }
            },
            _ => {},
        }
    }

    /// Scans the byte under the cursor and moves past it.
    fn step(&mut self, input: &[u8]) -> (r: Option<TagPreview>)
        requires
            old(self).wf(input@),
            old(self).halt is None,
            old(self).input_cursor.pos < input@.len(),
        ensures
            final(self).wf(input@),
            final(self).input_cursor.pos == old(self).input_cursor.pos + 1,
            final(self).last_text_parsing_mode_change == old(self).last_text_parsing_mode_change,
            (final(self)@, opt_events(r, input@)) == step(old(self)@, input@[old(self).input_cursor.pos as int]),
            r matches Some(p) ==> p.name_range_within(input@.len()),
    {
        let pos = self.input_cursor.pos;
        let c = input[pos];
        let mut out: Option<TagPreview> = None;
        match self.state {
            EagerState::TagName => {
                if is_whitespace(c) || c == 47 || c == 62 {
                    out = self.emit_tag_preview(c, Ghost(input@));
                } else {
                    self.tag_name_hash = update_hash(self.tag_name_hash, c);
                    self.name = Ghost(self.name@.push(c));
                }
            },
            EagerState::RawEndTagName(k) => {
                if is_alpha(c) {
                    self.tag_name_hash = update_hash(self.tag_name_hash, c);
                    self.name = Ghost(self.name@.push(c));
                } else if (is_whitespace(c) || c == 47 || c == 62) && self.tag_name_hash.is_some()
                    && self.tag_name_hash == self.last_start_tag_name_hash {
                    self.is_in_end_tag = true;
                    out = self.emit_tag_preview(c, Ghost(input@));
                } else {
                    self.reconsume_text(k, c, pos);
                }
            },
            EagerState::ScriptData | EagerState::ScriptLt | EagerState::ScriptEscapeStart(_)
            | EagerState::ScriptEscaped(_) | EagerState::ScriptEscapedLt
            | EagerState::ScriptDoubleEscapeStart | EagerState::ScriptDoubleEscaped(_)
            | EagerState::ScriptDoubleEscapedLt | EagerState::ScriptDoubleEscapeEnd => {
                self.step_script(c, pos);
            },
            _ => {
                self.step_markup(c, pos);
            },
        }
        self.input_cursor.pos = pos + 1;
        proof {
            if is_name_state(self.state) && self.halt is None {
                assert(input@.subrange(self.tag_name_start as int, pos + 1)
                    =~= input@.subrange(self.tag_name_start as int, pos as int).push(c));
                if self.tag_name_start == pos {
                    assert(input@.subrange(pos as int, pos as int) =~= Seq::<u8>::empty());
                }
            }
        }
        out
    }

    /// The remaining transitions that emit nothing.
    fn step_markup(&mut self, c: u8, pos: usize)
        requires
            pos == old(self).input_cursor.pos,
            old(self).tag_start matches Some(ts) ==> ts <= pos,
            in_tag_state(old(self).state) ==> old(self).tag_start is Some,
            match old(self).state {
                EagerState::TagName | EagerState::RawEndTagName(_) | EagerState::ScriptData
                | EagerState::ScriptLt | EagerState::ScriptEscapeStart(_) | EagerState::ScriptEscaped(_)
                | EagerState::ScriptEscapedLt | EagerState::ScriptDoubleEscapeStart
                | EagerState::ScriptDoubleEscaped(_) | EagerState::ScriptDoubleEscapedLt
                | EagerState::ScriptDoubleEscapeEnd => false,
                _ => true,
            },
        ensures
            final(self)@ == step_plain(old(self)@, c),
            final(self).input_cursor == old(self).input_cursor,
            final(self).last_text_parsing_mode_change == old(self).last_text_parsing_mode_change,
            final(self).tag_start matches Some(ts) ==> ts <= pos,
            in_tag_state(final(self).state) ==> final(self).tag_start is Some,
            is_name_state(final(self).state) ==> {
                &&& final(self).tag_start matches Some(ts)
                &&& ts <= final(self).tag_name_start == pos
                &&& final(self)@.name == Seq::<u8>::empty().push(c)
            },
    {
        match self.state {
            EagerState::Data => {
                if c == 60 {
                    self.tag_start = Some(pos);
                    self.goto(EagerState::TagOpen);
                }
            },
            EagerState::TagOpen => {
                if c == 47 {
                    self.goto(EagerState::EndTagOpen);
                } else if is_alpha(c) {
                    self.start_name(EagerState::TagName, false, c);
                } else if c == 33 {
                    self.tag_start = None;
                    self.goto(EagerState::MarkupDeclOpen);
                } else if c == 63 {
                    self.tag_start = None;
                    self.goto(EagerState::BogusComment);
                } else if c == 60 {
                    self.tag_start = Some(pos);
                } else {
                    self.tag_start = None;
                    self.goto(EagerState::Data);
                }
            },
            EagerState::EndTagOpen => {
                if is_alpha(c) {
                    self.start_name(EagerState::TagName, true, c);
                } else if c == 62 {
                    self.tag_start = None;
                    self.goto(EagerState::Data);
                } else {
                    self.tag_start = None;
                    self.goto(EagerState::BogusComment);
                }
            },
            EagerState::AttrArea => {
                if c == 62 {
                    self.finish_tag();
                } else if c == 61 {
                    self.goto(EagerState::AfterEq);
                }
            },
            EagerState::AfterEq => {
                if is_whitespace(c) {
                } else if c == 34 || c == 39 {
                    self.closing_quote = c;
                    self.goto(EagerState::AttrValueQuoted);
                } else if c == 62 {
                    self.finish_tag();
                } else {
                    self.goto(EagerState::AttrValueUnquoted);
                }
            },
            EagerState::AttrValueQuoted => {
                if c == self.closing_quote {
                    self.goto(EagerState::AttrArea);
                }
            },
            EagerState::AttrValueUnquoted => {
                if is_whitespace(c) {
                    self.goto(EagerState::AttrArea);
                } else if c == 62 {
                    self.finish_tag();
                }
            },
            EagerState::MarkupDeclOpen => {
                if c == 45 {
                    self.goto(EagerState::MarkupDeclDash);
                } else if c == 91 && self.allow_cdata {
                    self.goto(EagerState::CdataOpen(1));
                } else if c == 62 {
                    self.goto(EagerState::Data);
                } else {
                    self.goto(EagerState::BogusComment);
                }
            },
            EagerState::MarkupDeclDash => {
                if c == 45 {
                    self.goto(EagerState::CommentStart);
                } else if c == 62 {
                    self.goto(EagerState::Data);
                } else {
                    self.goto(EagerState::BogusComment);
                }
            },
            EagerState::CommentStart => {
                if c == 45 {
                    self.goto(EagerState::CommentStartDash);
                } else if c == 62 {
                    self.goto(EagerState::Data);
                } else {
                    self.goto(EagerState::Comment(0));
                }
            },
            EagerState::CommentStartDash => {
                if c == 45 {
                    self.goto(EagerState::Comment(2));
                } else if c == 62 {
                    self.goto(EagerState::Data);
                } else {
                    self.goto(EagerState::Comment(0));
                }
            },
            EagerState::Comment(d) => {
                if c == 45 {
                    self.goto(EagerState::Comment(if d == 3 { 1 } else if d < 2 { d + 1 } else { 2 }));
                } else if c == 33 && d == 2 {
                    self.goto(EagerState::Comment(3));
                } else if c == 62 && d >= 2 {
                    self.goto(EagerState::Data);
                } else {
                    self.goto(EagerState::Comment(0));
                }
            },
            EagerState::CdataOpen(k) => {
                if k < 7 && c == cdata_byte_at(k) {
                    self.goto(if k >= 6 { EagerState::CdataSection(0) } else { EagerState::CdataOpen(k + 1) });
                } else if c == 62 {
                    self.goto(EagerState::Data);
                } else {
                    self.goto(EagerState::BogusComment);
                }
            },
            EagerState::CdataSection(b) => {
                if c == 93 {
                    self.goto(EagerState::CdataSection(if b < 2 { b + 1 } else { 2 }));
                } else if c == 62 && b >= 2 {
                    self.goto(EagerState::Data);
                } else {
                    self.goto(EagerState::CdataSection(0));
                }
            },
            EagerState::BogusComment => {
                if c == 62 {
                    self.goto(EagerState::Data);
                }
            },
            EagerState::RawData => {
                if c == 60 {
                    self.tag_start = Some(pos);
                    self.goto(EagerState::RawLt);
                }
            },
            EagerState::RawLt => {
                if c == 47 {
                    self.goto(EagerState::RawEndTagOpen(TextKind::Raw));
                } else {
                    self.reconsume_text(TextKind::Raw, c, pos);
                }
            },
            EagerState::RawEndTagOpen(k) => {
                if is_alpha(c) {
                    self.start_name(EagerState::RawEndTagName(k), false, c);
                } else {
                    self.reconsume_text(k, c, pos);
                }
            },
            _ => {},
        }
    }

    /// Enters a tag name whose first byte is the one under the cursor.
    fn start_name(&mut self, s: EagerState, is_end: bool, c: u8)
        requires
            is_name_state(s),
        ensures
            final(self)@ == start_name(old(self)@, s, is_end, c),
            final(self).input_cursor == old(self).input_cursor,
            final(self).tag_start == old(self).tag_start,
            final(self).tag_name_start == old(self).input_cursor.pos,
            final(self).last_text_parsing_mode_change == old(self).last_text_parsing_mode_change,
    {
        self.state = s;
        self.is_in_end_tag = is_end;
        self.tag_name_hash = update_hash(Some(0), c);
        self.tag_name_start = self.input_cursor.pos;
        self.name = Ghost(Seq::empty().push(c));
    }
}

impl EagerStateMachine {
    /// Scans `input` from the cursor on, until its end or until the scan halts.
    pub fn run(&mut self, input: &[u8]) -> (r: (Vec<TagPreview>, ParsingLoopTerminationReason))
        requires
            old(self).wf(input@),
        ensures
            final(self).wf(input@),
            final(self).last_text_parsing_mode_change() == old(self).last_text_parsing_mode_change(),
            (final(self)@, preview_events(r.0@, input@))
                == run_model(old(self)@, input@.subrange(old(self).cursor() as int, input@.len() as int)),
            forall|i: int| 0 <= i < r.0@.len() ==> (#[trigger] r.0@[i]).name_range_within(input@.len()),
            final(self)@.halt is None ==> final(self).cursor() == input@.len(),
            r.1 == match final(self)@.halt {
                None => ParsingLoopTerminationReason::EndOfInput {
                    blocked_byte_count: match final(self).tag_start_spec() {
                        Some(ts) => (input@.len() - ts) as usize,
                        None => 0usize,
                    },
                },
                Some(Halt::Ambiguity(e)) => ParsingLoopTerminationReason::Ambiguity(e),
                Some(Halt::LexUnitRequired(request)) => ParsingLoopTerminationReason::LexUnitRequiredForAdjustment(
                    Bookmark { pos: final(self).bookmark_spec(), request }),
            },
    {
        let ghost m0 = self@;
        let ghost c0 = self.input_cursor.pos as int;
        let mut out: Vec<TagPreview> = Vec::new();
        proof {
            assert(input@.subrange(c0, c0) =~= Seq::<u8>::empty());
            assert(preview_events(out@, input@) =~= Seq::<PreviewEvent>::empty());
        }
        while self.input_cursor.pos < input.len() && self.halt.is_none()
            invariant
                self.wf(input@),
                self.last_text_parsing_mode_change == old(self).last_text_parsing_mode_change,
                0 <= c0 <= self.input_cursor.pos <= input@.len(),
                (self@, preview_events(out@, input@)) == run_model(m0, input@.subrange(c0, self.input_cursor.pos as int)),
                forall|i: int| 0 <= i < out@.len() ==> (#[trigger] out@[i]).name_range_within(input@.len()),
            decreases input@.len() - self.input_cursor.pos,
        {
            let ghost pos = self.input_cursor.pos as int;
            let ghost before = preview_events(out@, input@);
            let r = self.step(input);
            proof {
                let s1 = input@.subrange(c0, pos + 1);
                assert(s1.drop_last() =~= input@.subrange(c0, pos));
                assert(s1.last() == input@[pos]);
            }
            match r {
                Some(p) => {
                    out.push(p);
                    proof {
                        assert(preview_events(out@, input@) =~= before + seq![preview_event(p, input@)]);
                    }
                },
                None => {
                    proof {
                        assert(before + Seq::<PreviewEvent>::empty() =~= before);
                    }
                },
            }
        }
        proof {
            let done = input@.subrange(c0, self.input_cursor.pos as int);
            let rest = input@.subrange(self.input_cursor.pos as int, input@.len() as int);
            assert(done + rest =~= input@.subrange(c0, input@.len() as int));
            lemma_chunk_boundary_invariance(m0, done, rest);
            if self.halt.is_some() {
                lemma_halted_absorbs(self@, rest);
                assert(preview_events(out@, input@) + Seq::<PreviewEvent>::empty() =~= preview_events(out@, input@));
            } else {
                assert(rest =~= Seq::<u8>::empty());
                assert(preview_events(out@, input@) + Seq::<PreviewEvent>::empty() =~= preview_events(out@, input@));
            }
        }
        let reason = match self.halt {
            None => ParsingLoopTerminationReason::EndOfInput {
                blocked_byte_count: self.get_blocked_byte_count(input.len()),
            },
            Some(Halt::Ambiguity(e)) => ParsingLoopTerminationReason::Ambiguity(e),
            Some(Halt::LexUnitRequired(request)) => ParsingLoopTerminationReason::LexUnitRequiredForAdjustment(
                Bookmark { pos: self.bookmark_pos, request },
            ),
        };
        (out, reason)
    }
}

} // verus!
