use vstd::prelude::*;
use crate::tag_name::{
    FRAMESET, IFRAME, INPUT, KEYGEN, NOEMBED, NOFRAMES, NOSCRIPT, PLAINTEXT, SCRIPT, SELECT, STYLE,
    TEMPLATE, TEXTAREA, TITLE, XMP,
};

verus! {

/// What the guard remembers of the tags seen so far.
#[derive(Clone, Copy, Debug, PartialEq, Eq, Structural)]
pub enum GuardState {
    Default,
    InSelect,
    /// Inside `depth` nested `<template>` elements within a `<select>`.
    InTemplateInSelect(u64),
    InOrAfterFrameset,
}

/// A start tag whose text-parsing mode cannot be told without a full tree builder.
#[derive(Clone, Copy, Debug, PartialEq, Eq, Structural)]
pub struct ParsingAmbiguityError {
    pub on_tag_name_hash: u64,
}

pub open spec fn is_tag(h: Option<u64>, t: u64) -> bool {
    h == Some(t)
}

/// Tags that would switch the text-parsing mode in ordinary content.
pub open spec fn switches_text_mode(h: Option<u64>) -> bool {
    is_tag(h, TEXTAREA) || is_tag(h, TITLE) || is_tag(h, PLAINTEXT) || is_tag(h, SCRIPT)
        || is_tag(h, STYLE) || is_tag(h, IFRAME) || is_tag(h, XMP) || is_tag(h, NOEMBED)
        || is_tag(h, NOFRAMES) || is_tag(h, NOSCRIPT)
}

/// The guard's decision on a start tag: the next state, or the error.
pub open spec fn guard_start(g: GuardState, h: Option<u64>) -> Result<GuardState, ParsingAmbiguityError> {
    let err = Err(ParsingAmbiguityError { on_tag_name_hash: h.unwrap() });
    match g {
        GuardState::Default => {
            if is_tag(h, SELECT) {
                Ok(GuardState::InSelect)
            } else if is_tag(h, FRAMESET) {
                Ok(GuardState::InOrAfterFrameset)
            } else {
                Ok(g)
            }
        },
        GuardState::InSelect => {
            if is_tag(h, SELECT) || is_tag(h, TEXTAREA) || is_tag(h, INPUT) || is_tag(h, KEYGEN) {
                Ok(GuardState::Default)
            } else if is_tag(h, TEMPLATE) {
                Ok(GuardState::InTemplateInSelect(1))
            } else if !is_tag(h, SCRIPT) && switches_text_mode(h) {
                err
            } else {
                Ok(g)
            }
        },
        GuardState::InTemplateInSelect(depth) => {
            if is_tag(h, TEMPLATE) {
                Ok(GuardState::InTemplateInSelect(if depth < u64::MAX { (depth + 1) as u64 } else { depth }))
            } else if switches_text_mode(h) {
                err
            } else {
                Ok(g)
            }
        },
        GuardState::InOrAfterFrameset => {
            if !is_tag(h, NOFRAMES) && switches_text_mode(h) {
                err
            } else {
                Ok(g)
            }
        },
    }
}

/// The guard's state after an end tag.
pub open spec fn guard_end(g: GuardState, h: Option<u64>) -> GuardState {
    match g {
        GuardState::InSelect => if is_tag(h, SELECT) { GuardState::Default } else { g },
        GuardState::InTemplateInSelect(depth) => {
            if is_tag(h, TEMPLATE) {
                if depth <= 1 { GuardState::InSelect } else { GuardState::InTemplateInSelect((depth - 1) as u64) }
            } else {
                g
            }
        },
        _ => g,
    }
}

/// Flags start tags whose text-parsing mode a hash-only scan cannot be sure of.
#[derive(Debug)]
pub struct AmbiguityGuard {
    pub state: GuardState,
}

fn switches_mode(h: Option<u64>) -> (r: bool)
    ensures
        r == switches_text_mode(h),
{
    match h {
        None => false,
        Some(t) => t == TEXTAREA || t == TITLE || t == PLAINTEXT || t == SCRIPT || t == STYLE
            || t == IFRAME || t == XMP || t == NOEMBED || t == NOFRAMES || t == NOSCRIPT,
    }
}

impl AmbiguityGuard {
    pub fn new() -> (r: AmbiguityGuard)
        ensures
            r.state == GuardState::Default,
    {
        AmbiguityGuard { state: GuardState::Default }
    }

    /// Records a start tag; fails where the tag makes the scan ambiguous, and
    /// then leaves the state as it was.
    pub fn track_start_tag(&mut self, h: Option<u64>) -> (r: Result<(), ParsingAmbiguityError>)
        ensures
            match guard_start(old(self).state, h) {
                Ok(g) => r is Ok && final(self).state == g,
                Err(e) => r == Err::<(), ParsingAmbiguityError>(e) && final(self).state == old(self).state,
            },
    {
        match self.state {
            GuardState::Default => {
                if h == Some(SELECT) {
                    self.state = GuardState::InSelect;
                } else if h == Some(FRAMESET) {
                    self.state = GuardState::InOrAfterFrameset;
                }
            },
            GuardState::InSelect => {
                if h == Some(SELECT) || h == Some(TEXTAREA) || h == Some(INPUT) || h == Some(KEYGEN) {
                    self.state = GuardState::Default;
                } else if h == Some(TEMPLATE) {
                    self.state = GuardState::InTemplateInSelect(1);
                } else if h != Some(SCRIPT) && switches_mode(h) {
                    return Err(ParsingAmbiguityError { on_tag_name_hash: h.unwrap() });
                }
            },
            GuardState::InTemplateInSelect(depth) => {
                if h == Some(TEMPLATE) {
                    self.state = GuardState::InTemplateInSelect(depth.saturating_add(1));
                } else if switches_mode(h) {
                    return Err(ParsingAmbiguityError { on_tag_name_hash: h.unwrap() });
                }
            },
            GuardState::InOrAfterFrameset => {
                if h != Some(NOFRAMES) && switches_mode(h) {
                    return Err(ParsingAmbiguityError { on_tag_name_hash: h.unwrap() });
                }
            },
        }
        Ok(())
    }

    /// Records an end tag; never fails.
    pub fn track_end_tag(&mut self, h: Option<u64>)
        ensures
            final(self).state == guard_end(old(self).state, h),
    {
        match self.state {
            GuardState::InSelect => {
                if h == Some(SELECT) {
                    self.state = GuardState::Default;
                }
            },
            GuardState::InTemplateInSelect(depth) => {
                if h == Some(TEMPLATE) {
                    self.state = if depth <= 1 {
                        GuardState::InSelect
                    } else {
                        GuardState::InTemplateInSelect(depth - 1)
                    };
                }
            },
            _ => {},
        }
    }
}

} // verus!
