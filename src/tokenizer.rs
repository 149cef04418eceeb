use vstd::prelude::*;
use crate::eager::{
    initial_model, lemma_halted_absorbs, preview_event, preview_events, run_model, EagerStateMachine,
    FeedbackProviders, Halt, Model, PreviewEvent, TagPreview, resume_model,
};
use crate::tree_builder_simulator::TagFacts;

verus! {

/// A tag preview that owns its name, so that it outlives the chunk it came from.
#[derive(Clone, Debug, PartialEq, Eq)]
pub struct OwnedTagPreview {
    pub is_end_tag: bool,
    pub name: Vec<u8>,
    pub name_hash: Option<u64>,
}

pub open spec fn owned_event(p: OwnedTagPreview) -> PreviewEvent {
    PreviewEvent { is_end: p.is_end_tag, name: p.name@, hash: p.name_hash }
}

pub open spec fn owned_events(ps: Seq<OwnedTagPreview>) -> Seq<PreviewEvent> {
    ps.map_values(|p: OwnedTagPreview| owned_event(p))
}

/// Feeds a document to the eager scanner chunk by chunk, keeping the bytes
/// of an open tag for the next chunk.
pub struct Tokenizer {
    machine: EagerStateMachine,
    blocked: Vec<u8>,
}

fn copy_range(buf: &Vec<u8>, start: usize, end: usize) -> (r: Vec<u8>)
    requires
        start <= end <= buf@.len(),
    ensures
        r@ == buf@.subrange(start as int, end as int),
{
    let mut r: Vec<u8> = Vec::new();
    let mut i: usize = start;
    while i < end
        invariant
            start <= i <= end <= buf@.len(),
            r@ == buf@.subrange(start as int, i as int),
        decreases end - i,
    {
        r.push(buf[i]);
        i += 1;
        assert(r@ =~= buf@.subrange(start as int, i as int));
    }
    r
}

impl Tokenizer {
    pub closed spec fn view(&self) -> Model {
        self.machine@
    }

    /// The bytes kept from the previous chunks, to be scanned on with the next one.
    pub closed spec fn blocked_bytes(&self) -> Seq<u8> {
        self.blocked@
    }

    pub closed spec fn wf(&self) -> bool {
        &&& self.machine.wf(self.blocked@)
        &&& self.machine@.halt is None ==> self.machine.cursor() == self.blocked@.len()
    }

    pub fn new() -> (r: Tokenizer)
        ensures
            r.wf(),
            r@ == initial_model(),
            r.blocked_bytes() == Seq::<u8>::empty(),
    {
        let machine = EagerStateMachine::new(FeedbackProviders::new());
        Tokenizer { machine, blocked: Vec::new() }
    }

    /// Scans the next chunk and appends to `out` the previews it completes.
    /// Stops with the reason when the guard rejects a tag (for good) or a
    /// tag needs full tokenization (until `resume`).
    pub fn write(&mut self, chunk: &[u8], out: &mut Vec<OwnedTagPreview>) -> (r: Result<(), Halt>)
        requires
            old(self).wf(),
        ensures
            final(self).wf(),
            final(self)@ == run_model(old(self)@, chunk@).0,
            owned_events(final(out)@) == owned_events(old(out)@) + run_model(old(self)@, chunk@).1,
            r == match final(self)@.halt {
                None => Ok::<(), Halt>(()),
                Some(h) => Err(h),
            },
            final(self)@.halt is None ==> {
                let all = old(self).blocked_bytes() + chunk@;
                final(self).blocked_bytes() == all.subrange(all.len() - final(self).blocked_bytes().len(), all.len() as int)
            },
    {
        if let Some(h) = self.machine.is_halted() {
            proof {
                lemma_halted_absorbs(self@, chunk@);
                assert(owned_events(out@) + Seq::<PreviewEvent>::empty() =~= owned_events(out@));
            }
            return Err(h);
        }
        let mut buf: Vec<u8> = Vec::new();
        std::mem::swap(&mut buf, &mut self.blocked);
        let ghost kept = buf@;
        let mut i: usize = 0;
        while i < chunk.len()
            invariant
                i <= chunk@.len(),
                buf@ == kept + chunk@.subrange(0, i as int),
            decreases chunk@.len() - i,
        {
            buf.push(chunk[i]);
            i += 1;
            assert(buf@ =~= kept + chunk@.subrange(0, i as int));
        }
        proof {
            assert(chunk@.subrange(0, chunk@.len() as int) =~= chunk@);
            self.machine.lemma_wf_extend(kept, chunk@);
            assert(buf@.subrange(kept.len() as int, buf@.len() as int) =~= chunk@);
        }
        self.scan_buffer(buf, out)
    }

    /// Scans `buf` from the machine's cursor on, and keeps what an open tag
    /// still needs for the next chunk.
    fn scan_buffer(&mut self, buf: Vec<u8>, out: &mut Vec<OwnedTagPreview>) -> (r: Result<(), Halt>)
        requires
            old(self).machine.wf(buf@),
        ensures
            final(self).wf(),
            final(self)@ == run_model(old(self)@, buf@.subrange(old(self).machine.cursor() as int, buf@.len() as int)).0,
            owned_events(final(out)@) == owned_events(old(out)@)
                + run_model(old(self)@, buf@.subrange(old(self).machine.cursor() as int, buf@.len() as int)).1,
            r == match final(self)@.halt {
                None => Ok::<(), Halt>(()),
                Some(h) => Err(h),
            },
            final(self)@.halt is None ==>
                final(self).blocked_bytes() == buf@.subrange(buf@.len() - final(self).blocked_bytes().len(), buf@.len() as int),
    {
        let (previews, _reason) = self.machine.run(buf.as_slice());
        let ghost out0 = owned_events(out@);
        let mut j: usize = 0;
        while j < previews.len()
            invariant
                j <= previews@.len(),
                forall|t: int| 0 <= t < previews@.len() ==> (#[trigger] previews@[t]).name_range_within(buf@.len()),
                owned_events(out@) == out0 + preview_events(previews@.take(j as int), buf@),
            decreases previews@.len() - j,
        {
            let p = previews[j];
            let range = p.name_range();
            let name = copy_range(&buf, range.start, range.end);
            let owned = OwnedTagPreview { is_end_tag: p.is_end_tag(), name, name_hash: p.name_hash() };
            let ghost before = owned_events(out@);
            out.push(owned);
            proof {
                assert(owned_event(owned) == preview_event(p, buf@));
                assert(owned_events(out@) =~= before.push(owned_event(owned)));
                assert(previews@.take(j + 1) =~= previews@.take(j as int).push(p));
                assert(preview_events(previews@.take(j + 1), buf@)
                    =~= preview_events(previews@.take(j as int), buf@).push(preview_event(p, buf@)));
            }
            j += 1;
        }
        proof {
            assert(previews@.take(previews@.len() as int) =~= previews@);
        }
        proof {
            self.machine.lemma_wf_bounds(buf@);
        }
        if let Some(h) = self.machine.is_halted() {
            self.blocked = buf;
            return Err(h);
        }
        let k = self.machine.get_blocked_byte_count(buf.len());
        let len = buf.len();
        self.blocked = copy_range(&buf, len - k, len);
        self.machine.adjust_for_next_input();
        proof {
            assert(self.machine.wf(buf@.subrange(len - k, len as int)));
        }
        Ok(())
    }

    /// The bytes kept that the scan has not reached yet: after a request
    /// for full tokenization, the rest of the chunk it stopped in.
    pub closed spec fn unscanned(&self) -> Seq<u8> {
        self.blocked@.subrange(self.machine.cursor() as int, self.blocked@.len() as int)
    }

    /// Takes up the scan after full tokenization answered a request with
    /// `facts`, and scans the rest of the chunk it stopped in.
    pub fn resume(&mut self, facts: TagFacts, out: &mut Vec<OwnedTagPreview>) -> (r: Result<(), Halt>)
        requires
            old(self).wf(),
        ensures
            final(self).wf(),
            final(self)@ == run_model(resume_model(old(self)@, facts), old(self).unscanned()).0,
            owned_events(final(out)@) == owned_events(old(out)@)
                + run_model(resume_model(old(self)@, facts), old(self).unscanned()).1,
            r == match final(self)@.halt {
                None => Ok::<(), Halt>(()),
                Some(h) => Err(h),
            },
    {
        proof {
            self.machine.lemma_wf_bounds(self.blocked@);
        }
        match self.machine.is_halted() {
            Some(Halt::LexUnitRequired(_)) => {},
            other => {
                proof {
                    if other is None {
                        assert(self.unscanned() =~= Seq::<u8>::empty());
                    } else {
                        lemma_halted_absorbs(self@, self.unscanned());
                    }
                    assert(owned_events(out@) + Seq::<PreviewEvent>::empty() =~= owned_events(out@));
                }
                return match other {
                    None => Ok(()),
                    Some(h) => Err(h),
                };
            },
        }
        self.machine.resume(facts);
        let mut buf: Vec<u8> = Vec::new();
        std::mem::swap(&mut buf, &mut self.blocked);
        self.scan_buffer(buf, out)
    }

    /// Signals the end of the document. An unterminated tag is dropped
    /// without a preview; only an earlier halt is reported.
    pub fn end(self) -> (r: Result<(), Halt>)
        ensures
            r == match self@.halt {
                None => Ok::<(), Halt>(()),
                Some(h) => Err(h),
            },
    {
        match self.machine.is_halted() {
            None => Ok(()),
            Some(h) => Err(h),
        }
    }
}

} // verus!
