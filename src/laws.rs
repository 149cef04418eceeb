use vstd::prelude::*;
use crate::ambiguity_guard::{guard_end, guard_start, GuardState};
use crate::eager::{
    initial_model, lemma_chunk_boundary_invariance, run_model, step, EagerState, Model, PreviewEvent,
};
use crate::tree_builder_simulator::Namespace;
use crate::tag_name::{A, B, SCRIPT};

verus! {

/// The guard's state and its accept (true) or reject (false) decisions
/// after a sequence of tag previews, starting from `g`.
pub open spec fn guard_decisions(g: GuardState, tags: Seq<PreviewEvent>) -> (GuardState, Seq<bool>)
    decreases tags.len(),
{
    if tags.len() == 0 {
        (g, Seq::empty())
    } else {
        let (g1, d1) = guard_decisions(g, tags.drop_last());
        let t = tags.last();
        if t.is_end {
            (guard_end(g1, t.hash), d1.push(true))
        } else {
            match guard_start(g1, t.hash) {
                Ok(g2) => (g2, d1.push(true)),
                Err(_) => (g1, d1.push(false)),
            }
        }
    }
}

/// Two tag sequences that agree in each tag's kind and name hash get the
/// same guard decisions and leave the guard in the same state, whatever the
/// name bytes or where they came from: the decisions are a function of the
/// kinds and hashes alone.
pub proof fn lemma_guard_determinism(g: GuardState, t1: Seq<PreviewEvent>, t2: Seq<PreviewEvent>)
    requires
        t1.len() == t2.len(),
        forall|i: int| 0 <= i < t1.len() ==> (#[trigger] t1[i]).is_end == t2[i].is_end && t1[i].hash == t2[i].hash,
    ensures
        guard_decisions(g, t1) == guard_decisions(g, t2),
    decreases t1.len(),
{
    if t1.len() > 0 {
        assert forall|i: int| 0 <= i < t1.drop_last().len() implies
            (#[trigger] t1.drop_last()[i]).is_end == t2.drop_last()[i].is_end && t1.drop_last()[i].hash == t2.drop_last()[i].hash by {
            assert(t1.drop_last()[i] == t1[i] && t2.drop_last()[i] == t2[i]);
        }
        lemma_guard_determinism(g, t1.drop_last(), t2.drop_last());
        assert(t1.last() == t1[t1.len() - 1]);
    }
}

/// A staged mode change only ever waits inside a tag.
pub open spec fn pending_in_tag(m: Model) -> bool {
    m.pending is Some ==> (m.halt is Some || m.state == EagerState::AttrArea
        || m.state == EagerState::AfterEq || m.state == EagerState::AttrValueQuoted
        || m.state == EagerState::AttrValueUnquoted)
}

proof fn lemma_step_keeps_pending_in_tag(m: Model, c: u8)
    requires
        pending_in_tag(m),
    ensures
        pending_in_tag(step(m, c).0),
{
}

proof fn lemma_run_push(m: Model, s: Seq<u8>, c: u8)
    ensures
        run_model(m, s.push(c)).0 == step(run_model(m, s).0, c).0,
        run_model(m, s.push(c)).1 == run_model(m, s).1 + step(run_model(m, s).0, c).1,
{
    assert(s.push(c).drop_last() =~= s);
}

/// From the start of a document, whatever was scanned, a staged mode change
/// is only ever waiting inside a tag.
pub proof fn lemma_pending_in_tag(s: Seq<u8>)
    ensures
        pending_in_tag(run_model(initial_model(), s).0),
    decreases s.len(),
{
    if s.len() > 0 {
        lemma_pending_in_tag(s.drop_last());
        lemma_step_keeps_pending_in_tag(run_model(initial_model(), s.drop_last()).0, s.last());
    }
}

/// Wherever earlier input left the scanner in ordinary content, `<a></a>`
/// yields exactly a start-tag preview of `a` followed by an end-tag preview
/// of `a`: the end-tag flag is consumed by the preview that it marks.
pub proof fn lemma_end_tag_flag_reset(pre: Seq<u8>)
    requires
        run_model(initial_model(), pre).0.state == EagerState::Data,
        run_model(initial_model(), pre).0.halt is None,
    ensures
        run_model(run_model(initial_model(), pre).0, seq![60u8, 97, 62, 60, 47, 97, 62]).1 == seq![
            PreviewEvent { is_end: false, name: seq![97u8], hash: Some(A) },
            PreviewEvent { is_end: true, name: seq![97u8], hash: Some(A) },
        ],
{
    let m = run_model(initial_model(), pre).0;
    lemma_pending_in_tag(pre);
    let s0 = Seq::<u8>::empty();
    let s1 = s0.push(60);
    let s2 = s1.push(97);
    let s3 = s2.push(62);
    let s4 = s3.push(60);
    let s5 = s4.push(47);
    let s6 = s5.push(97);
    let s7 = s6.push(62);
    lemma_run_push(m, s0, 60);
    lemma_run_push(m, s1, 97);
    lemma_run_push(m, s2, 62);
    lemma_run_push(m, s3, 60);
    lemma_run_push(m, s4, 47);
    lemma_run_push(m, s5, 97);
    lemma_run_push(m, s6, 62);
    assert(s7 =~= seq![60u8, 97, 62, 60, 47, 97, 62]);
    assert(Seq::<u8>::empty().push(97) =~= seq![97u8]);
    assert(run_model(m, s7).1 =~= seq![
        PreviewEvent { is_end: false, name: seq![97u8], hash: Some(A) },
        PreviewEvent { is_end: true, name: seq![97u8], hash: Some(A) },
    ]);
}

proof fn lemma_open_script()
    ensures
        run_model(initial_model(), seq![60u8, 115, 99, 114, 105, 112, 116, 62]).1 == seq![PreviewEvent { is_end: false, name: seq![115u8, 99, 114, 105, 112, 116], hash: Some(SCRIPT) }],
        run_model(initial_model(), seq![60u8, 115, 99, 114, 105, 112, 116, 62]).0.halt is None,
        run_model(initial_model(), seq![60u8, 115, 99, 114, 105, 112, 116, 62]).0.guard == GuardState::Default,
        run_model(initial_model(), seq![60u8, 115, 99, 114, 105, 112, 116, 62]).0.ns == Seq::<Namespace>::empty(),
        run_model(initial_model(), seq![60u8, 115, 99, 114, 105, 112, 116, 62]).0.pending is None,
        run_model(initial_model(), seq![60u8, 115, 99, 114, 105, 112, 116, 62]).0.state == EagerState::ScriptData,
        run_model(initial_model(), seq![60u8, 115, 99, 114, 105, 112, 116, 62]).0.last_start_tag_name_hash == Some(SCRIPT),
{
    let m = initial_model();
    let s0 = Seq::<u8>::empty();
    let s1 = s0.push(60);
    lemma_run_push(m, s0, 60);
    let s2 = s1.push(115);
    lemma_run_push(m, s1, 115);
    let s3 = s2.push(99);
    lemma_run_push(m, s2, 99);
    let s4 = s3.push(114);
    lemma_run_push(m, s3, 114);
    let s5 = s4.push(105);
    lemma_run_push(m, s4, 105);
    let s6 = s5.push(112);
    lemma_run_push(m, s5, 112);
    let s7 = s6.push(116);
    lemma_run_push(m, s6, 116);
    let s8 = s7.push(62);
    lemma_run_push(m, s7, 62);
    assert(s8 =~= seq![60u8, 115, 99, 114, 105, 112, 116, 62]);
    assert(seq![115u8].push(99).push(114).push(105).push(112).push(116) =~= seq![115u8, 99, 114, 105, 112, 116]);
    assert(run_model(m, s8).1 =~= seq![PreviewEvent { is_end: false, name: seq![115u8, 99, 114, 105, 112, 116], hash: Some(SCRIPT) }]);
}

proof fn lemma_markup_in_script(m: Model)
    requires
        m.state == EagerState::ScriptData,
        m.halt is None,
    ensures
        run_model(m, seq![97u8, 60, 98, 62, 99]).1 == Seq::<PreviewEvent>::empty(),
        run_model(m, seq![97u8, 60, 98, 62, 99]).0 == m,
{
    let s0 = Seq::<u8>::empty();
    let s1 = s0.push(97);
    lemma_run_push(m, s0, 97);
    let s2 = s1.push(60);
    lemma_run_push(m, s1, 60);
    let s3 = s2.push(98);
    lemma_run_push(m, s2, 98);
    let s4 = s3.push(62);
    lemma_run_push(m, s3, 62);
    let s5 = s4.push(99);
    lemma_run_push(m, s4, 99);
    assert(s5 =~= seq![97u8, 60, 98, 62, 99]);
    assert(run_model(m, s5).1 =~= Seq::<PreviewEvent>::empty());
}

proof fn lemma_close_script(m: Model)
    requires
        m.state == EagerState::ScriptData,
        m.halt is None,
        m.guard == GuardState::Default,
        m.ns == Seq::<Namespace>::empty(),
        m.pending is None,
        m.last_start_tag_name_hash == Some(SCRIPT),
    ensures
        run_model(m, seq![60u8, 47, 115, 99, 114, 105, 112, 116, 62]).1 == seq![PreviewEvent { is_end: true, name: seq![115u8, 99, 114, 105, 112, 116], hash: Some(SCRIPT) }],
        run_model(m, seq![60u8, 47, 115, 99, 114, 105, 112, 116, 62]).0.state == EagerState::Data,
        run_model(m, seq![60u8, 47, 115, 99, 114, 105, 112, 116, 62]).0.halt is None,
        run_model(m, seq![60u8, 47, 115, 99, 114, 105, 112, 116, 62]).0.guard == GuardState::Default,
        run_model(m, seq![60u8, 47, 115, 99, 114, 105, 112, 116, 62]).0.ns == Seq::<Namespace>::empty(),
        run_model(m, seq![60u8, 47, 115, 99, 114, 105, 112, 116, 62]).0.pending is None,
{
    let s0 = Seq::<u8>::empty();
    let s1 = s0.push(60);
    lemma_run_push(m, s0, 60);
    let s2 = s1.push(47);
    lemma_run_push(m, s1, 47);
    let s3 = s2.push(115);
    lemma_run_push(m, s2, 115);
    let s4 = s3.push(99);
    lemma_run_push(m, s3, 99);
    let s5 = s4.push(114);
    lemma_run_push(m, s4, 114);
    let s6 = s5.push(105);
    lemma_run_push(m, s5, 105);
    let s7 = s6.push(112);
    lemma_run_push(m, s6, 112);
    let s8 = s7.push(116);
    lemma_run_push(m, s7, 116);
    let s9 = s8.push(62);
    lemma_run_push(m, s8, 62);
    assert(s9 =~= seq![60u8, 47, 115, 99, 114, 105, 112, 116, 62]);
    assert(seq![115u8].push(99).push(114).push(105).push(112).push(116) =~= seq![115u8, 99, 114, 105, 112, 116]);
    assert(run_model(m, s9).1 =~= seq![PreviewEvent { is_end: true, name: seq![115u8, 99, 114, 105, 112, 116], hash: Some(SCRIPT) }]);
}

proof fn lemma_tag_after_script(m: Model)
    requires
        m.state == EagerState::Data,
        m.halt is None,
        m.guard == GuardState::Default,
        m.ns == Seq::<Namespace>::empty(),
        m.pending is None,
    ensures
        run_model(m, seq![100u8, 60, 98, 62]).1 == seq![PreviewEvent { is_end: false, name: seq![98u8], hash: Some(B) }],
        run_model(m, seq![100u8, 60, 98, 62]).0.halt is None,
{
    let s0 = Seq::<u8>::empty();
    let s1 = s0.push(100);
    lemma_run_push(m, s0, 100);
    let s2 = s1.push(60);
    lemma_run_push(m, s1, 60);
    let s3 = s2.push(98);
    lemma_run_push(m, s2, 98);
    let s4 = s3.push(62);
    lemma_run_push(m, s3, 62);
    assert(s4 =~= seq![100u8, 60, 98, 62]);
    assert(s4.subrange(2, 3) =~= seq![98u8]);
    assert(run_model(m, s4).1 =~= seq![PreviewEvent { is_end: false, name: seq![98u8], hash: Some(B) }]);
}

/// In `<script>a<b>c</script>d<b>` from the start of a document, the `<b>`
/// inside the script element is text: the previews are exactly `script`,
/// `/script` and the trailing `b`.
#[verifier::rlimit(50)]
pub proof fn lemma_raw_text_containment()
    ensures
        run_model(initial_model(), seq![60u8, 115, 99, 114, 105, 112, 116, 62, 97, 60, 98, 62, 99, 60, 47, 115, 99, 114, 105, 112, 116, 62, 100, 60, 98, 62]).1 == seq![
            PreviewEvent { is_end: false, name: seq![115u8, 99, 114, 105, 112, 116], hash: Some(SCRIPT) },
            PreviewEvent { is_end: true, name: seq![115u8, 99, 114, 105, 112, 116], hash: Some(SCRIPT) },
            PreviewEvent { is_end: false, name: seq![98u8], hash: Some(B) },
        ],
{
    let a = seq![60u8, 115, 99, 114, 105, 112, 116, 62];
    let b = seq![97u8, 60, 98, 62, 99];
    let c = seq![60u8, 47, 115, 99, 114, 105, 112, 116, 62];
    let d = seq![100u8, 60, 98, 62];
    let m0 = initial_model();
    lemma_open_script();
    let m1 = run_model(m0, a).0;
    lemma_markup_in_script(m1);
    lemma_close_script(m1);
    let m3 = run_model(m1, c).0;
    lemma_tag_after_script(m3);
    lemma_chunk_boundary_invariance(m0, a, b);
    lemma_chunk_boundary_invariance(m0, a + b, c);
    lemma_chunk_boundary_invariance(m0, a + b + c, d);
    assert(a + b + c + d =~= seq![60u8, 115, 99, 114, 105, 112, 116, 62, 97, 60, 98, 62, 99, 60, 47, 115, 99, 114, 105, 112, 116, 62, 100, 60, 98, 62]);
    assert(run_model(m0, a + b + c + d).1 =~= seq![
        PreviewEvent { is_end: false, name: seq![115u8, 99, 114, 105, 112, 116], hash: Some(SCRIPT) },
        PreviewEvent { is_end: true, name: seq![115u8, 99, 114, 105, 112, 116], hash: Some(SCRIPT) },
        PreviewEvent { is_end: false, name: seq![98u8], hash: Some(B) },
    ]);
}
/// A document cut off inside a tag name, `<di`, emits no preview and leaves
/// the scanner without a halt, so ending the input there reports no error.
pub proof fn lemma_truncated_tag_at_end()
    ensures
        run_model(initial_model(), seq![60u8, 100, 105]).1 == Seq::<PreviewEvent>::empty(),
        run_model(initial_model(), seq![60u8, 100, 105]).0.halt is None,
{
    let m = initial_model();
    let s0 = Seq::<u8>::empty();
    let s1 = s0.push(60);
    lemma_run_push(m, s0, 60);
    let s2 = s1.push(100);
    lemma_run_push(m, s1, 100);
    let s3 = s2.push(105);
    lemma_run_push(m, s2, 105);
    assert(s3 =~= seq![60u8, 100, 105]);
    assert(run_model(m, s3).1 =~= Seq::<PreviewEvent>::empty());
}

} // verus!
