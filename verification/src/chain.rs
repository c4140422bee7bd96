//! The processor chain: an ordered list of stateful processors
//! sharing one input channel.
//!
//! Each received event is offered to the processors in order until one
//! of them consumes it (`Stop`) or it exits the chain unconsumed and
//! is discarded by this chain.  Processing is strictly sequential per
//! event, preserving the temporal ordering of motion samples.

use crate::battery::{BatteryProcessor, BatteryView};
use crate::event::{Event, ProcessResult};
use crate::joystick::{JoystickProcessor, JoystickView};
use crate::report::Report;
use vstd::prelude::*;

verus! {

/// One member of a processor chain.  The pipeline topology is fixed
/// at build time: a chain is a short, statically composed list of
/// these.
pub enum ChainProcessor<'a> {
    Joystick(JoystickProcessor<'a>),
    Battery(BatteryProcessor<'a>),
}

/// The mathematical model of one chain member.
#[verifier::ext_equal]
pub enum ChainProcessorView {
    Joystick(JoystickView),
    Battery(BatteryView),
}

impl<'a> View for ChainProcessor<'a> {
    type V = ChainProcessorView;

    open spec fn view(&self) -> ChainProcessorView {
        match self {
            ChainProcessor::Joystick(p) => ChainProcessorView::Joystick(p@),
            ChainProcessor::Battery(p) => ChainProcessorView::Battery(p@),
        }
    }
}

/// The models of a whole chain, in offer order.
pub open spec fn views<'a>(ps: Seq<ChainProcessor<'a>>) -> Seq<ChainProcessorView> {
    ps.map(|i: int, p: ChainProcessor<'a>| p@)
}

/// Well-formedness of one chain member.
pub open spec fn proc_wf(p: ChainProcessorView) -> bool {
    match p {
        ChainProcessorView::Joystick(j) => j.wf(),
        ChainProcessorView::Battery(_) => true,
    }
}

/// Well-formedness of a whole chain.
pub open spec fn chain_wf(ps: Seq<ChainProcessorView>) -> bool {
    forall|i: int| 0 <= i < ps.len() ==> proc_wf(#[trigger] ps[i])
}

/// Whether one processor may be offered one event: a joystick event's
/// reading count must equal the consuming processor's axis count; a
/// mismatch is a construction-time contract violation, not a runtime
/// condition.
pub open spec fn step_accepts(p: ChainProcessorView, e: Event) -> bool {
    match p {
        ChainProcessorView::Joystick(j) => match e {
            Event::Joystick(readings) => readings@.len() == j.axes(),
            _ => true,
        },
        ChainProcessorView::Battery(_) => true,
    }
}

/// What one processor decides about one event.
pub open spec fn step_result(p: ChainProcessorView, e: Event) -> ProcessResult {
    match p {
        ChainProcessorView::Joystick(_) => match e {
            Event::Joystick(_) => ProcessResult::Stop,
            _ => ProcessResult::Continue(e),
        },
        ChainProcessorView::Battery(_) => match e {
            Event::Battery(_) => ProcessResult::Stop,
            _ => ProcessResult::Continue(e),
        },
    }
}

/// One processor's state after being offered one event.
pub open spec fn step_after(p: ChainProcessorView, e: Event) -> ChainProcessorView {
    match p {
        ChainProcessorView::Joystick(j) => match e {
            Event::Joystick(readings) => ChainProcessorView::Joystick(j.after_process(readings@)),
            _ => p,
        },
        ChainProcessorView::Battery(b) => match e {
            Event::Battery(sample) => ChainProcessorView::Battery(
                BatteryView { last_sample: Some(sample), ..b },
            ),
            _ => p,
        },
    }
}

/// The reports one processor hands to the sink for one event.
pub open spec fn step_emits(p: ChainProcessorView, e: Event) -> Seq<Report> {
    match p {
        ChainProcessorView::Joystick(j) => match e {
            Event::Joystick(readings) => seq![Report::Mouse(j.process_report(readings@))],
            _ => Seq::empty(),
        },
        ChainProcessorView::Battery(_) => Seq::empty(),
    }
}

/// Whether a whole chain may be offered one event, following the
/// event as it is passed along.
pub open spec fn chain_accepts(ps: Seq<ChainProcessorView>, e: Event) -> bool
    decreases ps.len(),
{
    if ps.len() == 0 {
        true
    } else {
        step_accepts(ps[0], e) && (match step_result(ps[0], e) {
            ProcessResult::Continue(e2) => chain_accepts(ps.drop_first(), e2),
            ProcessResult::Stop => true,
        })
    }
}

/// The chain's states after one event has run through it.
pub open spec fn chain_after(ps: Seq<ChainProcessorView>, e: Event) -> Seq<ChainProcessorView>
    decreases ps.len(),
{
    if ps.len() == 0 {
        ps
    } else {
        match step_result(ps[0], e) {
            ProcessResult::Continue(e2) => seq![step_after(ps[0], e)] + chain_after(
                ps.drop_first(),
                e2,
            ),
            ProcessResult::Stop => seq![step_after(ps[0], e)] + ps.drop_first(),
        }
    }
}

/// The event that exits the chain unconsumed, if any.
pub open spec fn chain_leftover(ps: Seq<ChainProcessorView>, e: Event) -> Option<Event>
    decreases ps.len(),
{
    if ps.len() == 0 {
        Some(e)
    } else {
        match step_result(ps[0], e) {
            ProcessResult::Continue(e2) => chain_leftover(ps.drop_first(), e2),
            ProcessResult::Stop => None,
        }
    }
}

/// The reports the whole chain hands to the sink for one event.
pub open spec fn chain_emits(ps: Seq<ChainProcessorView>, e: Event) -> Seq<Report>
    decreases ps.len(),
{
    if ps.len() == 0 {
        Seq::empty()
    } else {
        match step_result(ps[0], e) {
            ProcessResult::Continue(e2) => step_emits(ps[0], e) + chain_emits(
                ps.drop_first(),
                e2,
            ),
            ProcessResult::Stop => step_emits(ps[0], e),
        }
    }
}

impl<'a> ChainProcessor<'a> {
    /// Offer one event to this chain member.
    pub fn process(&mut self, event: Event, sink: &mut Vec<Report>) -> (r: ProcessResult)
        requires
            proc_wf(old(self)@),
            step_accepts(old(self)@, event),
        ensures
            proc_wf(final(self)@),
            final(self)@ == step_after(old(self)@, event),
            r == step_result(old(self)@, event),
            final(sink)@ == old(sink)@ + step_emits(old(self)@, event),
    {
        let ghost ev = event;
        match self {
            ChainProcessor::Joystick(p) => {
                let r = p.process(event, sink);
                proof {
                    match ev {
                        Event::Joystick(readings) => {
                            assert(old(sink)@.push(
                                Report::Mouse(old(self)@->Joystick_0.process_report(readings@)),
                            ) =~= old(sink)@ + step_emits(old(self)@, ev));
                        },
                        _ => {
                            assert(old(sink)@ + step_emits(old(self)@, ev) =~= old(sink)@);
                        },
                    }
                }
                r
            },
            ChainProcessor::Battery(p) => {
                let r = p.process(event);
                proof {
                    assert(old(sink)@ + step_emits(old(self)@, event) =~= old(sink)@);
                }
                r
            },
        }
    }
}

/// Run one event through a whole chain, starting at member `i`.
fn process_chain_from<'a>(
    procs: &mut Vec<ChainProcessor<'a>>,
    i: usize,
    event: Event,
    sink: &mut Vec<Report>,
) -> (r: Option<Event>)
    requires
        i <= old(procs)@.len(),
        chain_wf(views(old(procs)@)),
        chain_accepts(views(old(procs)@).skip(i as int), event),
    ensures
        final(procs)@.len() == old(procs)@.len(),
        views(final(procs)@).take(i as int) == views(old(procs)@).take(i as int),
        views(final(procs)@).skip(i as int) == chain_after(
            views(old(procs)@).skip(i as int),
            event,
        ),
        chain_wf(views(final(procs)@)),
        r == chain_leftover(views(old(procs)@).skip(i as int), event),
        final(sink)@ == old(sink)@ + chain_emits(views(old(procs)@).skip(i as int), event),
    decreases old(procs)@.len() - i,
{
    let ghost vs0 = views(old(procs)@);
    let n = procs.len();
    if i == n {
        proof {
            assert(vs0.skip(i as int) =~= Seq::<ChainProcessorView>::empty());
            assert(old(sink)@ + chain_emits(vs0.skip(i as int), event) =~= old(sink)@);
        }
        return Some(event);
    }
    let res = {
        let p = &mut procs[i];
        p.process(event, sink)
    };
    proof {
        assert(views(procs@) =~= vs0.update(i as int, step_after(vs0[i as int], event)));
        assert(vs0.skip(i as int)[0] == vs0[i as int]);
        assert(vs0.skip(i as int).drop_first() =~= vs0.skip(i as int + 1));
        assert(chain_wf(views(procs@)));
    }
    match res {
        ProcessResult::Continue(e2) => {
            let ghost mid = views(procs@);
            proof {
                assert(mid.skip(i as int + 1) =~= vs0.skip(i as int + 1));
                assert(chain_accepts(mid.skip(i as int + 1), e2));
            }
            let r = process_chain_from(procs, i + 1, e2, sink);
            proof {
                let fin = views(procs@);
                assert(fin.take(i as int) =~= mid.take(i as int));
                assert(fin.take(i as int + 1)[i as int] == mid.take(i as int + 1)[i as int]);
                assert(fin[i as int] == mid[i as int]);
                assert(fin.skip(i as int) =~= seq![step_after(vs0[i as int], event)]
                    + fin.skip(i as int + 1));
                assert(fin.skip(i as int) =~= chain_after(vs0.skip(i as int), event));
                assert((old(sink)@ + step_emits(vs0[i as int], event)) + chain_emits(
                    vs0.skip(i as int + 1),
                    e2,
                ) =~= old(sink)@ + chain_emits(vs0.skip(i as int), event));
            }
            r
        },
        ProcessResult::Stop => {
            proof {
                let fin = views(procs@);
                assert(fin.take(i as int) =~= vs0.take(i as int));
                assert(fin.skip(i as int) =~= seq![step_after(vs0[i as int], event)]
                    + vs0.skip(i as int + 1));
                assert(fin.skip(i as int) =~= chain_after(vs0.skip(i as int), event));
            }
            None
        },
    }
}

/// Run one received event through the whole chain in offer order.
/// Each member's decision, state change and report emission follow its
/// own contract; an event that exits the chain still unconsumed is
/// returned so the caller can discard it.
pub fn process_chain<'a>(
    procs: &mut Vec<ChainProcessor<'a>>,
    event: Event,
    sink: &mut Vec<Report>,
) -> (r: Option<Event>)
    requires
        chain_wf(views(old(procs)@)),
        chain_accepts(views(old(procs)@), event),
    ensures
        final(procs)@.len() == old(procs)@.len(),
        views(final(procs)@) == chain_after(views(old(procs)@), event),
        chain_wf(views(final(procs)@)),
        r == chain_leftover(views(old(procs)@), event),
        final(sink)@ == old(sink)@ + chain_emits(views(old(procs)@), event),
    {
    proof {
        assert(views(old(procs)@).skip(0) =~= views(old(procs)@));
    }
    let r = process_chain_from(procs, 0, event, sink);
    proof {
        assert(views(procs@).skip(0) =~= views(procs@));
    }
    r
}

} // verus!
