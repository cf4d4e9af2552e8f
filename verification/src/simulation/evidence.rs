use vstd::prelude::*;

use crate::rules::signature::SignatureInstance;
use crate::simulation::city::LocationId;

verus! {

/// A trace left at a location.
#[derive(Debug, Clone, Copy, PartialEq, Eq, Structural)]
pub struct SignatureEvent {
    pub location_id: LocationId,
    pub signature: SignatureInstance,
    pub is_new: bool,
}

/// The traces that powers have left in the world.
pub struct WorldEvidence {
    pub signatures: Vec<SignatureEvent>,
}

/// The event an emitted signature becomes: new, lasting five turns when it had none left.
pub open spec fn emitted(location_id: LocationId, sig: SignatureInstance) -> SignatureEvent {
    SignatureEvent {
        location_id,
        signature: SignatureInstance {
            remaining_turns: if sig.remaining_turns <= 0 { 5 } else { sig.remaining_turns },
            ..sig
        },
        is_new: true,
    }
}

/// An event a turn later.
pub open spec fn decayed(e: SignatureEvent) -> SignatureEvent {
    SignatureEvent {
        signature: SignatureInstance {
            remaining_turns: if e.signature.remaining_turns > 0 {
                e.signature.remaining_turns - 1
            } else {
                e.signature.remaining_turns as int
            } as i64,
            ..e.signature
        },
        ..e
    }
}

/// The events that are still alive a turn later, in order.
pub open spec fn after_decay(events: Seq<SignatureEvent>) -> Seq<SignatureEvent> {
    events.map_values(|e: SignatureEvent| decayed(e)).filter(|e: SignatureEvent| e.signature.remaining_turns > 0)
}

impl WorldEvidence {
    pub fn new() -> (w: WorldEvidence)
        ensures
            w.signatures@.len() == 0,
    {
        WorldEvidence { signatures: Vec::new() }
    }

    /// Records traces at a location.
    pub fn emit(&mut self, location_id: LocationId, signatures: &[SignatureInstance])
        ensures
            final(self).signatures@ == old(self).signatures@ + signatures@.map_values(
                |s: SignatureInstance| emitted(location_id, s),
            ),
    {
        let ghost start = self.signatures@;
        let mut i: usize = 0;
        while i < signatures.len()
            invariant
                i <= signatures@.len(),
                self.signatures@ == start + signatures@.take(i as int).map_values(
                    |s: SignatureInstance| emitted(location_id, s),
                ),
            decreases signatures@.len() - i,
        {
            let mut instance = signatures[i];
            if instance.remaining_turns <= 0 {
                instance.remaining_turns = 5;
            }
            self.signatures.push(SignatureEvent { location_id, signature: instance, is_new: true });
            assert(signatures@.take(i + 1).map_values(|s: SignatureInstance| emitted(location_id, s)) =~= signatures@.take(
                i as int).map_values(|s: SignatureInstance| emitted(location_id, s)).push(emitted(location_id, signatures@[i as int])));
            i = i + 1;
        }
        assert(signatures@.take(signatures@.len() as int) =~= signatures@);
    }

    /// A turn passes: every trace loses a turn and those with none left fade.
    pub fn tick_decay(&mut self)
        ensures
            final(self).signatures@ == after_decay(old(self).signatures@),
    {
        let ghost start = self.signatures@;
        let mut kept: Vec<SignatureEvent> = Vec::new();
        let mut i: usize = 0;
        proof {
            reveal(Seq::filter);
        }
        assert(start.take(0).map_values(|e: SignatureEvent| decayed(e)) =~= Seq::<SignatureEvent>::empty());
        while i < self.signatures.len()
            invariant
                i <= self.signatures@.len(),
                self.signatures@ == start,
                kept@ == after_decay(start.take(i as int)),
            decreases self.signatures@.len() - i,
        {
            let mut item = self.signatures[i];
            if item.signature.remaining_turns > 0 {
                item.signature.remaining_turns = item.signature.remaining_turns - 1;
            }
            if item.signature.remaining_turns > 0 {
                kept.push(item);
            }
            proof {
                let f = |e: SignatureEvent| decayed(e);
                let p = |e: SignatureEvent| e.signature.remaining_turns > 0;
                assert(start.take(i + 1).map_values(f) =~= start.take(i as int).map_values(f).push(decayed(start[i as int])));
                start.take(i as int).map_values(f).lemma_filter_push(decayed(start[i as int]), p);
            }
            i = i + 1;
        }
        assert(start.take(start.len() as int) =~= start);
        self.signatures = kept;
    }
}

/// After a turn every trace left has turns left, and none outlasts the turn it had.
pub proof fn law_decay_keeps_live_traces(events: Seq<SignatureEvent>)
    ensures
        forall|i: int| 0 <= i < after_decay(events).len() ==> #[trigger] after_decay(events)[i].signature.remaining_turns > 0,
        after_decay(events).len() <= events.len(),
{
    let f = |e: SignatureEvent| decayed(e);
    let p = |e: SignatureEvent| e.signature.remaining_turns > 0;
    events.map_values(f).lemma_filter_len(p);
    assert forall|i: int| 0 <= i < after_decay(events).len() implies #[trigger] after_decay(events)[i].signature.remaining_turns > 0 by {
        events.map_values(f).filter_lemma(p);
    }
}

/// Where traces can be recorded.
pub trait EvidenceSink {
    fn emit(&mut self, where_: LocationId, sigs: &[SignatureInstance]);
}

impl EvidenceSink for WorldEvidence {
    fn emit(&mut self, where_: LocationId, sigs: &[SignatureInstance]) {
        WorldEvidence::emit(self, where_, sigs);
    }
}

} // verus!
