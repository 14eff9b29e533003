//! The plan of one frame: which bodies each of the four passes works on.
//! The passes run in a fixed order: input, thrust, gravity, integration.
use vstd::prelude::*;
use crate::body::{Layout, Query, matching, the_one, select, single, lemma_matching};

verus! {

/// The bodies that each pass of one frame works on, by index.
#[derive(Clone, Debug)]
pub struct FramePlan {
    /// The player-controlled body whose thrust the keys adjust, if there is
    /// exactly one.
    pub player: Option<usize>,
    /// The bodies whose thrust is turned into a change of velocity.
    pub propelled: Vec<usize>,
    /// The one immovable gravity source, if there is exactly one.
    pub source: Option<usize>,
    /// The movable bodies that the source attracts (or stops on contact).
    pub attracted: Vec<usize>,
    /// The bodies whose position advances by their velocity.
    pub moved: Vec<usize>,
}

/// What the plan of a frame over `bodies` is.
pub open spec fn planned(bodies: Seq<Layout>, p: FramePlan) -> bool {
    &&& p.player == the_one(bodies, Query::Steered)
    &&& p.propelled@ == matching(bodies, Query::Propelled)
    &&& p.source == the_one(bodies, Query::Attracts)
    &&& p.attracted@ == (if p.source.is_some() {
        matching(bodies, Query::Attracted)
    } else {
        Seq::empty()
    })
    &&& p.moved@ == matching(bodies, Query::Moves)
}

/// Plans one frame. With no single player body the input pass does nothing;
/// with no single immovable source the gravity pass does nothing.
pub fn plan_frame(bodies: &Vec<Layout>) -> (p: FramePlan)
    ensures
        planned(bodies@, p),
{
    let player = single(bodies, Query::Steered);
    let propelled = select(bodies, Query::Propelled);
    let source = single(bodies, Query::Attracts);
    let attracted = if source.is_some() {
        select(bodies, Query::Attracted)
    } else {
        Vec::new()
    };
    let moved = select(bodies, Query::Moves);
    FramePlan { player, propelled, source, attracted, moved }
}

/// The gravity source is never itself attracted, and every attracted body
/// is also moved by the integration pass.
pub proof fn lemma_source_stays(bodies: Seq<Layout>, p: FramePlan)
    requires
        bodies.len() <= usize::MAX,
        planned(bodies, p),
    ensures
        p.source.is_some() ==> !p.attracted@.contains(p.source.unwrap()),
        forall|i: usize| p.attracted@.contains(i) ==> p.moved@.contains(i),
{
    lemma_matching(bodies, Query::Attracts);
    lemma_matching(bodies, Query::Attracted);
    lemma_matching(bodies, Query::Moves);
    if p.source.is_some() {
        let s = p.source.unwrap();
        assert(Query::Attracts.admits(bodies[s as int]));
        if p.attracted@.contains(s) {
            let k = choose|k: int| 0 <= k < p.attracted@.len() && p.attracted@[k] == s;
            assert(Query::Attracted.admits(bodies[p.attracted@[k] as int]));
        }
    }
    assert forall|i: usize| p.attracted@.contains(i) implies p.moved@.contains(i) by {
        let k = choose|k: int| 0 <= k < p.attracted@.len() && p.attracted@[k] == i;
        assert(Query::Attracted.admits(bodies[p.attracted@[k] as int]));
        assert(Query::Moves.admits(bodies[i as int]));
    }
}

} // verus!
