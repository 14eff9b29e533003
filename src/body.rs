//! The shape of a body record: which components it carries, and which
//! passes of a frame therefore work on it.
use vstd::prelude::*;

verus! {

/// The part a body plays in gravitation.
#[derive(Clone, Copy, Debug, PartialEq, Eq)]
pub enum Role {
    /// Attracts every movable body and is never moved by gravity.
    Immovable,
    /// Is attracted by the immovable source and can collide with it.
    Movable,
}

/// Which components a body carries. Every component is optional.
#[derive(Clone, Copy, Debug)]
pub struct Layout {
    pub position: bool,
    pub velocity: bool,
    pub thrust: bool,
    pub role: Option<Role>,
    /// Carries the marker of the player-controlled body.
    pub player: bool,
}

/// A selection of bodies by the components they carry.
#[derive(Clone, Copy, Debug, PartialEq, Eq)]
pub enum Query {
    /// Bodies whose thrust the player's keys adjust: player marker and thrust.
    Steered,
    /// Bodies whose thrust changes their velocity: thrust and velocity.
    Propelled,
    /// Bodies that act as the gravity source: immovable role and position.
    Attracts,
    /// Bodies that gravity acts on: movable role, position and velocity.
    Attracted,
    /// Bodies whose position follows their velocity: position and velocity.
    Moves,
}

impl Query {
    pub open spec fn admits(self, b: Layout) -> bool {
        match self {
            Query::Steered => b.player && b.thrust,
            Query::Propelled => b.thrust && b.velocity,
            Query::Attracts => b.position && b.role == Some(Role::Immovable),
            Query::Attracted => b.position && b.velocity && b.role == Some(Role::Movable),
            Query::Moves => b.position && b.velocity,
        }
    }

    /// Whether the body `b` belongs to this selection.
    pub fn accepts(&self, b: &Layout) -> (r: bool)
        ensures
            r == self.admits(*b),
    {
        let immovable = match b.role {
            Some(Role::Immovable) => true,
            _ => false,
        };
        let movable = match b.role {
            Some(Role::Movable) => true,
            _ => false,
        };
        match self {
            Query::Steered => b.player && b.thrust,
            Query::Propelled => b.thrust && b.velocity,
            Query::Attracts => b.position && immovable,
            Query::Attracted => b.position && b.velocity && movable,
            Query::Moves => b.position && b.velocity,
        }
    }
}

/// The indices, in increasing order, of the bodies among the first `n` of
/// `bodies` that `q` admits.
pub open spec fn matching_upto(bodies: Seq<Layout>, q: Query, n: int) -> Seq<usize>
    decreases n,
{
    if n <= 0 {
        Seq::empty()
    } else {
        let before = matching_upto(bodies, q, n - 1);
        if q.admits(bodies[n - 1]) {
            before.push((n - 1) as usize)
        } else {
            before
        }
    }
}

/// The indices, in increasing order, of all the bodies that `q` admits.
pub open spec fn matching(bodies: Seq<Layout>, q: Query) -> Seq<usize> {
    matching_upto(bodies, q, bodies.len() as int)
}

/// The one body that `q` admits, where there is exactly one; otherwise none.
pub open spec fn the_one(bodies: Seq<Layout>, q: Query) -> Option<usize> {
    if matching(bodies, q).len() == 1 {
        Some(matching(bodies, q)[0])
    } else {
        None
    }
}

/// Every index in `matching_upto(bodies, q, n)` is below `n` and names a body
/// that `q` admits; the indices increase; and every admitted body below `n`
/// is listed.
pub proof fn lemma_matching_upto(bodies: Seq<Layout>, q: Query, n: int)
    requires
        0 <= n <= bodies.len(),
        bodies.len() <= usize::MAX,
    ensures
        forall|k: int|
            0 <= k < matching_upto(bodies, q, n).len() ==> {
                let i = #[trigger] matching_upto(bodies, q, n)[k];
                i < n && q.admits(bodies[i as int])
            },
        forall|k: int, m: int|
            0 <= k < m < matching_upto(bodies, q, n).len() ==> matching_upto(bodies, q, n)[k]
                < matching_upto(bodies, q, n)[m],
        forall|i: int|
            0 <= i < n && q.admits(#[trigger] bodies[i]) ==> matching_upto(bodies, q, n).contains(
                i as usize,
            ),
    decreases n,
{
    if n > 0 {
        lemma_matching_upto(bodies, q, n - 1);
        let before = matching_upto(bodies, q, n - 1);
        if q.admits(bodies[n - 1]) {
            assert forall|i: int| 0 <= i < n && q.admits(#[trigger] bodies[i]) implies matching_upto(
                bodies,
                q,
                n,
            ).contains(i as usize) by {
                if i < n - 1 {
                    let k = choose|k: int| 0 <= k < before.len() && before[k] == i as usize;
                    assert(matching_upto(bodies, q, n)[k] == i as usize);
                } else {
                    assert(matching_upto(bodies, q, n)[before.len() as int] == i as usize);
                }
            }
        }
    }
}

/// Every listed index names an admitted body, and every admitted body is
/// listed.
pub proof fn lemma_matching(bodies: Seq<Layout>, q: Query)
    requires
        bodies.len() <= usize::MAX,
    ensures
        forall|k: int|
            0 <= k < matching(bodies, q).len() ==> {
                let i = #[trigger] matching(bodies, q)[k];
                i < bodies.len() && q.admits(bodies[i as int])
            },
        forall|i: int|
            0 <= i < bodies.len() && q.admits(#[trigger] bodies[i]) ==> matching(
                bodies,
                q,
            ).contains(i as usize),
{
    lemma_matching_upto(bodies, q, bodies.len() as int);
}

/// The indices of the bodies that `q` admits, in increasing order.
pub fn select(bodies: &Vec<Layout>, q: Query) -> (r: Vec<usize>)
    ensures
        r@ == matching(bodies@, q),
{
    let mut r: Vec<usize> = Vec::new();
    let mut i: usize = 0;
    while i < bodies.len()
        invariant
            i <= bodies.len(),
            r@ == matching_upto(bodies@, q, i as int),
        decreases bodies.len() - i,
    {
        if q.accepts(&bodies[i]) {
            r.push(i);
        }
        i = i + 1;
    }
    r
}

/// The index of the one body that `q` admits; `None` where no body or more
/// than one does.
pub fn single(bodies: &Vec<Layout>, q: Query) -> (r: Option<usize>)
    ensures
        r == the_one(bodies@, q),
{
    let all = select(bodies, q);
    if all.len() == 1 {
        Some(all[0])
    } else {
        None
    }
}

} // verus!
