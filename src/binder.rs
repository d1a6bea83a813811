use vstd::prelude::*;
use crate::actor::Actor;

verus! {

/// The entity hierarchy as an arena: entity `e` has the parent `parent[e]`,
/// and carries the actor `actor[e]` (an index into the actor list) when it is
/// an actor's root entity. A link out of range counts as absent.
pub struct Hierarchy {
    pub parent: Vec<Option<usize>>,
    pub actor: Vec<Option<usize>>,
}

impl Hierarchy {
    pub open spec fn parent_of(&self, e: int) -> Option<usize> {
        if 0 <= e < self.parent@.len() {
            match self.parent@[e] {
                Some(p) => if p < self.parent@.len() {
                    Some(p)
                } else {
                    None
                },
                None => None,
            }
        } else {
            None
        }
    }

    pub open spec fn actor_at(&self, e: int) -> Option<usize> {
        if 0 <= e < self.actor@.len() {
            self.actor@[e]
        } else {
            None
        }
    }

    /// The actor of the nearest proper ancestor of `e` that carries one,
    /// looking at most `steps` links up.
    pub open spec fn owner_within(&self, e: int, steps: nat) -> Option<usize>
        decreases steps,
    {
        if steps == 0 {
            None
        } else {
            match self.parent_of(e) {
                None => None,
                Some(p) => match self.actor_at(p as int) {
                    Some(a) => Some(a),
                    None => self.owner_within(p as int, (steps - 1) as nat),
                },
            }
        }
    }

    /// The owner of `e`: the walk up is bounded by the number of entities,
    /// which covers every ancestor chain of an acyclic hierarchy and ends a
    /// cyclic one.
    pub open spec fn owner(&self, e: int) -> Option<usize> {
        self.owner_within(e, self.parent@.len())
    }
}

/// Finds the actor that owns entity `e`: the one carried by its nearest
/// proper ancestor, walking up from `e`.
pub fn find_owner(h: &Hierarchy, e: usize) -> (r: Option<usize>)
    ensures
        r == h.owner(e as int),
{
    let n = h.parent.len();
    let mut cur: usize = e;
    let mut steps: usize = 0;
    while steps < n
        invariant
            n == h.parent@.len(),
            steps <= n,
            h.owner(e as int) == h.owner_within(cur as int, (n - steps) as nat),
        decreases n - steps,
    {
        let up: Option<usize> = if cur < n {
            match h.parent[cur] {
                Some(p) => if p < n {
                    Some(p)
                } else {
                    None
                },
                None => None,
            }
        } else {
            None
        };
        match up {
            None => {
                return None;
            },
            Some(p) => {
                let here: Option<usize> = if p < h.actor.len() {
                    h.actor[p]
                } else {
                    None
                };
                if here.is_some() {
                    return here;
                }
                cur = p;
                steps = steps + 1;
            },
        }
    }
    None
}

/// The actors after binding the new animation player `e`: its owner, when it
/// is a known actor without a binding yet, is bound to `e`.
pub open spec fn bind_one(actors: Seq<Actor>, h: &Hierarchy, e: usize) -> Seq<Actor> {
    match h.owner(e as int) {
        Some(a) => if a < actors.len() && actors[a as int].animation_target is None {
            actors.update(a as int, Actor { animation_target: Some(e), ..actors[a as int] })
        } else {
            actors
        },
        None => actors,
    }
}

/// The actors after binding each new animation player in turn.
pub open spec fn bind_all(actors: Seq<Actor>, h: &Hierarchy, found: Seq<usize>) -> Seq<Actor>
    decreases found.len(),
{
    if found.len() == 0 {
        actors
    } else {
        bind_one(bind_all(actors, h, found.drop_last()), h, found.last())
    }
}

/// Binding keeps the actors, their kinds and states, and never changes a
/// binding once made: only an unbound actor gets one.
pub proof fn lemma_bindings_are_final(actors: Seq<Actor>, h: &Hierarchy, found: Seq<usize>)
    ensures
        bind_all(actors, h, found).len() == actors.len(),
        forall|i: int| 0 <= i < actors.len() ==> {
            let b = #[trigger] bind_all(actors, h, found)[i];
            &&& b.kind == actors[i].kind
            &&& b.state == actors[i].state
            &&& (actors[i].animation_target is Some ==> b.animation_target == actors[i].animation_target)
        },
    decreases found.len(),
{
    if found.len() > 0 {
        lemma_bindings_are_final(actors, h, found.drop_last());
    }
}

/// Binds each newly seen animation player in `found`, in order, to the actor
/// that owns it, unless that actor is already bound.
pub fn bind_new_players(h: &Hierarchy, actors: &mut Vec<Actor>, found: &Vec<usize>)
    ensures
        final(actors)@ == bind_all(old(actors)@, h, found@),
{
    let mut i: usize = 0;
    while i < found.len()
        invariant
            i <= found@.len(),
            actors@ == bind_all(old(actors)@, h, found@.take(i as int)),
        decreases found@.len() - i,
    {
        let e = found[i];
        proof {
            assert(found@.take(i + 1).drop_last() == found@.take(i as int));
        }
        match find_owner(h, e) {
            Some(a) => {
                if a < actors.len() && actors[a].animation_target.is_none() {
                    let bound = Actor { animation_target: Some(e), ..actors[a] };
                    actors.set(a, bound);
                }
            },
            None => {},
        }
        i = i + 1;
    }
    proof {
        assert(found@.take(found@.len() as int) == found@);
    }
}

} // verus!
