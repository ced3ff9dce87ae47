//! The simplex of the Nelder-Mead method and the decisions of one round.
//!
//! A vertex carries its point, of any type, and the key of its cost (see
//! `cost_key`): ranking and every decision compare keys only, so the point
//! arithmetic stays with the caller.
use vstd::prelude::*;

verus! {

/// One vertex: a point and the key of its cost.
pub struct Vertex<P> {
    pub key: u64,
    pub point: P,
}

/// Why a run cannot start.
#[derive(Debug, Clone, Copy, PartialEq, Eq, Structural)]
pub enum SetupError {
    /// The initial point has no coordinates, or the simplex has fewer than
    /// two vertices.
    EmptyPoint,
    /// The initial point and the step vector differ in length.
    DimensionMismatch { initial: usize, step: usize },
}

/// The dimension of a run from the lengths of the initial point and of the
/// per-axis step vector.
pub open spec fn dimension_check(initial_len: usize, step_len: usize) -> Result<usize, SetupError> {
    if initial_len != step_len {
        Err(SetupError::DimensionMismatch { initial: initial_len, step: step_len })
    } else if initial_len == 0 {
        Err(SetupError::EmptyPoint)
    } else {
        Ok(initial_len)
    }
}

/// Checks the lengths of the initial point and of the step vector before
/// anything is evaluated; returns the dimension.
pub fn check_dimensions(initial_len: usize, step_len: usize) -> (r: Result<usize, SetupError>)
    ensures
        r == dimension_check(initial_len, step_len),
{
    if initial_len != step_len {
        Err(SetupError::DimensionMismatch { initial: initial_len, step: step_len })
    } else if initial_len == 0 {
        Err(SetupError::EmptyPoint)
    } else {
        Ok(initial_len)
    }
}

/// Keys never decrease along the sequence.
pub open spec fn keys_ranked<P>(s: Seq<Vertex<P>>) -> bool {
    forall|i: int, j: int| 0 <= i <= j < s.len() ==> s[i].key <= s[j].key
}

/// The vertices after the worst (last) one is replaced by `v`.
pub open spec fn with_worst_replaced<P>(s: Seq<Vertex<P>>, v: Vertex<P>) -> Seq<Vertex<P>> {
    s.update(s.len() - 1, v)
}

/// The vertices after every one but the best (first) is replaced, in order,
/// by `others`.
pub open spec fn shrunk_toward_best<P>(s: Seq<Vertex<P>>, others: Seq<Vertex<P>>) -> Seq<Vertex<P>> {
    seq![s[0]] + others
}

/// The branch a round takes. Each but `Contract2` replaces the worst vertex;
/// `Contract2` shrinks every other vertex toward the best.
#[derive(Debug, Clone, Copy, PartialEq, Eq, Structural)]
pub enum Branch {
    /// The expanded point beat the reflected one, which beat the best.
    Expand,
    /// The reflected point beat the best, and expanding did not improve it.
    Reflect1,
    /// The reflected point beat the second-worst but not the best.
    Reflect2,
    /// The contracted point beat the worst.
    Contract1,
    /// Nothing beat the worst: shrink.
    Contract2,
}

/// What follows the evaluation of the reflected point.
#[derive(Debug, Clone, Copy, PartialEq, Eq, Structural)]
pub enum AfterReflection {
    /// Evaluate the expanded point, then call `after_expansion`.
    TryExpansion,
    /// Replace the worst vertex by the reflected point (`Branch::Reflect2`).
    Reflect,
    /// Evaluate the contracted point, then call `after_contraction`.
    TryContraction,
}

/// The verdict on the reflected point from the keys of the best vertex, of
/// the second-worst vertex and of the reflected point.
pub open spec fn reflection_verdict(best: u64, second_worst: u64, reflected: u64) -> AfterReflection {
    if reflected < best {
        AfterReflection::TryExpansion
    } else if reflected < second_worst {
        AfterReflection::Reflect
    } else {
        AfterReflection::TryContraction
    }
}

/// The branch once the expanded point has been evaluated.
pub open spec fn expansion_verdict(reflected: u64, expanded: u64) -> Branch {
    if expanded < reflected {
        Branch::Expand
    } else {
        Branch::Reflect1
    }
}

/// The branch once the contracted point has been evaluated.
pub open spec fn contraction_verdict(worst: u64, contracted: u64) -> Branch {
    if contracted < worst {
        Branch::Contract1
    } else {
        Branch::Contract2
    }
}

/// Chooses between the expanded and the reflected point.
pub fn after_expansion(reflected: u64, expanded: u64) -> (r: Branch)
    ensures
        r == expansion_verdict(reflected, expanded),
{
    if expanded < reflected {
        Branch::Expand
    } else {
        Branch::Reflect1
    }
}

/// A set of at least two vertices, ranked on demand.
pub struct Simplex<P> {
    vertices: Vec<Vertex<P>>,
}

impl<P> View for Simplex<P> {
    type V = Seq<Vertex<P>>;

    closed spec fn view(&self) -> Seq<Vertex<P>> {
        self.vertices@
    }
}

impl<P> Simplex<P> {
    /// A simplex spans at least one axis.
    pub open spec fn wf(&self) -> bool {
        self@.len() >= 2
    }

    /// A simplex of the given vertices, in the given order.
    pub fn new(vertices: Vec<Vertex<P>>) -> (r: Result<Simplex<P>, SetupError>)
        ensures
            vertices@.len() >= 2 <==> r.is_ok(),
            r matches Ok(s) ==> s@ == vertices@ && s.wf(),
            r matches Err(e) ==> e == SetupError::EmptyPoint,
    {
        if vertices.len() >= 2 {
            Ok(Simplex { vertices })
        } else {
            Err(SetupError::EmptyPoint)
        }
    }

    /// The number of axes: one less than the number of vertices.
    pub fn dimension(&self) -> (r: usize)
        requires
            self.wf(),
        ensures
            r == self@.len() - 1,
    {
        self.vertices.len() - 1
    }

    /// The vertices, in their current order.
    pub fn vertices(&self) -> (r: &Vec<Vertex<P>>)
        ensures
            r@ == self@,
    {
        &self.vertices
    }

    /// Sorts the vertices by ascending key: the best comes first, the worst
    /// last. Vertices of equal key may come in any order.
    pub fn rank(&mut self)
        requires
            old(self).wf(),
        ensures
            final(self).wf(),
            final(self)@.to_multiset() == old(self)@.to_multiset(),
            keys_ranked(final(self)@),
    {
        broadcast use vstd::seq_lib::group_to_multiset_ensures;

        let mut rest: Vec<Vertex<P>> = Vec::new();
        std::mem::swap(&mut rest, &mut self.vertices);
        let ghost all = rest@;
        let mut out: Vec<Vertex<P>> = Vec::new();
        while rest.len() > 0
            invariant
                out@.to_multiset().add(rest@.to_multiset()) == all.to_multiset(),
                out@.len() + rest@.len() == all.len(),
                keys_ranked(out@),
                forall|i: int, j: int|
                    0 <= i < out@.len() && 0 <= j < rest@.len() ==> out@[i].key <= rest@[j].key,
            decreases rest@.len(),
        {
            let mut m: usize = 0;
            let mut i: usize = 1;
            while i < rest.len()
                invariant
                    0 <= m < rest@.len(),
                    1 <= i <= rest@.len(),
                    forall|j: int| 0 <= j < i ==> rest@[m as int].key <= rest@[j].key,
                decreases rest@.len() - i,
            {
                if rest[i].key < rest[m].key {
                    m = i;
                }
                i = i + 1;
            }
            let ghost before = rest@;
            let ghost out_before = out@;
            let v = rest.remove(m);
            out.push(v);
            assert(out@ == out_before.push(v));
            assert(rest@ == before.remove(m as int));
            proof {
                out_before.to_multiset_ensures();
                before.to_multiset_ensures();
            }
            assert(out@.to_multiset() =~= out_before.to_multiset().insert(v));
            assert(rest@.to_multiset() =~= before.to_multiset().remove(v));
            assert(before.to_multiset().count(v) > 0) by {
                assert(before.contains(v));
            }
            assert(out@.to_multiset().add(rest@.to_multiset()) =~= out_before.to_multiset().add(
                before.to_multiset(),
            ));
        }
        self.vertices = out;
    }

    /// Decides on the reflected point, given its key. The simplex is ranked.
    pub fn after_reflection(&self, reflected: u64) -> (r: AfterReflection)
        requires
            self.wf(),
        ensures
            r == reflection_verdict(self@[0].key, self@[self@.len() - 2].key, reflected),
    {
        let n = self.vertices.len();
        if reflected < self.vertices[0].key {
            AfterReflection::TryExpansion
        } else if reflected < self.vertices[n - 2].key {
            AfterReflection::Reflect
        } else {
            AfterReflection::TryContraction
        }
    }

    /// Decides on the contracted point, given its key. The simplex is ranked.
    pub fn after_contraction(&self, contracted: u64) -> (r: Branch)
        requires
            self.wf(),
        ensures
            r == contraction_verdict(self@[self@.len() - 1].key, contracted),
    {
        let n = self.vertices.len();
        if contracted < self.vertices[n - 1].key {
            Branch::Contract1
        } else {
            Branch::Contract2
        }
    }

    /// Replaces the worst (last) vertex by `v`.
    pub fn replace_worst(&mut self, v: Vertex<P>)
        requires
            old(self).wf(),
        ensures
            final(self).wf(),
            final(self)@ == with_worst_replaced(old(self)@, v),
    {
        let _ = self.vertices.pop();
        self.vertices.push(v);
        assert(self@ =~= with_worst_replaced(old(self)@, v));
    }

    /// Keeps the best (first) vertex and replaces all the others, in order,
    /// by `others`.
    pub fn shrink(&mut self, others: Vec<Vertex<P>>)
        requires
            old(self).wf(),
            others@.len() == old(self)@.len() - 1,
        ensures
            final(self).wf(),
            final(self)@ == shrunk_toward_best(old(self)@, others@),
    {
        let ghost replacement = others@;
        let mut others = others;
        self.vertices.truncate(1);
        self.vertices.append(&mut others);
        assert(self@ =~= shrunk_toward_best(old(self)@, replacement));
    }
}

/// The best cost never gets worse from one round to the next. Every branch
/// keeps the best vertex: it replaces the worst of at least two vertices, or
/// it shrinks the others toward the best. So once the moved vertices are
/// ranked again, the best key is at most the best key before.
pub proof fn lemma_best_never_worsens<P>(
    before: Seq<Vertex<P>>,
    branch: Branch,
    candidate: Vertex<P>,
    others: Seq<Vertex<P>>,
    ranked: Seq<Vertex<P>>,
)
    requires
        before.len() >= 2,
        others.len() == before.len() - 1,
        ranked.to_multiset() == (if branch == Branch::Contract2 {
            shrunk_toward_best(before, others)
        } else {
            with_worst_replaced(before, candidate)
        }).to_multiset(),
        keys_ranked(ranked),
    ensures
        ranked.len() == before.len(),
        ranked[0].key <= before[0].key,
{
    let moved = if branch == Branch::Contract2 {
        shrunk_toward_best(before, others)
    } else {
        with_worst_replaced(before, candidate)
    };
    assert(moved[0] == before[0]);
    assert(moved.contains(before[0]));
    moved.to_multiset_ensures();
    ranked.to_multiset_ensures();
    assert(moved.to_multiset().count(before[0]) > 0);
    assert(ranked.to_multiset().count(before[0]) > 0);
    assert(ranked.contains(before[0]));
    let i = choose|i: int| 0 <= i < ranked.len() && ranked[i] == before[0];
    assert(ranked[0].key <= ranked[i].key);
}

} // verus!
