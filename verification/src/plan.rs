//! The logical plan: an append-only DAG of operator nodes. Node ids are
//! assigned sequentially from zero and never reused; a node's parents must
//! already exist when it is appended, so every parent id is strictly below
//! the node's own id and no cycle can arise.

use vstd::prelude::*;
use crate::catalog::{
    Dedup, EdgeExpand, GetV, GroupBy, IndexedScan, Limit, OrderBy, PathExpand, Project, Scan,
    Select, Unfold, Union,
};
use crate::common::IrError;

verus! {

/// One operator of the plan, as the catalog built it.
#[derive(Debug, Clone, PartialEq, Eq)]
pub enum Operator {
    Scan(Scan),
    IndexedScan(IndexedScan),
    EdgeExpand(EdgeExpand),
    GetV(GetV),
    PathExpand(PathExpand),
    Project(Project),
    Select(Select),
    Join(crate::catalog::Join),
    Union(Union),
    GroupBy(GroupBy),
    OrderBy(OrderBy),
    Dedup(Dedup),
    Unfold(Unfold),
    Limit(Limit),
}

/// How many parents each operator takes: none for the sources, two for the
/// combining operators, one for everything else.
pub open spec fn arity(opr: Operator) -> int {
    match opr {
        Operator::Scan(_) => 0,
        Operator::IndexedScan(_) => 0,
        Operator::Join(_) => 2,
        Operator::Union(_) => 2,
        _ => 1,
    }
}

fn arity_of(opr: &Operator) -> (r: usize)
    ensures
        r as int == arity(*opr),
{
    match opr {
        Operator::Scan(_) => 0,
        Operator::IndexedScan(_) => 0,
        Operator::Join(_) => 2,
        Operator::Union(_) => 2,
        _ => 1,
    }
}

/// One node of the plan: its operator, the parent ids given at creation in
/// left/right order, and the ids of the children appended later (kept only
/// for diagnostics).
#[derive(Debug, Clone, PartialEq, Eq)]
pub struct Node {
    pub opr: Operator,
    pub parents: Vec<usize>,
    pub children: Vec<usize>,
}

/// Every id in a parent list is strictly below `bound`.
pub open spec fn parents_below(ps: Seq<usize>, bound: int) -> bool {
    forall|j: int| 0 <= j < ps.len() ==> (#[trigger] ps[j]) < bound
}

/// Every id in a parent list names an existing node.
pub open spec fn parents_exist(nodes: Seq<Node>, ps: Seq<usize>) -> bool {
    parents_below(ps, nodes.len() as int)
}

/// How many entries of a parent list name the id `v`.
pub open spec fn occurrences(ps: Seq<usize>, v: int) -> nat
    decreases ps.len(),
{
    if ps.len() == 0 {
        0
    } else {
        occurrences(ps.drop_last(), v) + (if ps.last() == v {
            1nat
        } else {
            0nat
        })
    }
}

proof fn lemma_occurrences_step(ps: Seq<usize>, j: int, v: int)
    requires
        0 <= j < ps.len(),
    ensures
        occurrences(ps.take(j + 1), v) == occurrences(ps.take(j), v) + (if ps[j] == v {
            1nat
        } else {
            0nat
        }),
{
    assert(ps.take(j + 1).drop_last() =~= ps.take(j));
    assert(ps.take(j + 1).last() == ps[j]);
}

/// The error an append must fail with, if any: a missing parent is reported
/// before a wrong parent count.
pub open spec fn spec_append_err(nodes: Seq<Node>, opr: Operator, ps: Seq<usize>) -> Option<
    IrError,
> {
    if !parents_exist(nodes, ps) {
        Option::Some(IrError::ParentNotFound)
    } else if ps.len() != arity(opr) {
        Option::Some(IrError::ArityMismatch)
    } else {
        Option::None
    }
}

/// An owned, mutable logical plan. Mutated exclusively through appends;
/// destroyed as a unit, releasing every node and payload together.
#[derive(Debug, Clone, PartialEq, Eq)]
pub struct LogicalPlan {
    pub nodes: Vec<Node>,
}

impl LogicalPlan {
    /// Every node's parent ids are strictly below its own id.
    pub open spec fn wf(&self) -> bool {
        forall|i: int|
            0 <= i < self.nodes@.len() ==> parents_below(
                (#[trigger] self.nodes@[i]).parents@,
                i,
            )
    }

    /// An empty plan; the next id to be assigned is zero.
    pub fn new() -> (r: LogicalPlan)
        ensures
            r.nodes@ == Seq::<Node>::empty(),
            r.wf(),
    {
        LogicalPlan { nodes: Vec::new() }
    }

    /// How many nodes the plan holds; equally, the id the next successful
    /// append will assign.
    pub fn len(&self) -> (r: usize)
        ensures
            r == self.nodes@.len(),
    {
        self.nodes.len()
    }

    /// Read one node.
    pub fn node_at(&self, id: usize) -> (r: &Node)
        requires
            id < self.nodes@.len(),
        ensures
            *r == self.nodes@[id as int],
    {
        &self.nodes[id]
    }

    /// Append one operator under the given parents. Validated in order:
    /// every parent id must already exist (`ParentNotFound`), and the number
    /// of parents must match the operator's arity (`ArityError`). On success
    /// the next sequential id is allocated, the node is stored with the
    /// given parents and no children, and the new id is registered as a
    /// child of each parent, once per occurrence. On failure the plan —
    /// including the next-id counter — is left unchanged.
    pub fn append_node(&mut self, opr: Operator, parent_ids: Vec<usize>) -> (r: Result<
        usize,
        IrError,
    >)
        requires
            old(self).wf(),
        ensures
            final(self).wf(),
            match r {
                Result::Ok(id) => spec_append_err(old(self).nodes@, opr, parent_ids@) is None && id
                    == old(self).nodes@.len() && final(self).nodes@.len() == old(self).nodes@.len()
                    + 1 && final(self).nodes@.last().opr == opr && final(self).nodes@.last().parents
                    == parent_ids && final(self).nodes@.last().children@ == Seq::<usize>::empty()
                    && (forall|i: int|
                    0 <= i < old(self).nodes@.len() ==> (#[trigger] final(self).nodes@[i]).opr
                        == old(self).nodes@[i].opr && final(self).nodes@[i].parents == old(self).nodes@[i].parents && final(self).nodes@[i].children@ == old(self).nodes@[i].children@ + Seq::new(
                        occurrences(parent_ids@, i),
                        |k: int| old(self).nodes@.len() as usize,
                    )),
                Result::Err(e) => Option::Some(e) == spec_append_err(
                    old(self).nodes@,
                    opr,
                    parent_ids@,
                ) && *final(self) == *old(self),
            },
    {
        let n = self.nodes.len();
        let mut j: usize = 0;
        while j < parent_ids.len()
            invariant
                j <= parent_ids@.len(),
                forall|k: int| 0 <= k < j ==> (#[trigger] parent_ids@[k]) < n,
                n == self.nodes@.len(),
                *self == *old(self),
                old(self).wf(),
            decreases parent_ids@.len() - j,
        {
            if parent_ids[j] >= n {
                return Result::Err(IrError::ParentNotFound);
            }
            j = j + 1;
        }
        let a = arity_of(&opr);
        if parent_ids.len() != a {
            return Result::Err(IrError::ArityMismatch);
        }
        let mut j: usize = 0;
        proof {
            assert(parent_ids@.take(0) =~= Seq::<usize>::empty());
            assert forall|i: int| 0 <= i < self.nodes@.len() implies self.nodes@[i].children@
                == old(self).nodes@[i].children@ + Seq::new(
                occurrences(parent_ids@.take(0), i),
                |k: int| n as usize,
            ) by {
                assert(occurrences(parent_ids@.take(0), i) == 0);
                assert((old(self).nodes@[i].children@ + Seq::new(0, |k: int| n as usize)) =~= old(self).nodes@[i].children@);
            }
        }
        while j < parent_ids.len()
            invariant
                j <= parent_ids@.len(),
                parents_exist(old(self).nodes@, parent_ids@),
                old(self).wf(),
                n == old(self).nodes@.len(),
                self.nodes@.len() == n,
                forall|i: int|
                    0 <= i < n ==> (#[trigger] self.nodes@[i]).opr == old(self).nodes@[i].opr
                        && self.nodes@[i].parents == old(self).nodes@[i].parents
                        && self.nodes@[i].children@ == old(self).nodes@[i].children@ + Seq::new(
                        occurrences(parent_ids@.take(j as int), i),
                        |k: int| n as usize,
                    ),
            decreases parent_ids@.len() - j,
        {
            let p = parent_ids[j];
            let ghost before = self.nodes@;
            let node = &mut self.nodes[p];
            node.children.push(n);
            proof {
                lemma_occurrences_step(parent_ids@, j as int, p as int);
                assert(self.nodes@ == before.update(
                    p as int,
                    Node {
                        opr: before[p as int].opr,
                        parents: before[p as int].parents,
                        children: self.nodes@[p as int].children,
                    },
                ));
                assert forall|i: int| 0 <= i < n implies (#[trigger] self.nodes@[i]).opr == old(self).nodes@[i].opr && self.nodes@[i].parents == old(self).nodes@[i].parents
                    && self.nodes@[i].children@ == old(self).nodes@[i].children@ + Seq::new(
                    occurrences(parent_ids@.take(j + 1), i),
                    |k: int| n as usize,
                ) by {
                    if i != p as int {
                        lemma_occurrences_step(parent_ids@, j as int, i);
                    } else {
                        assert((old(self).nodes@[i].children@ + Seq::new(
                            occurrences(parent_ids@.take(j as int), i),
                            |k: int| n as usize,
                        )).push(n as usize) =~= (old(self).nodes@[i].children@ + Seq::new(
                            occurrences(parent_ids@.take(j as int), i) + 1,
                            |k: int| n as usize,
                        )));
                    }
                }
            }
            j = j + 1;
        }
        proof {
            assert(parent_ids@.take(parent_ids@.len() as int) =~= parent_ids@);
        }
        let id = n;
        self.nodes.push(Node { opr, parents: parent_ids, children: Vec::new() });
        proof {
            assert forall|i: int|
                0 <= i < self.nodes@.len() implies parents_below(
                (#[trigger] self.nodes@[i]).parents@,
                i,
            ) by {
                if i < n {
                    assert(parents_below(old(self).nodes@[i].parents@, i));
                }
            }
            assert(self.nodes@.last().children@ =~= Seq::<usize>::empty());
        }
        Result::Ok(id)
    }
}

impl Default for LogicalPlan {
    /// The default plan is the empty plan.
    fn default() -> (r: LogicalPlan)
        ensures
            r.nodes@ == Seq::<Node>::empty(),
            r.wf(),
    {
        LogicalPlan::new()
    }
}

// ---------------------------------------------------------------------------
// Laws of the plan
// ---------------------------------------------------------------------------

/// In a well-formed plan, every node's parent ids are strictly less than its
/// own id. `LogicalPlan::new` establishes well-formedness and `append_node`
/// preserves it, so this holds after any sequence of appends.
pub proof fn lemma_parents_strictly_below(plan: LogicalPlan, i: int, j: int)
    requires
        plan.wf(),
        0 <= i < plan.nodes@.len(),
        0 <= j < plan.nodes@[i].parents@.len(),
    ensures
        plan.nodes@[i].parents@[j] < i,
{
}

/// An append naming a parent that does not exist fails with `ParentNotFound`;
/// by `append_node`'s contract the plan, including its next-id counter, is
/// then unchanged.
pub proof fn lemma_parent_not_found(nodes: Seq<Node>, opr: Operator, ps: Seq<usize>)
    requires
        !parents_exist(nodes, ps),
    ensures
        spec_append_err(nodes, opr, ps) == Option::Some(IrError::ParentNotFound),
{
}

/// An append of a join or union whose parents all exist fails with the arity
/// error unless exactly two parents are given. (With a missing parent,
/// `ParentNotFound` wins, per the validation order.)
pub proof fn lemma_join_union_arity(nodes: Seq<Node>, opr: Operator, ps: Seq<usize>)
    requires
        parents_exist(nodes, ps),
        opr is Join || opr is Union,
        ps.len() != 2,
    ensures
        spec_append_err(nodes, opr, ps) == Option::Some(IrError::ArityMismatch),
{
}

/// An append of a scan or indexed scan whose parents all exist fails with
/// the arity error on any non-empty parent list.
pub proof fn lemma_source_arity(nodes: Seq<Node>, opr: Operator, ps: Seq<usize>)
    requires
        parents_exist(nodes, ps),
        opr is Scan || opr is IndexedScan,
        ps.len() != 0,
    ensures
        spec_append_err(nodes, opr, ps) == Option::Some(IrError::ArityMismatch),
{
}

} // verus!
