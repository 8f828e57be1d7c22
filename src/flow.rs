use vstd::prelude::*;
use crate::types::{ControlFlow, Register};

verus! {

/// The body of one arm of a two-way branch inside an instruction: it does nothing, writes
/// one register, or leaves the block for a known address.
#[derive(Debug, Clone, Copy)]
pub enum Arm<V> {
    Continue,
    StoreRegister(Register, V),
    Jump(u32),
}

impl<V> Arm<V> {
    /// How control leaves the arm.
    pub open spec fn flow(self) -> ControlFlow {
        match self {
            Arm::Jump(t) => ControlFlow::DirectJump(t),
            _ => ControlFlow::NextInstruction,
        }
    }

    pub fn arm_flow(&self) -> (r: ControlFlow)
        ensures
            r == self.flow(),
    {
        match self {
            Arm::Jump(t) => ControlFlow::DirectJump(*t),
            _ => ControlFlow::NextInstruction,
        }
    }
}

/// The exits that a flow stands for: a `Conditional` lists its own, any other flow is one.
pub open spec fn exits(cf: ControlFlow) -> Seq<ControlFlow> {
    match cf {
        ControlFlow::Conditional(v) => v@,
        _ => seq![cf],
    }
}

/// `r` joins the flows of two arms: a `Conditional` of the exits of both, one level flat.
pub open spec fn join_spec(left: ControlFlow, right: ControlFlow, r: ControlFlow) -> bool {
    &&& r is Conditional
    &&& r->Conditional_0@ == exits(left) + exits(right)
}

fn push_exits(res: &mut Vec<ControlFlow>, cf: ControlFlow)
    ensures
        final(res)@ == old(res)@ + exits(cf),
{
    match cf {
        ControlFlow::Conditional(mut v) => {
            res.append(&mut v);
        },
        _ => {
            res.push(cf);
        },
    }
}

/// Joins the flows of the two arms of a branch.
pub fn join(left: ControlFlow, right: ControlFlow) -> (r: ControlFlow)
    ensures
        join_spec(left, right, r),
{
    let mut res: Vec<ControlFlow> = Vec::new();
    push_exits(&mut res, left);
    push_exits(&mut res, right);
    ControlFlow::Conditional(res)
}

/// How the emitted code leaves an arm that ends in a given flow.
#[derive(Debug, Clone, Copy, PartialEq, Eq, Structural)]
pub enum ArmEnd {
    /// An unconditional branch to the merge point of the two arms.
    BranchToMerge,
    /// A tail call of the block function of the address, then a return.
    TailCall(u32),
    /// A return from the block function.
    ReturnFromBlock,
    /// The arm's own branches decide; only those that fall through reach the merge point.
    Nested,
}

pub open spec fn arm_end_spec(cf: ControlFlow) -> ArmEnd {
    match cf {
        ControlFlow::NextInstruction => ArmEnd::BranchToMerge,
        ControlFlow::DirectJump(t) => ArmEnd::TailCall(t),
        ControlFlow::Return | ControlFlow::IndirectJump => ArmEnd::ReturnFromBlock,
        _ => ArmEnd::Nested,
    }
}

pub fn arm_end(cf: &ControlFlow) -> (r: ArmEnd)
    ensures
        r == arm_end_spec(*cf),
{
    match cf {
        ControlFlow::NextInstruction => ArmEnd::BranchToMerge,
        ControlFlow::DirectJump(t) => ArmEnd::TailCall(*t),
        ControlFlow::Return | ControlFlow::IndirectJump => ArmEnd::ReturnFromBlock,
        _ => ArmEnd::Nested,
    }
}

/// Number of the edges into the merge point that a flow brings: one for falling through,
/// none for a jump or a return, and one for each exit of a `Conditional` that falls through.
pub open spec fn merge_edges(cf: ControlFlow) -> nat {
    match cf {
        ControlFlow::NextInstruction => 1,
        ControlFlow::Conditional(v) => v@.filter(|c: ControlFlow| c is NextInstruction).len(),
        _ => 0,
    }
}

pub fn merge_edge_count(cf: &ControlFlow) -> (r: usize)
    ensures
        r as nat == merge_edges(*cf),
{
    match cf {
        ControlFlow::NextInstruction => 1,
        ControlFlow::Conditional(v) => {
            let mut n: usize = 0;
            let mut i: usize = 0;
            while i < v.len()
                invariant
                    i <= v@.len(),
                    n as nat == v@.take(i as int).filter(|c: ControlFlow| c is NextInstruction).len(),
                    n <= i,
                decreases v.len() - i,
            {
                proof {
                    reveal(Seq::filter);
                    assert(v@.take(i as int + 1).drop_last() == v@.take(i as int));
                }
                if matches!(v[i], ControlFlow::NextInstruction) {
                    n = n + 1;
                }
                i = i + 1;
            }
            assert(v@.take(v@.len() as int) == v@);
            n
        },
        _ => 0,
    }
}

/// An arm that jumps brings no edge into the merge point, and two arms that fall through bring
/// one edge each.
pub proof fn lemma_join_merge_edges(left: ControlFlow, right: ControlFlow, r: ControlFlow)
    requires
        join_spec(left, right, r),
        !(left is Conditional),
        !(right is Conditional),
    ensures
        left is DirectJump ==> merge_edges(r) == merge_edges(right),
        right is DirectJump ==> merge_edges(r) == merge_edges(left),
        left is DirectJump && right is DirectJump ==> merge_edges(r) == 0,
        left is NextInstruction && right is NextInstruction ==> merge_edges(r) == 2,
{
    reveal_with_fuel(Seq::filter, 3);
    let s = r->Conditional_0@;
    assert(s == seq![left, right]);
    assert(s.drop_last() == seq![left]);
    assert(seq![left].drop_last() == Seq::<ControlFlow>::empty());
}

} // verus!
