use vstd::prelude::*;

use crate::model::{Access, AccessKind, RawAccess, Reach};

verus! {

/// The access is a write of any sort: a plain write, or the write half of
/// a compound assignment or update. The read a compound assignment
/// implies never disqualifies by itself.
pub open spec fn is_write_kind(k: AccessKind) -> bool {
    k == AccessKind::Write || k == AccessKind::ReadWrite
}

/// Reference classification of one occurrence: an occurrence in a scope
/// the declaring scope does not structurally dominate is `CrossScope`;
/// otherwise one behind a branch, loop or exception boundary is
/// `Conditional`; otherwise it is `Unconditional`. A write in the
/// control-variable slot of a for-in/for-of header is the language's own
/// per-iteration rebind.
pub open spec fn classify(r: RawAccess) -> Access {
    Access {
        pos: r.pos,
        kind: r.kind,
        reach: if r.cross_scope {
            Reach::CrossScope
        } else if r.behind_branch {
            Reach::Conditional
        } else {
            Reach::Unconditional
        },
        implicit_rebind: r.in_loop_head && is_write_kind(r.kind),
    }
}

/// Classification of a whole access list, in order.
pub open spec fn classify_all(rs: Seq<RawAccess>) -> Seq<Access> {
    rs.map_values(|r: RawAccess| classify(r))
}

/// Reference classifier: annotates each occurrence of a symbol with its
/// reachability and implicit-rebind classification, in textual order.
pub fn classify_accesses(rs: &Vec<RawAccess>) -> (out: Vec<Access>)
    ensures
        out@ == classify_all(rs@),
{
    let mut out: Vec<Access> = Vec::new();
    let mut i: usize = 0;
    while i < rs.len()
        invariant
            i <= rs@.len(),
            out@.len() == i,
            forall|j: int| 0 <= j < i ==> out@[j] == classify(rs@[j]),
        decreases rs@.len() - i,
    {
        let r = rs[i];
        let reach = if r.cross_scope {
            Reach::CrossScope
        } else if r.behind_branch {
            Reach::Conditional
        } else {
            Reach::Unconditional
        };
        let is_write = match r.kind {
            AccessKind::Write => true,
            AccessKind::ReadWrite => true,
            AccessKind::Read => false,
        };
        out.push(
            Access { pos: r.pos, kind: r.kind, reach, implicit_rebind: r.in_loop_head && is_write },
        );
        i = i + 1;
    }
    proof {
        assert(out@ =~= classify_all(rs@));
    }
    out
}

} // verus!
