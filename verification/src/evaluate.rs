use vstd::prelude::*;

use crate::classify::is_write_kind;
use crate::model::{Access, AccessKind, Reach, Verdict};

verus! {

/// A programmer-authored write: any write that is not the implicit
/// per-iteration rebind of a for-in/for-of control variable.
pub open spec fn is_effective_write(a: Access) -> bool {
    is_write_kind(a.kind) && !a.implicit_rebind
}

/// The programmer-authored writes among a name's accesses, in order.
pub open spec fn effective_writes(s: Seq<Access>) -> Seq<Access>
    decreases s.len(),
{
    if s.len() == 0 {
        Seq::empty()
    } else {
        effective_writes(s.drop_last()) + (if is_effective_write(s.last()) {
            seq![s.last()]
        } else {
            Seq::empty()
        })
    }
}

/// The name is a for-in/for-of control variable: some access is the
/// loop's own per-iteration rebind.
pub open spec fn has_implicit_rebind(s: Seq<Access>) -> bool {
    exists|i: int| 0 <= i < s.len() && s[i].implicit_rebind && is_write_kind(s[i].kind)
}

/// Some plain read textually precedes position `wpos`.
pub open spec fn has_read_before(s: Seq<Access>, wpos: u32) -> bool {
    exists|i: int| 0 <= i < s.len() && s[i].kind == AccessKind::Read && s[i].pos < wpos
}

/// A single write that can be trusted as the name's one-time definite
/// initialization: an unconditional write, or a cross-scope one when
/// `ignore_read_before_assign` tells the rule to treat unprovable order
/// as unconditional.
pub open spec fn write_trusted(w: Access, ignore_read_before_assign: bool) -> bool {
    w.reach == Reach::Unconditional || (w.reach == Reach::CrossScope && ignore_read_before_assign)
}

/// Single-assignment rule for one bound name. The inline initializer and
/// a loop's implicit rebind each count as the name's definite
/// initialization: with one present, any programmer-authored write is a
/// reassignment. Without one, the name is eligible exactly when it has
/// one programmer-authored write that is trusted as its one-time
/// initialization and, unless `ignore_read_before_assign` is set, no
/// plain read textually precedes that write.
pub open spec fn name_eligible(s: Seq<Access>, has_init: bool, ignore_read_before_assign: bool) -> bool {
    let w = effective_writes(s);
    if has_init || has_implicit_rebind(s) {
        w.len() == 0
    } else {
        w.len() == 1 && write_trusted(w[0], ignore_read_before_assign) && (
        ignore_read_before_assign || !has_read_before(s, w[0].pos))
    }
}

/// Position of the access that disqualifies an ineligible name: the
/// first programmer-authored write where the initializer or rebind
/// already initialized the name, the second where the first write could
/// have been the initialization, otherwise the sole untrusted write. A
/// name with neither writes nor an initializer has nothing to point at.
pub open spec fn spec_disqualifier(
    s: Seq<Access>,
    has_init: bool,
    ignore_read_before_assign: bool,
) -> Option<u32> {
    let w = effective_writes(s);
    if name_eligible(s, has_init, ignore_read_before_assign) {
        None
    } else if has_init || has_implicit_rebind(s) {
        Some(w[0].pos)
    } else if w.len() >= 2 {
        Some(w[1].pos)
    } else if w.len() == 1 {
        Some(w[0].pos)
    } else {
        None
    }
}

/// Single-assignment evaluator for one bound name over its classified
/// accesses, with the active `ignore_read_before_assign` flag.
#[verifier::loop_isolation(false)]
pub fn evaluate_name(accesses: &Vec<Access>, has_init: bool, ignore_read_before_assign: bool) -> (v:
    Verdict)
    ensures
        v.reassigned == !name_eligible(accesses@, has_init, ignore_read_before_assign),
        v.disqualifier == spec_disqualifier(accesses@, has_init, ignore_read_before_assign),
{
    let mut writes: Vec<Access> = Vec::new();
    let mut rebind = false;
    let mut i: usize = 0;
    while i < accesses.len()
        invariant
            i <= accesses@.len(),
            writes@ == effective_writes(accesses@.subrange(0, i as int)),
            rebind == has_implicit_rebind(accesses@.subrange(0, i as int)),
        decreases accesses@.len() - i,
    {
        let a = accesses[i];
        let is_write = match a.kind {
            AccessKind::Write => true,
            AccessKind::ReadWrite => true,
            AccessKind::Read => false,
        };
        if is_write && !a.implicit_rebind {
            writes.push(a);
        }
        if is_write && a.implicit_rebind {
            rebind = true;
        }
        proof {
            let prefix = accesses@.subrange(0, i + 1);
            assert(prefix.drop_last() =~= accesses@.subrange(0, i as int));
            assert(prefix.last() == accesses@[i as int]);
            assert(writes@ =~= effective_writes(prefix));
            if has_implicit_rebind(prefix) && !has_implicit_rebind(accesses@.subrange(0, i as int))
             {
                let k = choose|k: int|
                    0 <= k < prefix.len() && prefix[k].implicit_rebind && is_write_kind(
                        prefix[k].kind,
                    );
                assert(k == i as int);
            }
        }
        i = i + 1;
    }
    proof {
        assert(accesses@.subrange(0, accesses@.len() as int) =~= accesses@);
    }
    if has_init || rebind {
        if writes.len() == 0 {
            Verdict { reassigned: false, disqualifier: None }
        } else {
            Verdict { reassigned: true, disqualifier: Some(writes[0].pos) }
        }
    } else {
        if writes.len() == 1 {
            let w = writes[0];
            let trusted = match w.reach {
                Reach::Unconditional => true,
                Reach::CrossScope => ignore_read_before_assign,
                Reach::Conditional => false,
            };
            let read_ok = ignore_read_before_assign || !read_before(accesses, w.pos);
            if trusted && read_ok {
                Verdict { reassigned: false, disqualifier: None }
            } else {
                Verdict { reassigned: true, disqualifier: Some(w.pos) }
            }
        } else if writes.len() >= 2 {
            Verdict { reassigned: true, disqualifier: Some(writes[1].pos) }
        } else {
            Verdict { reassigned: true, disqualifier: None }
        }
    }
}

/// Whether some plain read of the name textually precedes `wpos`.
#[verifier::loop_isolation(false)]
fn read_before(accesses: &Vec<Access>, wpos: u32) -> (r: bool)
    ensures
        r == has_read_before(accesses@, wpos),
{
    let mut i: usize = 0;
    while i < accesses.len()
        invariant
            i <= accesses@.len(),
            forall|j: int|
                0 <= j < i ==> !(accesses@[j].kind == AccessKind::Read && accesses@[j].pos < wpos),
        decreases accesses@.len() - i,
    {
        let a = accesses[i];
        let is_read = match a.kind {
            AccessKind::Read => true,
            AccessKind::Write => false,
            AccessKind::ReadWrite => false,
        };
        if is_read && a.pos < wpos {
            return true;
        }
        i = i + 1;
    }
    false
}

} // verus!
