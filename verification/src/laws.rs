use vstd::prelude::*;

use crate::classify::is_write_kind;
use crate::evaluate::{
    effective_writes, has_implicit_rebind, has_read_before, is_effective_write, name_eligible,
    write_trusted,
};
use crate::extract::declarator_names;
use crate::model::{Access, Declaration, Declarator, RefTable, StatementPlan};
use crate::options::{Destructuring, PreferConstOptions};
use crate::plan::{
    declarator_all_eligible, declarator_any_eligible, declarator_eligible, spec_apply_fix,
    spec_plan, symbol_eligible,
};

verus! {

/// Idempotence of the fix: applying the planned rewrite to a fixable
/// statement and re-running the analyzer on the result, over the same
/// reference view, warns no more — the rewritten statement's qualifier is
/// already immutable, so nothing further is owed and nothing further may
/// be rewritten.
pub proof fn lemma_fix_idempotent(refs: RefTable, decl: Declaration, opts: PreferConstOptions)
    requires
        spec_plan(refs, decl, opts) matches Some(plan) && plan.fixable,
    ensures
        spec_plan(refs, spec_apply_fix(decl), opts) == Some(
            (StatementPlan { should_warn: false, fixable: false, span: decl.qualifier_span }),
        ),
{
    assert(spec_apply_fix(decl).declarators == decl.declarators);
}

/// Single-write threshold: a declarator with no inline initializer (and
/// not a loop-head control variable, whose implicit rebind already
/// initializes it) is eligible exactly when the bound name has exactly
/// one programmer-authored write and that write can be trusted as its
/// one-time initialization — unconditional, or cross-scope with
/// `ignore_read_before_assign` set. The threshold leaves out the inputs
/// on which a plain read textually precedes that sole write while
/// `ignore_read_before_assign` is unset: there the read disqualifies the
/// name by itself.
pub proof fn lemma_single_write_threshold(accesses: Seq<Access>, ignore_read_before_assign: bool)
    requires
        !has_implicit_rebind(accesses),
        ignore_read_before_assign || effective_writes(accesses).len() != 1 || !has_read_before(
            accesses,
            effective_writes(accesses)[0].pos,
        ),
    ensures
        name_eligible(accesses, false, ignore_read_before_assign) <==> (effective_writes(
            accesses,
        ).len() == 1 && write_trusted(effective_writes(accesses)[0], ignore_read_before_assign)),
{
}

/// Policy monotonicity: a declarator that binds at least one name and is
/// eligible under policy `All` is eligible under policy `Any` as well;
/// the reverse does not hold.
pub proof fn lemma_policy_monotonic(
    refs: RefTable,
    d: Declarator,
    ignore_read_before_assign: bool,
)
    requires
        declarator_names(d.pattern).len() > 0,
    ensures
        declarator_eligible(
            refs,
            d,
            (PreferConstOptions { destructuring: Destructuring::All, ignore_read_before_assign }),
        ) ==> declarator_eligible(
            refs,
            d,
            (PreferConstOptions { destructuring: Destructuring::Any, ignore_read_before_assign }),
        ),
{
    if declarator_all_eligible(refs, d, ignore_read_before_assign) {
        assert(symbol_eligible(
            refs,
            declarator_names(d.pattern)[0].symbol,
            d.has_init,
            ignore_read_before_assign,
        ));
        assert(declarator_any_eligible(refs, d, ignore_read_before_assign));
    }
}

/// A sequence with no programmer-authored write has no effective writes.
proof fn lemma_no_effective_writes(s: Seq<Access>)
    requires
        forall|i: int| 0 <= i < s.len() ==> !is_effective_write(s[i]),
    ensures
        effective_writes(s).len() == 0,
    decreases s.len(),
{
    if s.len() > 0 {
        lemma_no_effective_writes(s.drop_last());
    }
}

/// Loop exemption: a for-in/for-of control variable whose only writes
/// are the loop's own per-iteration rebinds is never held to be
/// reassigned, however many iterations — and so rebinds — occur: the
/// implicit rebind is the language's value supply, not a
/// programmer-authored reassignment, and it stands in for the missing
/// inline initializer.
pub proof fn lemma_loop_exemption(accesses: Seq<Access>, ignore_read_before_assign: bool)
    requires
        has_implicit_rebind(accesses),
        forall|i: int|
            0 <= i < accesses.len() && is_write_kind(accesses[i].kind)
                ==> accesses[i].implicit_rebind,
    ensures
        name_eligible(accesses, false, ignore_read_before_assign),
{
    assert forall|i: int| 0 <= i < accesses.len() implies !is_effective_write(accesses[i]) by {
        if is_write_kind(accesses[i].kind) {
            assert(accesses[i].implicit_rebind);
        }
    }
    lemma_no_effective_writes(accesses);
}

} // verus!
