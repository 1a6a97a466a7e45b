use vstd::prelude::*;

use crate::classify::{classify_accesses, classify_all};
use crate::evaluate::{evaluate_name, name_eligible};
use crate::extract::{declarator_names, extract_bound_names, is_plain};
use crate::model::{
    Declaration, Declarator, DeclaratorVerdict, Pattern, Qualifier, RawAccess, RefTable,
    StatementPlan, SymbolRefs,
};
use crate::options::{Destructuring, PreferConst, PreferConstOptions};

verus! {

/// The accesses the collaborator resolved for a symbol: the first entry
/// of the table that carries the symbol, or None for an unresolved one.
pub open spec fn lookup_refs(entries: Seq<SymbolRefs>, symbol: u32) -> Option<Seq<RawAccess>>
    decreases entries.len(),
{
    if entries.len() == 0 {
        None
    } else if entries[0].symbol == symbol {
        Some(entries[0].accesses@)
    } else {
        lookup_refs(entries.drop_first(), symbol)
    }
}

/// The collaborator resolved the symbol.
pub open spec fn symbol_resolved(refs: RefTable, symbol: u32) -> bool {
    lookup_refs(refs.entries@, symbol) is Some
}

/// The single-assignment verdict for one resolved symbol: its raw
/// accesses classified, then held to the single-assignment rule.
pub open spec fn symbol_eligible(
    refs: RefTable,
    symbol: u32,
    has_init: bool,
    ignore_read_before_assign: bool,
) -> bool {
    match lookup_refs(refs.entries@, symbol) {
        Some(accesses) => name_eligible(classify_all(accesses), has_init, ignore_read_before_assign),
        None => false,
    }
}

/// Every name the declarator's pattern binds was resolved.
pub open spec fn declarator_resolved(refs: RefTable, d: Declarator) -> bool {
    forall|i: int|
        0 <= i < declarator_names(d.pattern).len() ==> symbol_resolved(
            refs,
            declarator_names(d.pattern)[i].symbol,
        )
}

/// Every name the declarator binds is eligible.
pub open spec fn declarator_all_eligible(
    refs: RefTable,
    d: Declarator,
    ignore_read_before_assign: bool,
) -> bool {
    forall|i: int|
        0 <= i < declarator_names(d.pattern).len() ==> symbol_eligible(
            refs,
            declarator_names(d.pattern)[i].symbol,
            d.has_init,
            ignore_read_before_assign,
        )
}

/// At least one name the declarator binds is eligible.
pub open spec fn declarator_any_eligible(
    refs: RefTable,
    d: Declarator,
    ignore_read_before_assign: bool,
) -> bool {
    exists|i: int|
        0 <= i < declarator_names(d.pattern).len() && symbol_eligible(
            refs,
            declarator_names(d.pattern)[i].symbol,
            d.has_init,
            ignore_read_before_assign,
        )
}

/// Destructuring policy evaluator: a plain-identifier declarator follows
/// its one verdict; a destructured one needs every name under policy
/// `All`, and at least one name under policy `Any`.
pub open spec fn declarator_eligible(
    refs: RefTable,
    d: Declarator,
    opts: PreferConstOptions,
) -> bool {
    if is_plain(d.pattern) || opts.destructuring == Destructuring::All {
        declarator_all_eligible(refs, d, opts.ignore_read_before_assign)
    } else {
        declarator_any_eligible(refs, d, opts.ignore_read_before_assign)
    }
}

/// Every name of every declarator of the statement was resolved; an
/// unresolved name makes the whole statement be skipped.
pub open spec fn all_declarators_resolved(refs: RefTable, decl: Declaration) -> bool {
    forall|i: int|
        0 <= i < decl.declarators@.len() ==> declarator_resolved(refs, decl.declarators@[i])
}

/// A diagnostic is owed: the qualifier is still mutable and at least one
/// declarator is eligible under the active policy.
pub open spec fn spec_should_warn(
    refs: RefTable,
    decl: Declaration,
    opts: PreferConstOptions,
) -> bool {
    &&& decl.qualifier == Qualifier::Mutable
    &&& exists|i: int|
        0 <= i < decl.declarators@.len() && declarator_eligible(refs, decl.declarators@[i], opts)
}

/// The statement may be rewritten by swapping the qualifier keyword:
/// a diagnostic is owed, every bound name of every declarator is
/// eligible (partial eligibility is reported but left for manual
/// remediation), and each declarator pairs with a definite
/// initialization — its inline initializer, or the per-iteration value a
/// for-in/for-of head receives.
pub open spec fn spec_fixable(refs: RefTable, decl: Declaration, opts: PreferConstOptions) -> bool {
    &&& spec_should_warn(refs, decl, opts)
    &&& forall|i: int|
        0 <= i < decl.declarators@.len() ==> declarator_all_eligible(
            refs,
            decl.declarators@[i],
            opts.ignore_read_before_assign,
        )
    &&& forall|i: int|
        0 <= i < decl.declarators@.len() ==> (decl.declarators@[i].has_init || decl.loop_head)
}

/// Statement-level decision for one declaration: None when some name
/// could not be resolved (the statement is skipped, silence being the
/// safe default), otherwise the diagnostic-and-fix plan, whose span is
/// always the qualifier keyword's.
pub open spec fn spec_plan(
    refs: RefTable,
    decl: Declaration,
    opts: PreferConstOptions,
) -> Option<StatementPlan> {
    if !all_declarators_resolved(refs, decl) {
        None
    } else {
        Some(
            StatementPlan {
                should_warn: spec_should_warn(refs, decl, opts),
                fixable: spec_fixable(refs, decl, opts),
                span: decl.qualifier_span,
            },
        )
    }
}

/// The planned rewrite of a fixable statement: the qualifier becomes the
/// immutable-binding keyword; declarators, initializers and everything
/// else are untouched.
pub open spec fn spec_apply_fix(decl: Declaration) -> Declaration {
    Declaration {
        qualifier: Qualifier::Immutable,
        qualifier_span: decl.qualifier_span,
        declarators: decl.declarators,
        loop_head: decl.loop_head,
    }
}

/// Applies the planned rewrite to a statement.
pub fn apply_fix(decl: Declaration) -> (fixed: Declaration)
    ensures
        fixed == spec_apply_fix(decl),
{
    Declaration {
        qualifier: Qualifier::Immutable,
        qualifier_span: decl.qualifier_span,
        declarators: decl.declarators,
        loop_head: decl.loop_head,
    }
}

/// Looks a symbol's accesses up in the reference table.
#[verifier::loop_isolation(false)]
pub fn lookup_accesses<'a>(refs: &'a RefTable, symbol: u32) -> (r: Option<&'a Vec<RawAccess>>)
    ensures
        match r {
            Some(accesses) => lookup_refs(refs.entries@, symbol) == Some(accesses@),
            None => lookup_refs(refs.entries@, symbol) is None,
        },
{
    let ghost entries = refs.entries@;
    proof {
        assert(entries.subrange(0, entries.len() as int) =~= entries);
    }
    let mut i: usize = 0;
    while i < refs.entries.len()
        invariant
            i <= entries.len(),
            lookup_refs(entries, symbol) == lookup_refs(
                entries.subrange(i as int, entries.len() as int),
                symbol,
            ),
        decreases entries.len() - i,
    {
        proof {
            let tail = entries.subrange(i as int, entries.len() as int);
            assert(tail[0] == entries[i as int]);
            assert(tail.drop_first() =~= entries.subrange(i + 1, entries.len() as int));
        }
        if refs.entries[i].symbol == symbol {
            return Some(&refs.entries[i].accesses);
        }
        i = i + 1;
    }
    proof {
        assert(entries.subrange(entries.len() as int, entries.len() as int).len() == 0);
    }
    None
}

/// Evaluates one declarator: extracts its bound names, classifies each
/// name's accesses, applies the single-assignment rule, and aggregates
/// the verdicts under the destructuring policy. None when some name was
/// not resolved.
#[verifier::loop_isolation(false)]
pub fn evaluate_declarator(refs: &RefTable, d: &Declarator, opts: &PreferConstOptions) -> (r:
    Option<DeclaratorVerdict>)
    ensures
        (r is Some) == declarator_resolved(*refs, *d),
        r matches Some(dv) ==> dv.eligible == declarator_eligible(*refs, *d, *opts),
        r matches Some(dv) ==> dv.all_names_eligible == declarator_all_eligible(
            *refs,
            *d,
            opts.ignore_read_before_assign,
        ),
{
    let names = extract_bound_names(&d.pattern);
    let ghost name_seq = declarator_names(d.pattern);
    let mut all_eligible = true;
    let mut any_eligible = false;
    let mut i: usize = 0;
    while i < names.len()
        invariant
            i <= name_seq.len(),
            names@ == name_seq,
            forall|j: int| 0 <= j < i ==> symbol_resolved(*refs, name_seq[j].symbol),
            all_eligible <==> (forall|j: int|
                0 <= j < i ==> symbol_eligible(
                    *refs,
                    name_seq[j].symbol,
                    d.has_init,
                    opts.ignore_read_before_assign,
                )),
            any_eligible <==> (exists|j: int|
                0 <= j < i && symbol_eligible(
                    *refs,
                    name_seq[j].symbol,
                    d.has_init,
                    opts.ignore_read_before_assign,
                )),
        decreases name_seq.len() - i,
    {
        let symbol = names[i].symbol;
        match lookup_accesses(refs, symbol) {
            None => {
                proof {
                    assert(!symbol_resolved(*refs, name_seq[i as int].symbol));
                }
                return None;
            },
            Some(raw) => {
                let classified = classify_accesses(raw);
                let verdict = evaluate_name(
                    &classified,
                    d.has_init,
                    opts.ignore_read_before_assign,
                );
                let eligible = !verdict.reassigned;
                proof {
                    assert(eligible == symbol_eligible(
                        *refs,
                        name_seq[i as int].symbol,
                        d.has_init,
                        opts.ignore_read_before_assign,
                    ));
                }
                all_eligible = all_eligible && eligible;
                any_eligible = any_eligible || eligible;
            },
        }
        i = i + 1;
    }
    let plain = match &d.pattern {
        Pattern::Identifier { .. } => true,
        _ => false,
    };
    let eligible = if plain || matches!(opts.destructuring, Destructuring::All) {
        all_eligible
    } else {
        any_eligible
    };
    Some(DeclaratorVerdict { eligible, all_names_eligible: all_eligible })
}

impl PreferConst {
    /// Statement-level decision and fix planner: evaluates one
    /// declaration against the fully built reference view and decides
    /// whether a diagnostic is owed and whether the one legal automatic
    /// rewrite — swapping the qualifier keyword span for the
    /// immutable-binding keyword — may be offered. None means the
    /// statement is skipped because some binding was not resolved.
    #[verifier::loop_isolation(false)]
    pub fn run(&self, decl: &Declaration, refs: &RefTable) -> (plan: Option<StatementPlan>)
        ensures
            plan == spec_plan(*refs, *decl, *self.0),
    {
        let opts = self.options();
        let mut warn = false;
        let mut all_fix = true;
        let mut all_paired = true;
        let mut i: usize = 0;
        while i < decl.declarators.len()
            invariant
                i <= decl.declarators@.len(),
                opts == *self.0,
                forall|j: int| 0 <= j < i ==> declarator_resolved(*refs, decl.declarators@[j]),
                warn <==> (exists|j: int|
                    0 <= j < i && declarator_eligible(*refs, decl.declarators@[j], opts)),
                all_fix <==> (forall|j: int|
                    0 <= j < i ==> declarator_all_eligible(
                        *refs,
                        decl.declarators@[j],
                        opts.ignore_read_before_assign,
                    )),
                all_paired <==> (forall|j: int|
                    0 <= j < i ==> (decl.declarators@[j].has_init || decl.loop_head)),
            decreases decl.declarators@.len() - i,
        {
            match evaluate_declarator(refs, &decl.declarators[i], &opts) {
                None => {
                    proof {
                        assert(!declarator_resolved(*refs, decl.declarators@[i as int]));
                    }
                    return None;
                },
                Some(dv) => {
                    warn = warn || dv.eligible;
                    all_fix = all_fix && dv.all_names_eligible;
                    all_paired = all_paired && (decl.declarators[i].has_init || decl.loop_head);
                },
            }
            i = i + 1;
        }
        let mutable = matches!(decl.qualifier, Qualifier::Mutable);
        let should_warn = mutable && warn;
        let fixable = should_warn && all_fix && all_paired;
        Some(StatementPlan { should_warn, fixable, span: decl.qualifier_span })
    }
}

} // verus!
