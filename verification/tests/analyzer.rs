use prefer_const::classify::classify_accesses;
use prefer_const::evaluate::evaluate_name;
use prefer_const::model::{
    Access, AccessKind, Declaration, Declarator, Pattern, Qualifier, RawAccess, Reach, RefTable,
    Span, SymbolRefs,
};
use prefer_const::options::{Destructuring, PreferConst, PreferConstOptions};
use prefer_const::plan::{apply_fix, evaluate_declarator, lookup_accesses};

fn read(pos: u32) -> RawAccess {
    RawAccess {
        pos,
        kind: AccessKind::Read,
        cross_scope: false,
        behind_branch: false,
        in_loop_head: false,
    }
}

fn write(pos: u32) -> RawAccess {
    RawAccess {
        pos,
        kind: AccessKind::Write,
        cross_scope: false,
        behind_branch: false,
        in_loop_head: false,
    }
}

fn conditional_write(pos: u32) -> RawAccess {
    RawAccess { behind_branch: true, ..write(pos) }
}

fn cross_scope_write(pos: u32) -> RawAccess {
    RawAccess { cross_scope: true, ..write(pos) }
}

fn cross_scope_read(pos: u32) -> RawAccess {
    RawAccess { cross_scope: true, ..read(pos) }
}

fn rebind(pos: u32) -> RawAccess {
    RawAccess { in_loop_head: true, ..write(pos) }
}

fn table(entries: Vec<(u32, Vec<RawAccess>)>) -> RefTable {
    RefTable {
        entries: entries
            .into_iter()
            .map(|(symbol, accesses)| SymbolRefs { symbol, accesses })
            .collect(),
    }
}

fn ident(symbol: u32) -> Pattern {
    Pattern::Identifier { symbol }
}

fn declaration(declarators: Vec<Declarator>) -> Declaration {
    Declaration {
        qualifier: Qualifier::Mutable,
        qualifier_span: Span::new(0, 3),
        declarators,
        loop_head: false,
    }
}

fn simple(symbol: u32, has_init: bool) -> Declarator {
    Declarator { pattern: ident(symbol), has_init }
}

fn default_rule() -> PreferConst {
    PreferConst::default()
}

fn rule_with(destructuring: Destructuring, ignore_read_before_assign: bool) -> PreferConst {
    PreferConst(Box::new(PreferConstOptions { destructuring, ignore_read_before_assign }))
}

#[test]
fn initialized_never_reassigned_warns_and_fixes() {
    // let x = 1; foo(x);
    let decl = declaration(vec![simple(1, true)]);
    let refs = table(vec![(1, vec![read(15)])]);
    let plan = default_rule().run(&decl, &refs).unwrap();
    assert!(plan.should_warn);
    assert!(plan.fixable);
    assert_eq!(plan.span, Span::new(0, 3));
}

#[test]
fn fix_is_idempotent_on_a_fixable_statement() {
    // let x = 1; foo(x);  =>  const x = 1; foo(x);
    let decl = declaration(vec![simple(1, true)]);
    let refs = table(vec![(1, vec![read(15)])]);
    let rule = default_rule();
    let plan = rule.run(&decl, &refs).unwrap();
    assert!(plan.fixable);
    let fixed = apply_fix(decl);
    assert_eq!(fixed.qualifier, Qualifier::Immutable);
    let replan = rule.run(&fixed, &refs).unwrap();
    assert!(!replan.should_warn);
    assert!(!replan.fixable);
}

#[test]
fn single_unconditional_write_warns_but_is_not_fixable() {
    // let x; x = 0;
    let decl = declaration(vec![simple(1, false)]);
    let refs = table(vec![(1, vec![write(7)])]);
    let plan = default_rule().run(&decl, &refs).unwrap();
    assert!(plan.should_warn);
    assert!(!plan.fixable);
}

#[test]
fn conditional_write_does_not_warn() {
    // let a, b; if (foo) { ({a, b} = obj); }
    let decl = declaration(vec![simple(1, false), simple(2, false)]);
    let refs = table(vec![
        (1, vec![conditional_write(21)]),
        (2, vec![conditional_write(21)]),
    ]);
    let plan = default_rule().run(&decl, &refs).unwrap();
    assert!(!plan.should_warn);
    assert!(!plan.fixable);
}

#[test]
fn destructuring_all_needs_every_name() {
    // let {a, b} = obj; b = 0;
    let decl = declaration(vec![Declarator {
        pattern: Pattern::Object { properties: vec![ident(1), ident(2)] },
        has_init: true,
    }]);
    let refs = table(vec![(1, vec![]), (2, vec![write(18)])]);
    let plan = rule_with(Destructuring::All, false).run(&decl, &refs).unwrap();
    assert!(!plan.should_warn);
}

#[test]
fn destructuring_any_warns_on_mixed_but_does_not_fix() {
    // let {a, b} = obj; b = 0; use(a);
    let decl = declaration(vec![Declarator {
        pattern: Pattern::Object { properties: vec![ident(1), ident(2)] },
        has_init: true,
    }]);
    let refs = table(vec![(1, vec![read(25)]), (2, vec![write(18)])]);
    let plan = rule_with(Destructuring::Any, false).run(&decl, &refs).unwrap();
    assert!(plan.should_warn);
    assert!(!plan.fixable);
}

#[test]
fn loop_control_variable_with_no_body_writes_warns_and_fixes() {
    // for (let i in [1,2,3]) { foo(i); }
    let decl = Declaration { loop_head: true, ..declaration(vec![simple(1, false)]) };
    let refs = table(vec![(
        1,
        vec![
            rebind(9),
            RawAccess { behind_branch: true, ..read(29) },
        ],
    )]);
    let plan = default_rule().run(&decl, &refs).unwrap();
    assert!(plan.should_warn);
    assert!(plan.fixable);
}

#[test]
fn loop_control_variable_reassigned_in_body_does_not_warn() {
    // for (let i in [1,2,3]) { i = 0; }
    let decl = Declaration { loop_head: true, ..declaration(vec![simple(1, false)]) };
    let refs = table(vec![(
        1,
        vec![
            rebind(9),
            RawAccess { behind_branch: true, ..write(25) },
        ],
    )]);
    let plan = default_rule().run(&decl, &refs).unwrap();
    assert!(!plan.should_warn);
}

#[test]
fn initializer_plus_write_does_not_warn() {
    // let x = 0; x = 1;
    let decl = declaration(vec![simple(1, true)]);
    let refs = table(vec![(1, vec![write(11)])]);
    let plan = default_rule().run(&decl, &refs).unwrap();
    assert!(!plan.should_warn);
}

#[test]
fn two_writes_do_not_warn() {
    // let x; x = 0; x = 1;
    let decl = declaration(vec![simple(1, false)]);
    let refs = table(vec![(1, vec![write(7), write(14)])]);
    let plan = default_rule().run(&decl, &refs).unwrap();
    assert!(!plan.should_warn);
}

#[test]
fn never_written_uninitialized_does_not_warn() {
    // let x;
    let decl = declaration(vec![simple(1, false)]);
    let refs = table(vec![(1, vec![])]);
    let plan = default_rule().run(&decl, &refs).unwrap();
    assert!(!plan.should_warn);
}

#[test]
fn cross_scope_write_needs_the_tolerance_flag() {
    // let a; class C { static { a = 1; } }
    let decl = declaration(vec![simple(1, false)]);
    let refs = table(vec![(1, vec![cross_scope_write(26)])]);
    let plan = default_rule().run(&decl, &refs).unwrap();
    assert!(!plan.should_warn);
    let plan = rule_with(Destructuring::Any, true).run(&decl, &refs).unwrap();
    assert!(plan.should_warn);
    assert!(!plan.fixable);
}

#[test]
fn read_before_sole_write_needs_the_tolerance_flag() {
    // let x; function foo() { bar(x); } x = 0;
    let decl = declaration(vec![simple(1, false)]);
    let refs = table(vec![(1, vec![cross_scope_read(29), write(34)])]);
    let plan = default_rule().run(&decl, &refs).unwrap();
    assert!(!plan.should_warn);
    let plan = rule_with(Destructuring::Any, true).run(&decl, &refs).unwrap();
    assert!(plan.should_warn);
}

#[test]
fn immutable_qualifier_is_never_reported() {
    // const x = 1;
    let decl = Declaration {
        qualifier: Qualifier::Immutable,
        ..declaration(vec![simple(1, true)])
    };
    let refs = table(vec![(1, vec![read(15)])]);
    let plan = default_rule().run(&decl, &refs).unwrap();
    assert!(!plan.should_warn);
    assert!(!plan.fixable);
}

#[test]
fn unresolved_binding_skips_the_statement() {
    let decl = declaration(vec![simple(1, true), simple(2, true)]);
    let refs = table(vec![(1, vec![])]);
    assert!(default_rule().run(&decl, &refs).is_none());
}

#[test]
fn multi_declarator_statement_fixes_only_when_every_one_is_eligible() {
    // let x = 'x', y = 'y';        => warn, fixable
    // let x = 'x', y = 'y'; x = 1  => warn (y eligible), not fixable
    let decl = declaration(vec![simple(1, true), simple(2, true)]);
    let refs = table(vec![(1, vec![]), (2, vec![])]);
    let plan = default_rule().run(&decl, &refs).unwrap();
    assert!(plan.should_warn);
    assert!(plan.fixable);

    let refs = table(vec![(1, vec![write(22)]), (2, vec![])]);
    let plan = default_rule().run(&decl, &refs).unwrap();
    assert!(plan.should_warn);
    assert!(!plan.fixable);
}

#[test]
fn statement_without_initializers_is_reported_but_unpaired() {
    // let a, b; ({a, b} = obj);
    let decl = declaration(vec![simple(1, false), simple(2, false)]);
    let refs = table(vec![(1, vec![write(11)]), (2, vec![write(11)])]);
    let plan = default_rule().run(&decl, &refs).unwrap();
    assert!(plan.should_warn);
    assert!(!plan.fixable);
}

#[test]
fn classifier_tags_reach_and_rebind() {
    let raw = vec![
        read(3),
        conditional_write(8),
        cross_scope_write(12),
        rebind(20),
        RawAccess { in_loop_head: true, ..read(24) },
    ];
    let classified = classify_accesses(&raw);
    assert_eq!(classified.len(), 5);
    assert_eq!(classified[0].reach, Reach::Unconditional);
    assert!(!classified[0].implicit_rebind);
    assert_eq!(classified[1].reach, Reach::Conditional);
    assert_eq!(classified[2].reach, Reach::CrossScope);
    assert_eq!(classified[3].reach, Reach::Unconditional);
    assert!(classified[3].implicit_rebind);
    // a read in the loop-header slot is not a rebind: only writes are
    assert!(!classified[4].implicit_rebind);
}

#[test]
fn verdict_points_at_the_disqualifying_access() {
    fn access(pos: u32, kind: AccessKind, reach: Reach) -> Access {
        Access { pos, kind, reach, implicit_rebind: false }
    }

    // initializer present: the first true write disqualifies
    let v = evaluate_name(
        &vec![access(11, AccessKind::Write, Reach::Unconditional)],
        true,
        false,
    );
    assert!(v.reassigned);
    assert_eq!(v.disqualifier, Some(11));

    // no initializer, two writes: the second disqualifies
    let v = evaluate_name(
        &vec![
            access(7, AccessKind::Write, Reach::Unconditional),
            access(14, AccessKind::ReadWrite, Reach::Unconditional),
        ],
        false,
        false,
    );
    assert!(v.reassigned);
    assert_eq!(v.disqualifier, Some(14));

    // no initializer, one conditional write: that write disqualifies
    let v = evaluate_name(
        &vec![access(9, AccessKind::Write, Reach::Conditional)],
        false,
        false,
    );
    assert!(v.reassigned);
    assert_eq!(v.disqualifier, Some(9));

    // eligible: nothing to point at
    let v = evaluate_name(
        &vec![access(9, AccessKind::Write, Reach::Unconditional)],
        false,
        false,
    );
    assert!(!v.reassigned);
    assert_eq!(v.disqualifier, None);

    // never written, no initializer: ineligible with nothing to point at
    let v = evaluate_name(&vec![], false, false);
    assert!(v.reassigned);
    assert_eq!(v.disqualifier, None);
}

#[test]
fn compound_assignment_counts_as_a_write() {
    // let a, b; ({a, b} = obj); b++;
    let decl = declaration(vec![simple(1, false), simple(2, false)]);
    let refs = table(vec![
        (1, vec![write(11)]),
        (2, vec![write(11), RawAccess { kind: AccessKind::ReadWrite, ..write(26) }]),
    ]);
    let plan = default_rule().run(&decl, &refs).unwrap();
    // `a` still has a single unconditional write, so the statement warns;
    // `b` is reassigned, so it cannot be fixed.
    assert!(plan.should_warn);
    assert!(!plan.fixable);
}

#[test]
fn lookup_takes_the_first_matching_entry() {
    let refs = table(vec![(1, vec![read(5)]), (1, vec![write(9)])]);
    let found = lookup_accesses(&refs, 1).unwrap();
    assert_eq!(found.len(), 1);
    assert_eq!(found[0].kind, AccessKind::Read);
    assert!(lookup_accesses(&refs, 2).is_none());
}

#[test]
fn declarator_verdicts_follow_the_policy() {
    let d = Declarator {
        pattern: Pattern::Object { properties: vec![ident(1), ident(2)] },
        has_init: true,
    };
    let refs = table(vec![(1, vec![]), (2, vec![write(18)])]);
    let any = PreferConstOptions {
        destructuring: Destructuring::Any,
        ignore_read_before_assign: false,
    };
    let all = PreferConstOptions {
        destructuring: Destructuring::All,
        ignore_read_before_assign: false,
    };
    let dv = evaluate_declarator(&refs, &d, &any).unwrap();
    assert!(dv.eligible);
    assert!(!dv.all_names_eligible);
    let dv = evaluate_declarator(&refs, &d, &all).unwrap();
    assert!(!dv.eligible);
    assert!(!dv.all_names_eligible);
}

#[test]
fn nested_destructuring_counts_leaf_names() {
    // let {a: {b, c}} = {a: {b: 1, c: 2}}; b = 3;
    let decl = declaration(vec![Declarator {
        pattern: Pattern::Object {
            properties: vec![Pattern::Object { properties: vec![ident(1), ident(2)] }],
        },
        has_init: true,
    }]);
    let refs = table(vec![(1, vec![write(37)]), (2, vec![])]);
    let plan = rule_with(Destructuring::Any, false).run(&decl, &refs).unwrap();
    assert!(plan.should_warn);
    assert!(!plan.fixable);
    let plan = rule_with(Destructuring::All, false).run(&decl, &refs).unwrap();
    assert!(!plan.should_warn);
}

#[test]
fn eligibility_under_all_implies_eligibility_under_any() {
    // let {a, b} = obj; use(a, b);  — fully eligible under `all`,
    // therefore eligible under `any` as well
    let d = Declarator {
        pattern: Pattern::Object { properties: vec![ident(1), ident(2)] },
        has_init: true,
    };
    let refs = table(vec![(1, vec![read(20)]), (2, vec![read(23)])]);
    let all = PreferConstOptions {
        destructuring: Destructuring::All,
        ignore_read_before_assign: false,
    };
    let any = PreferConstOptions {
        destructuring: Destructuring::Any,
        ignore_read_before_assign: false,
    };
    let under_all = evaluate_declarator(&refs, &d, &all).unwrap();
    let under_any = evaluate_declarator(&refs, &d, &any).unwrap();
    assert!(under_all.eligible);
    assert!(under_any.eligible);
}

#[test]
fn empty_statement_is_silent() {
    let decl = declaration(vec![]);
    let refs = table(vec![]);
    let plan = default_rule().run(&decl, &refs).unwrap();
    assert!(!plan.should_warn);
    assert!(!plan.fixable);
}
