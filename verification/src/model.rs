use vstd::prelude::*;

verus! {

/// Source span of a token, as offsets into the original text.
#[derive(Clone, Copy, Debug, PartialEq, Eq, Structural)]
pub struct Span {
    pub start: u32,
    pub end: u32,
}

impl Span {
    pub fn new(start: u32, end: u32) -> (s: Span)
        ensures
            s.start == start,
            s.end == end,
    {
        Span { start, end }
    }
}

/// How one occurrence of a symbol uses it: a plain read, a plain write
/// (simple assignment or destructuring-assignment target), or a combined
/// read-write (compound assignment, increment, decrement).
#[derive(Clone, Copy, Debug, PartialEq, Eq, Structural)]
pub enum AccessKind {
    Read,
    Write,
    ReadWrite,
}

/// Control-flow reachability of a write, judged from the declarator's
/// position: reached on every path with no intervening branch, loop or
/// exception boundary; reached only through such a boundary; or placed in
/// a scope the declaring scope does not structurally dominate (another
/// function, or across a class static-initialization-block boundary), so
/// that its execution order cannot be proven.
#[derive(Clone, Copy, Debug, PartialEq, Eq, Structural)]
pub enum Reach {
    Unconditional,
    Conditional,
    CrossScope,
}

/// One occurrence of a symbol as the scope-and-reference collaborator
/// reports it: position, read/write kind, and the structural tags the
/// classifier turns into a reachability verdict.
#[derive(Clone, Copy, Debug, PartialEq, Eq, Structural)]
pub struct RawAccess {
    /// Textual position of the occurrence.
    pub pos: u32,
    pub kind: AccessKind,
    /// The occurrence lies in a scope not structurally dominated by the
    /// declaring scope.
    pub cross_scope: bool,
    /// Some branch, loop or exception boundary that is not itself
    /// guaranteed to execute exactly once stands between the declarator
    /// and the occurrence.
    pub behind_branch: bool,
    /// The occurrence is the control-variable slot of a for-in/for-of
    /// loop header.
    pub in_loop_head: bool,
}

/// A classified occurrence: the classifier's output, consumed by the
/// single-assignment evaluator.
#[derive(Clone, Copy, Debug, PartialEq, Eq, Structural)]
pub struct Access {
    pub pos: u32,
    pub kind: AccessKind,
    pub reach: Reach,
    /// The language's own per-iteration assignment to a for-in/for-of
    /// control variable, not a programmer-authored reassignment.
    pub implicit_rebind: bool,
}

/// The left-hand shape of a declarator: a plain name, a default-value
/// wrapper, a rest element, an object pattern, or an array pattern whose
/// elements may be elision holes (`None`), which bind nothing.
#[derive(Debug)]
pub enum Pattern {
    Identifier { symbol: u32 },
    Default { inner: Box<Pattern> },
    Rest { target: Box<Pattern> },
    Object { properties: Vec<Pattern> },
    Array { elements: Vec<Option<Pattern>> },
}

/// One concrete identifier introduced by a binding pattern, with its
/// structural metadata.
#[derive(Clone, Copy, Debug, PartialEq, Eq, Structural)]
pub struct BoundName {
    /// Unique symbol identity within the declaring scope.
    pub symbol: u32,
    /// Nesting depth of the name inside the pattern; a top-level plain
    /// identifier has depth zero.
    pub depth: u32,
    /// The name lies under a default-value wrapper.
    pub has_default: bool,
    /// The name lies under a rest element.
    pub is_rest: bool,
}

/// The binding keyword of a declaration statement.
#[derive(Clone, Copy, Debug, PartialEq, Eq, Structural)]
pub enum Qualifier {
    Mutable,
    Immutable,
}

/// A binding pattern plus whether an inline initializer expression is
/// present.
#[derive(Debug)]
pub struct Declarator {
    pub pattern: Pattern,
    pub has_init: bool,
}

/// One statement introducing one or more bindings.
#[derive(Debug)]
pub struct Declaration {
    pub qualifier: Qualifier,
    /// Span of the qualifier keyword token; the diagnostic and the fix
    /// both target exactly this span.
    pub qualifier_span: Span,
    pub declarators: Vec<Declarator>,
    /// The declaration is the control-variable slot of a for-in/for-of
    /// loop header, so the loop itself supplies each bound value.
    pub loop_head: bool,
}

/// The accesses the collaborator resolved for one symbol.
#[derive(Debug, PartialEq, Eq)]
pub struct SymbolRefs {
    pub symbol: u32,
    pub accesses: Vec<RawAccess>,
}

/// The fully built, read-only reference view supplied by the scope and
/// reference collaborator: for each resolved symbol, its accesses in
/// textual order. A symbol with no entry is unresolved.
#[derive(Debug, PartialEq, Eq)]
pub struct RefTable {
    pub entries: Vec<SymbolRefs>,
}

/// Per-name result of the single-assignment evaluator.
#[derive(Clone, Copy, Debug, PartialEq, Eq)]
pub struct Verdict {
    /// The name is reassigned, so it is not eligible for an immutable
    /// qualifier.
    pub reassigned: bool,
    /// Position of the disqualifying access, when one exists.
    pub disqualifier: Option<u32>,
}

/// Per-declarator aggregate of its names' verdicts.
#[derive(Clone, Copy, Debug, PartialEq, Eq, Structural)]
pub struct DeclaratorVerdict {
    /// Eligible under the active destructuring policy.
    pub eligible: bool,
    /// Every bound name of the declarator is eligible, whatever the
    /// policy; only such a declarator can take part in an automatic fix.
    pub all_names_eligible: bool,
}

/// Final decision for one declaration statement.
#[derive(Clone, Copy, Debug, PartialEq, Eq)]
pub struct StatementPlan {
    /// At least one declarator is eligible, so a diagnostic is owed.
    pub should_warn: bool,
    /// The whole statement may be rewritten by replacing the qualifier
    /// keyword span with the immutable-binding keyword.
    pub fixable: bool,
    /// Span of the qualifier keyword, the only text a fix may touch.
    pub span: Span,
}

} // verus!
