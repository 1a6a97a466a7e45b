use vstd::prelude::*;

use crate::model::{BoundName, Pattern};

verus! {

/// The nesting level one below `depth`, counted with saturation so that
/// extraction is total on any pattern.
pub open spec fn next_depth(depth: u32) -> u32 {
    if depth == u32::MAX {
        depth
    } else {
        (depth + 1) as u32
    }
}

/// The ordered names a pattern introduces, visited left to right:
/// an identifier binds itself; a default wrapper marks everything below
/// it `has_default`; a rest element marks everything below it `is_rest`;
/// object and array patterns visit their sub-patterns in order, one
/// nesting level down; an array elision hole binds nothing.
pub open spec fn pattern_names(p: Pattern, depth: u32, has_default: bool, is_rest: bool) -> Seq<
    BoundName,
>
    decreases p, 1int,
{
    match p {
        Pattern::Identifier { symbol } => seq![
            BoundName { symbol, depth, has_default, is_rest },
        ],
        Pattern::Default { inner } => pattern_names(*inner, depth, true, is_rest),
        Pattern::Rest { target } => pattern_names(*target, depth, has_default, true),
        Pattern::Object { properties } => seq_names(
            properties@,
            next_depth(depth),
            has_default,
            is_rest,
        ),
        Pattern::Array { elements } => elem_names(
            elements@,
            next_depth(depth),
            has_default,
            is_rest,
        ),
    }
}

/// Names of a sequence of object-pattern properties, in order.
pub open spec fn seq_names(ps: Seq<Pattern>, depth: u32, has_default: bool, is_rest: bool) -> Seq<
    BoundName,
>
    decreases ps, 0int,
{
    if ps.len() == 0 {
        Seq::empty()
    } else {
        seq_names(ps.drop_last(), depth, has_default, is_rest) + pattern_names(
            ps.last(),
            depth,
            has_default,
            is_rest,
        )
    }
}

/// Names of a sequence of array-pattern elements, in order; an elision
/// hole contributes nothing.
pub open spec fn elem_names(
    es: Seq<Option<Pattern>>,
    depth: u32,
    has_default: bool,
    is_rest: bool,
) -> Seq<BoundName>
    decreases es, 0int,
{
    if es.len() == 0 {
        Seq::empty()
    } else {
        elem_names(es.drop_last(), depth, has_default, is_rest) + (match es.last() {
            Some(p) => pattern_names(p, depth, has_default, is_rest),
            None => Seq::empty(),
        })
    }
}

/// The names a declarator's pattern introduces, with top-level metadata.
pub open spec fn declarator_names(p: Pattern) -> Seq<BoundName> {
    pattern_names(p, 0, false, false)
}

/// A pattern that is a single plain identifier, with no destructuring.
pub open spec fn is_plain(p: Pattern) -> bool {
    p is Identifier
}

#[verifier::loop_isolation(false)]
fn push_pattern_names(
    p: &Pattern,
    depth: u32,
    has_default: bool,
    is_rest: bool,
    out: &mut Vec<BoundName>,
)
    ensures
        final(out)@ == old(out)@ + pattern_names(*p, depth, has_default, is_rest),
    decreases *p, 1int,
{
    match p {
        Pattern::Identifier { symbol } => {
            out.push(BoundName { symbol: *symbol, depth, has_default, is_rest });
        },
        Pattern::Default { inner } => {
            push_pattern_names(inner, depth, true, is_rest, out);
        },
        Pattern::Rest { target } => {
            push_pattern_names(target, depth, has_default, true, out);
        },
        Pattern::Object { properties } => {
            let child_depth = if depth == u32::MAX {
                depth
            } else {
                depth + 1
            };
            let ghost entry = out@;
            let mut i: usize = 0;
            while i < properties.len()
                invariant
                    i <= properties@.len(),
                    out@ == entry + seq_names(
                        properties@.subrange(0, i as int),
                        child_depth,
                        has_default,
                        is_rest,
                    ),
                decreases properties@.len() - i,
            {
                proof {
                    assert(decreases_to!(*p => p->Object_properties));
                    assert(p->Object_properties == *properties);
                    assert(decreases_to!(*properties => properties@));
                    assert(decreases_to!(properties@ => properties@[i as int]));
                }
                push_pattern_names(&properties[i], child_depth, has_default, is_rest, out);
                proof {
                    let prefix = properties@.subrange(0, i + 1);
                    assert(prefix.drop_last() =~= properties@.subrange(0, i as int));
                    assert(prefix.last() == properties@[i as int]);
                    assert(out@ =~= entry + seq_names(prefix, child_depth, has_default, is_rest));
                }
                i = i + 1;
            }
            proof {
                assert(properties@.subrange(0, properties@.len() as int) =~= properties@);
            }
        },
        Pattern::Array { elements } => {
            let child_depth = if depth == u32::MAX {
                depth
            } else {
                depth + 1
            };
            let ghost entry = out@;
            let mut i: usize = 0;
            while i < elements.len()
                invariant
                    i <= elements@.len(),
                    out@ == entry + elem_names(
                        elements@.subrange(0, i as int),
                        child_depth,
                        has_default,
                        is_rest,
                    ),
                decreases elements@.len() - i,
            {
                match &elements[i] {
                    Some(sub) => {
                        proof {
                            assert(decreases_to!(*p => p->Array_elements));
                            assert(p->Array_elements == *elements);
                            assert(decreases_to!(*elements => elements@));
                            assert(decreases_to!(elements@ => elements@[i as int]));
                            assert(decreases_to!(elements@[i as int] => *sub));
                        }
                        push_pattern_names(sub, child_depth, has_default, is_rest, out);
                    },
                    None => {},
                }
                proof {
                    let prefix = elements@.subrange(0, i + 1);
                    assert(prefix.drop_last() =~= elements@.subrange(0, i as int));
                    assert(prefix.last() == elements@[i as int]);
                    assert(out@ =~= entry + elem_names(prefix, child_depth, has_default, is_rest));
                }
                i = i + 1;
            }
            proof {
                assert(elements@.subrange(0, elements@.len() as int) =~= elements@);
            }
        },
    }
}

/// Binding pattern extractor: flattens a possibly nested pattern into
/// the ordered list of names it binds, with structural metadata.
pub fn extract_bound_names(p: &Pattern) -> (names: Vec<BoundName>)
    ensures
        names@ == declarator_names(*p),
{
    let mut names: Vec<BoundName> = Vec::new();
    push_pattern_names(p, 0, false, false, &mut names);
    names
}

} // verus!
