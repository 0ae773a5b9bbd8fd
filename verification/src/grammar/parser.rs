//! What a parser of the source language needs besides the grammar itself.

use vstd::prelude::*;
use crate::grammar::ast::{
    EnumDefinition, EnumDefinitionView, RangeDefinition, RangeDefinitionView, StructDefinition,
    StructDefinitionView,
};
use crate::views::{empty_deep, lemma_skip_all, lemma_skip_step, push_deep};

verus! {

/// A type definition of one of the three kinds.
#[derive(Debug, PartialEq, Eq)]
pub enum TypeDefinition {
    Enum(EnumDefinition),
    Struct(StructDefinition),
    Range(RangeDefinition),
}

/// What a `TypeDefinition` holds, as a mathematical value.
pub enum TypeDefinitionView {
    Enum(EnumDefinitionView),
    Struct(StructDefinitionView),
    Range(RangeDefinitionView),
}

impl View for TypeDefinition {
    type V = TypeDefinitionView;

    open spec fn view(&self) -> TypeDefinitionView {
        match self {
            TypeDefinition::Enum(x) => TypeDefinitionView::Enum(x@),
            TypeDefinition::Struct(x) => TypeDefinitionView::Struct(x@),
            TypeDefinition::Range(x) => TypeDefinitionView::Range(x@),
        }
    }
}

impl DeepView for TypeDefinition {
    type V = TypeDefinitionView;

    open spec fn deep_view(&self) -> TypeDefinitionView {
        self@
    }
}

/// The definitions `types` sorted by kind, each behind those already
/// sorted: within a kind the order in which they were written stays.
pub open spec fn sorted_by_kind(
    types: Seq<TypeDefinitionView>,
    enums: Seq<EnumDefinitionView>,
    structs: Seq<StructDefinitionView>,
    ranges: Seq<RangeDefinitionView>,
) -> (Seq<EnumDefinitionView>, Seq<StructDefinitionView>, Seq<RangeDefinitionView>)
    decreases types.len(),
{
    if types.len() == 0 {
        (enums, structs, ranges)
    } else {
        match types[0] {
            TypeDefinitionView::Enum(x) => sorted_by_kind(types.drop_first(), enums.push(x), structs, ranges),
            TypeDefinitionView::Struct(x) => sorted_by_kind(types.drop_first(), enums, structs.push(x), ranges),
            TypeDefinitionView::Range(x) => sorted_by_kind(types.drop_first(), enums, structs, ranges.push(x)),
        }
    }
}

/// Every definition lands in exactly one of the three lists.
pub proof fn lemma_sorted_by_kind_keeps_all(
    types: Seq<TypeDefinitionView>,
    enums: Seq<EnumDefinitionView>,
    structs: Seq<StructDefinitionView>,
    ranges: Seq<RangeDefinitionView>,
)
    ensures
        ({
            let r = sorted_by_kind(types, enums, structs, ranges);
            r.0.len() + r.1.len() + r.2.len() == types.len() + enums.len() + structs.len() + ranges.len()
        }),
    decreases types.len(),
{
    if types.len() > 0 {
        match types[0] {
            TypeDefinitionView::Enum(x) => lemma_sorted_by_kind_keeps_all(
                types.drop_first(),
                enums.push(x),
                structs,
                ranges,
            ),
            TypeDefinitionView::Struct(x) => lemma_sorted_by_kind_keeps_all(
                types.drop_first(),
                enums,
                structs.push(x),
                ranges,
            ),
            TypeDefinitionView::Range(x) => lemma_sorted_by_kind_keeps_all(
                types.drop_first(),
                enums,
                structs,
                ranges.push(x),
            ),
        }
    }
}

/// Sorts type definitions by kind.
pub fn split_types(types: Vec<TypeDefinition>) -> (r: (
    Vec<EnumDefinition>,
    Vec<StructDefinition>,
    Vec<RangeDefinition>,
))
    ensures
        r.deep_view() == sorted_by_kind(types.deep_view(), Seq::empty(), Seq::empty(), Seq::empty()),
{
    let ghost all = types.deep_view();
    let ghost raw = types@;
    let mut enums: Vec<EnumDefinition> = empty_deep();
    let mut structs: Vec<StructDefinition> = empty_deep();
    let mut ranges: Vec<RangeDefinition> = empty_deep();
    proof {
        lemma_skip_all(all);
    }
    for t in it: types.into_iter()
        invariant
            it.seq() == raw,
            all.len() == raw.len(),
            forall|i: int| 0 <= i < raw.len() ==> all[i] == #[trigger] raw[i]@,
            sorted_by_kind(all, Seq::empty(), Seq::empty(), Seq::empty()) == sorted_by_kind(
                all.skip(it.index() as int),
                enums.deep_view(),
                structs.deep_view(),
                ranges.deep_view(),
            ),
    {
        proof {
            lemma_skip_step(all, it.index() as int);
            assert(all[it.index() as int] == raw[it.index() as int]@);
        }
        match t {
            TypeDefinition::Enum(x) => push_deep(&mut enums, x),
            TypeDefinition::Struct(x) => push_deep(&mut structs, x),
            TypeDefinition::Range(x) => push_deep(&mut ranges, x),
        }
    }
    proof {
        lemma_skip_all(all);
    }
    (enums, structs, ranges)
}

} // verus!
