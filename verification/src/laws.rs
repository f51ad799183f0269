//! The general laws of the value layer, stated once over the spec vocabulary
//! that the contracts use and proved here.

use vstd::prelude::*;

use crate::enums::{spec_classify_basic, BasicValueEnum};
use crate::function::{spec_param_values, ParamValueIter};
use crate::kinds::{is_basic_kind, is_float_kind, TypeKind, VariantTag};
use crate::unit::{IrUnit, RawHandle};
use crate::values::{renamed, AnyValue};

verus! {

/// A downcast on the first-class sum succeeds exactly on its own variant: the
/// active variant is named by its tag, the downcasts' contracts succeed
/// exactly on the matching tag and report a mismatch on every other, so for a
/// classified value the matching downcast always succeeds and every
/// non-matching downcast always fails.
pub proof fn lemma_tag_names_variant(v: BasicValueEnum)
    ensures
        v is IntValue <==> v.tag() == VariantTag::Int,
        v is FloatValue <==> v.tag() == VariantTag::Float,
        v is StructValue <==> v.tag() == VariantTag::Struct,
        v is PointerValue <==> v.tag() == VariantTag::Pointer,
        v is ArrayValue <==> v.tag() == VariantTag::Array,
{
}

/// Classification of a valid handle of a first-class kind yields the one
/// variant its kind names, wrapping that very handle: the float family yields
/// the float wrapper, integer the integer wrapper, struct the struct wrapper,
/// pointer the pointer wrapper, array the array wrapper.
pub proof fn lemma_classify_matches_kind(unit: IrUnit, h: RawHandle)
    requires
        unit.valid(h),
        is_basic_kind(unit.kind_of(h)),
    ensures
        spec_classify_basic(unit, h) is FloatValue <==> is_float_kind(unit.kind_of(h)),
        spec_classify_basic(unit, h) is IntValue <==> unit.kind_of(h) is Integer,
        spec_classify_basic(unit, h) is StructValue <==> unit.kind_of(h) is Struct,
        spec_classify_basic(unit, h) is PointerValue <==> unit.kind_of(h) is Pointer,
        spec_classify_basic(unit, h) is ArrayValue <==> unit.kind_of(h) is Array,
        spec_classify_basic(unit, h).base().handle == h,
{
}

/// The kind table is total over the first-class kinds and nothing else: the
/// vector kind and every kind outside the closed first-class set fall to the
/// fatal classification outcomes.
pub proof fn lemma_kind_table_is_closed(k: TypeKind)
    ensures
        is_basic_kind(k) <==> (is_float_kind(k) || k is Integer || k is Struct || k is Pointer
            || k is Array),
        k is Vector ==> !is_basic_kind(k),
        is_float_kind(k) ==> !(k is Integer) && !(k is Struct) && !(k is Pointer) && !(k is Array),
{
}

/// The parameter count equals the length of the sequence the parameter
/// iteration yields: one classification per declared parameter, in order.
pub proof fn lemma_count_params_matches_sequence(unit: IrUnit, h: RawHandle)
    requires
        unit.is_function(h),
    ensures
        spec_param_values(unit, h).len() == unit.params_of(h).len(),
{
}

/// The `nth` parameter accessor and the iteration protocol agree: the element
/// at position `n` of the parameter sequence is the classification of the
/// `nth` declared parameter.
pub proof fn lemma_nth_param_is_sequence_element(unit: IrUnit, h: RawHandle, n: int)
    requires
        unit.is_function(h),
        0 <= n < unit.params_of(h).len(),
    ensures
        spec_param_values(unit, h)[n] == spec_classify_basic(unit, unit.params_of(h)[n]),
{
}

/// A fresh parameter cursor stands at position zero, so its first yield is
/// owed exactly when the function has a parameter at all, and is then the
/// sequence's head — the same absence condition and the same value the
/// first-parameter accessor reports.
pub proof fn lemma_first_param_agrees_with_iteration(unit: IrUnit, it: ParamValueIter)
    requires
        unit.is_function(it.param_iter_value),
        it.start,
    ensures
        it.pos() == 0,
        (it.pos() < spec_param_values(unit, it.param_iter_value).len() <==> unit.params_of(
            it.param_iter_value,
        ).len() != 0),
{
}

/// Setting a name and reading it back is the identity: after a successful
/// rename to `s`, the name query on the same handle answers exactly `s`, and
/// no other record has moved.
pub proof fn lemma_name_round_trip(pre: IrUnit, post: IrUnit, h: RawHandle, s: Seq<char>)
    requires
        pre.valid(h),
        renamed(pre, post, h, s),
    ensures
        post.name_of(h) == s,
        forall|g: RawHandle|
            pre.valid(g) && g != h ==> post.name_of(g) == #[trigger] pre.name_of(g),
{
    assert forall|g: RawHandle| pre.valid(g) && g != h implies post.name_of(g) == #[trigger] pre
        .name_of(g) by {
        if g.idx() != h.idx() {
            assert(post.values@[g.idx()] == pre.values@[g.idx()]);
        }
    }
}

} // verus!
