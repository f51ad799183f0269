//! The value core and the capability-narrowed typed wrappers over it.
//!
//! Every wrapper owns exactly one value core, which owns exactly one handle;
//! the wrapper's type is the only evidence of the value's kind, established at
//! construction by the caller (usually the classifier) and stated here as an
//! explicit precondition, never re-validated at run time.

use vstd::prelude::*;
use vstd::string::StrSliceExecFns;

use crate::blocks::BasicBlock;
use crate::kinds::{is_float_kind, FatalError, TypeKind};
use crate::types::{spec_any_type_of, AnyTypeEnum};
use crate::unit::{lemma_wf_same_shape, IncomingEdge, IrUnit, RawHandle, ValueFlags};

verus! {

/// Whether a requested name holds an interior terminator, which the foreign
/// string representation cannot carry.
pub open spec fn has_interior_nul(s: Seq<char>) -> bool {
    exists|i: int| 0 <= i < s.len() && s[i] == '\0'
}

/// The frame of an update that touches one record and leaves its kind alone:
/// every other record, the block table, and the table lengths are as they
/// were.
pub open spec fn updated_core(pre: IrUnit, post: IrUnit, h: RawHandle) -> bool {
    &&& post.values@.len() == pre.values@.len()
    &&& post.blocks@ == pre.blocks@
    &&& post.rec(h).kind == pre.rec(h).kind
    &&& forall|j: int|
        0 <= j < pre.values@.len() && j != h.idx() ==> post.values@[j] == pre.values@[j]
}

/// What a successful rename does: the one record's name becomes `s` and
/// nothing else moves.
pub open spec fn renamed(pre: IrUnit, post: IrUnit, h: RawHandle, s: Seq<char>) -> bool {
    &&& updated_core(pre, post, h)
    &&& post.name_of(h) == s
    &&& post.rec(h).flags == pre.rec(h).flags
    &&& post.rec(h).extra == pre.rec(h).extra
}

/// Every wrapper can hand out the value core it narrows.
pub trait AnyValue: Sized {
    /// The value core this wrapper narrows.
    spec fn base(&self) -> Value;

    /// Hands out the value core this wrapper narrows.
    fn as_value(&self) -> (v: Value)
        ensures
            v == self.base(),
    ;
}

/// Marker capability of the wrappers whose values are first-class storable
/// values; the function and merge wrappers are outside it.
pub trait BasicValue: AnyValue {

}

/// The value core: exactly one non-null handle into the owning unit, and the
/// operations every value answers.
#[derive(Clone, Copy, Debug, PartialEq, Eq, Structural)]
pub struct Value {
    pub handle: RawHandle,
}

impl Value {
    /// The core is meaningful only while its handle denotes a record of the
    /// unit it came from.
    pub open spec fn wf(self, unit: IrUnit) -> bool {
        unit.valid(self.handle)
    }

    /// Wraps a handle; a null handle is a caller bug and is the one fatal
    /// condition here. The caller vouches that a non-null handle came from
    /// this unit.
    pub fn new(unit: &IrUnit, handle: RawHandle) -> (r: Result<Value, FatalError>)
        requires
            handle.is_null() || unit.valid(handle),
        ensures
            r is Ok <==> !handle.is_null(),
            r matches Ok(v) ==> v.handle == handle && v.wf(*unit),
            handle.is_null() ==> r == Err::<Value, FatalError>(FatalError::NullHandle),
    {
        if handle.raw == 0 {
            Err(FatalError::NullHandle)
        } else {
            Ok(Value { handle })
        }
    }

    /// Marks the value constant, or not, after the foreign convention that any
    /// non-zero argument means yes.
    pub fn set_global_constant(&self, unit: &mut IrUnit, num: i32)
        requires
            old(unit).wf(),
            self.wf(*old(unit)),
        ensures
            final(unit).wf(),
            self.wf(*final(unit)),
            updated_core(*old(unit), *final(unit), self.handle),
            final(unit).rec(self.handle).name@ == old(unit).rec(self.handle).name@,
            final(unit).rec(self.handle).extra == old(unit).rec(self.handle).extra,
            final(unit).rec(self.handle).flags == (ValueFlags {
                constant: num != 0,
                ..old(unit).rec(self.handle).flags
            }),
    {
        let ghost pre = *unit;
        let idx = self.handle.raw - 1;
        let r = &mut unit.values[idx];
        r.flags.constant = num != 0;
        proof {
            lemma_wf_same_shape(pre, *unit);
        }
    }

    /// Sets the value's display name. A name with an interior terminator is a
    /// caller bug: the unit is left untouched and the fatal condition is
    /// reported.
    pub fn set_name(&self, unit: &mut IrUnit, name: &str) -> (r: Result<(), FatalError>)
        requires
            old(unit).wf(),
            self.wf(*old(unit)),
        ensures
            final(unit).wf(),
            self.wf(*final(unit)),
            r is Ok <==> !has_interior_nul(name@),
            r is Ok ==> renamed(*old(unit), *final(unit), self.handle, name@),
            r is Err ==> *final(unit) == *old(unit) && r == Err::<(), FatalError>(
                FatalError::NameHasInteriorNul,
            ),
    {
        let n = name.unicode_len();
        let mut i: usize = 0;
        while i < n
            invariant
                i <= n,
                n == name@.len(),
                forall|j: int| 0 <= j < i ==> name@[j] != '\0',
                *unit == *old(unit),
                old(unit).wf(),
                self.wf(*old(unit)),
            decreases n - i,
        {
            if name.get_char(i) == '\0' {
                return Err(FatalError::NameHasInteriorNul);
            }
            i += 1;
        }
        let ghost pre = *unit;
        let idx = self.handle.raw - 1;
        let r = &mut unit.values[idx];
        r.name = name.to_owned();
        proof {
            lemma_wf_same_shape(pre, *unit);
        }
        Ok(())
    }

    /// Hands back the value's current display name.
    pub fn get_name(&self, unit: &IrUnit) -> (r: String)
        requires
            self.wf(*unit),
        ensures
            r@ == unit.name_of(self.handle),
    {
        unit.values[self.handle.raw - 1].name.clone()
    }

    /// Registers one incoming edge on a control-flow merge value. The pair
    /// count is an assertion: anything but one is a caller bug, reported as
    /// the fatal condition with the unit untouched.
    pub fn add_incoming<V: AnyValue>(
        &self,
        unit: &mut IrUnit,
        incoming_value: &V,
        incoming_block: &BasicBlock,
        count: u32,
    ) -> (r: Result<(), FatalError>)
        requires
            old(unit).wf(),
            old(unit).is_merge(self.handle),
            old(unit).valid(incoming_value.base().handle),
            incoming_block.wf(*old(unit)),
        ensures
            final(unit).wf(),
            final(unit).is_merge(self.handle),
            r is Ok <==> count == 1,
            count == 1 ==> updated_core(*old(unit), *final(unit), self.handle)
                && final(unit).rec(self.handle).name@ == old(unit).rec(self.handle).name@
                && final(unit).rec(self.handle).flags == old(unit).rec(self.handle).flags
                && final(unit).incoming_of(self.handle) == old(unit).incoming_of(
                self.handle,
            ).push(
                IncomingEdge {
                    value: incoming_value.base().handle,
                    block: incoming_block.basic_block,
                },
            ),
            count != 1 ==> *final(unit) == *old(unit) && r == Err::<(), FatalError>(
                FatalError::IncomingCountMismatch,
            ),
    {
        if count != 1 {
            return Err(FatalError::IncomingCountMismatch);
        }
        let v = incoming_value.as_value();
        unit.push_incoming(
            self.handle,
            IncomingEdge { value: v.handle, block: incoming_block.basic_block },
        );
        Ok(())
    }

    /// Whether the value is the distinguished undefined value of its type.
    pub fn is_undef(&self, unit: &IrUnit) -> (r: bool)
        requires
            self.wf(*unit),
        ensures
            r == unit.rec(self.handle).flags.undef,
    {
        unit.values[self.handle.raw - 1].flags.undef
    }

    /// Classifies the value's IR type into the type-system representation.
    pub fn get_type(&self, unit: &IrUnit) -> (t: AnyTypeEnum)
        requires
            self.wf(*unit),
        ensures
            t == spec_any_type_of(unit.kind_of(self.handle)),
    {
        AnyTypeEnum::classify(unit.values[self.handle.raw - 1].kind)
    }
}

impl AnyValue for Value {
    open spec fn base(&self) -> Value {
        *self
    }

    fn as_value(&self) -> (v: Value) {
        *self
    }
}

/// A value whose type kind is integer.
#[derive(Clone, Copy, Debug, PartialEq, Eq, Structural)]
pub struct IntValue {
    pub int_value: Value,
}

impl IntValue {
    pub open spec fn wf(self, unit: IrUnit) -> bool {
        unit.valid(self.int_value.handle) && unit.kind_of(self.int_value.handle) is Integer
    }

    /// Wraps a handle the caller has already classified as an integer value;
    /// only the null check is performed here.
    pub fn new(unit: &IrUnit, handle: RawHandle) -> (r: Result<IntValue, FatalError>)
        requires
            handle.is_null() || (unit.valid(handle) && unit.kind_of(handle) is Integer),
        ensures
            r is Ok <==> !handle.is_null(),
            r matches Ok(v) ==> v.int_value.handle == handle && v.wf(*unit),
            handle.is_null() ==> r == Err::<IntValue, FatalError>(FatalError::NullHandle),
    {
        match Value::new(unit, handle) {
            Ok(v) => Ok(IntValue { int_value: v }),
            Err(e) => Err(e),
        }
    }

    pub fn get_name(&self, unit: &IrUnit) -> (r: String)
        requires
            self.wf(*unit),
        ensures
            r@ == unit.name_of(self.int_value.handle),
    {
        self.int_value.get_name(unit)
    }

    pub fn set_name(&self, unit: &mut IrUnit, name: &str) -> (r: Result<(), FatalError>)
        requires
            old(unit).wf(),
            self.wf(*old(unit)),
        ensures
            final(unit).wf(),
            self.wf(*final(unit)),
            r is Ok <==> !has_interior_nul(name@),
            r is Ok ==> renamed(*old(unit), *final(unit), self.int_value.handle, name@),
            r is Err ==> *final(unit) == *old(unit) && r == Err::<(), FatalError>(
                FatalError::NameHasInteriorNul,
            ),
    {
        self.int_value.set_name(unit, name)
    }
}

impl AnyValue for IntValue {
    open spec fn base(&self) -> Value {
        self.int_value
    }

    fn as_value(&self) -> (v: Value) {
        self.int_value
    }
}

impl BasicValue for IntValue {

}

/// A value whose type kind is in the floating-point family.
#[derive(Clone, Copy, Debug, PartialEq, Eq, Structural)]
pub struct FloatValue {
    pub float_value: Value,
}

impl FloatValue {
    pub open spec fn wf(self, unit: IrUnit) -> bool {
        unit.valid(self.float_value.handle) && is_float_kind(unit.kind_of(self.float_value.handle))
    }

    /// Wraps a handle the caller has already classified as a float value;
    /// only the null check is performed here.
    pub fn new(unit: &IrUnit, handle: RawHandle) -> (r: Result<FloatValue, FatalError>)
        requires
            handle.is_null() || (unit.valid(handle) && is_float_kind(unit.kind_of(handle))),
        ensures
            r is Ok <==> !handle.is_null(),
            r matches Ok(v) ==> v.float_value.handle == handle && v.wf(*unit),
            handle.is_null() ==> r == Err::<FloatValue, FatalError>(FatalError::NullHandle),
    {
        match Value::new(unit, handle) {
            Ok(v) => Ok(FloatValue { float_value: v }),
            Err(e) => Err(e),
        }
    }

    pub fn get_name(&self, unit: &IrUnit) -> (r: String)
        requires
            self.wf(*unit),
        ensures
            r@ == unit.name_of(self.float_value.handle),
    {
        self.float_value.get_name(unit)
    }

    pub fn set_name(&self, unit: &mut IrUnit, name: &str) -> (r: Result<(), FatalError>)
        requires
            old(unit).wf(),
            self.wf(*old(unit)),
        ensures
            final(unit).wf(),
            self.wf(*final(unit)),
            r is Ok <==> !has_interior_nul(name@),
            r is Ok ==> renamed(*old(unit), *final(unit), self.float_value.handle, name@),
            r is Err ==> *final(unit) == *old(unit) && r == Err::<(), FatalError>(
                FatalError::NameHasInteriorNul,
            ),
    {
        self.float_value.set_name(unit, name)
    }
}

impl AnyValue for FloatValue {
    open spec fn base(&self) -> Value {
        self.float_value
    }

    fn as_value(&self) -> (v: Value) {
        self.float_value
    }
}

impl BasicValue for FloatValue {

}

/// A value whose type kind is struct.
#[derive(Clone, Copy, Debug, PartialEq, Eq, Structural)]
pub struct StructValue {
    pub struct_value: Value,
}

impl StructValue {
    pub open spec fn wf(self, unit: IrUnit) -> bool {
        unit.valid(self.struct_value.handle) && unit.kind_of(self.struct_value.handle) is Struct
    }

    /// Wraps a handle the caller has already classified as a struct value;
    /// only the null check is performed here.
    pub fn new(unit: &IrUnit, handle: RawHandle) -> (r: Result<StructValue, FatalError>)
        requires
            handle.is_null() || (unit.valid(handle) && unit.kind_of(handle) is Struct),
        ensures
            r is Ok <==> !handle.is_null(),
            r matches Ok(v) ==> v.struct_value.handle == handle && v.wf(*unit),
            handle.is_null() ==> r == Err::<StructValue, FatalError>(FatalError::NullHandle),
    {
        match Value::new(unit, handle) {
            Ok(v) => Ok(StructValue { struct_value: v }),
            Err(e) => Err(e),
        }
    }

    pub fn get_name(&self, unit: &IrUnit) -> (r: String)
        requires
            self.wf(*unit),
        ensures
            r@ == unit.name_of(self.struct_value.handle),
    {
        self.struct_value.get_name(unit)
    }

    pub fn set_name(&self, unit: &mut IrUnit, name: &str) -> (r: Result<(), FatalError>)
        requires
            old(unit).wf(),
            self.wf(*old(unit)),
        ensures
            final(unit).wf(),
            self.wf(*final(unit)),
            r is Ok <==> !has_interior_nul(name@),
            r is Ok ==> renamed(*old(unit), *final(unit), self.struct_value.handle, name@),
            r is Err ==> *final(unit) == *old(unit) && r == Err::<(), FatalError>(
                FatalError::NameHasInteriorNul,
            ),
    {
        self.struct_value.set_name(unit, name)
    }
}

impl AnyValue for StructValue {
    open spec fn base(&self) -> Value {
        self.struct_value
    }

    fn as_value(&self) -> (v: Value) {
        self.struct_value
    }
}

impl BasicValue for StructValue {

}

/// A value whose type kind is pointer.
#[derive(Clone, Copy, Debug, PartialEq, Eq, Structural)]
pub struct PointerValue {
    pub ptr_value: Value,
}

impl PointerValue {
    pub open spec fn wf(self, unit: IrUnit) -> bool {
        unit.valid(self.ptr_value.handle) && unit.kind_of(self.ptr_value.handle) is Pointer
    }

    /// Wraps a handle the caller has already classified as a pointer value;
    /// only the null check is performed here.
    pub fn new(unit: &IrUnit, handle: RawHandle) -> (r: Result<PointerValue, FatalError>)
        requires
            handle.is_null() || (unit.valid(handle) && unit.kind_of(handle) is Pointer),
        ensures
            r is Ok <==> !handle.is_null(),
            r matches Ok(v) ==> v.ptr_value.handle == handle && v.wf(*unit),
            handle.is_null() ==> r == Err::<PointerValue, FatalError>(FatalError::NullHandle),
    {
        match Value::new(unit, handle) {
            Ok(v) => Ok(PointerValue { ptr_value: v }),
            Err(e) => Err(e),
        }
    }

    pub fn get_name(&self, unit: &IrUnit) -> (r: String)
        requires
            self.wf(*unit),
        ensures
            r@ == unit.name_of(self.ptr_value.handle),
    {
        self.ptr_value.get_name(unit)
    }

    pub fn set_name(&self, unit: &mut IrUnit, name: &str) -> (r: Result<(), FatalError>)
        requires
            old(unit).wf(),
            self.wf(*old(unit)),
        ensures
            final(unit).wf(),
            self.wf(*final(unit)),
            r is Ok <==> !has_interior_nul(name@),
            r is Ok ==> renamed(*old(unit), *final(unit), self.ptr_value.handle, name@),
            r is Err ==> *final(unit) == *old(unit) && r == Err::<(), FatalError>(
                FatalError::NameHasInteriorNul,
            ),
    {
        self.ptr_value.set_name(unit, name)
    }
}

impl AnyValue for PointerValue {
    open spec fn base(&self) -> Value {
        self.ptr_value
    }

    fn as_value(&self) -> (v: Value) {
        self.ptr_value
    }
}

impl BasicValue for PointerValue {

}

/// A value whose type kind is array.
#[derive(Clone, Copy, Debug, PartialEq, Eq, Structural)]
pub struct ArrayValue {
    pub array_value: Value,
}

impl ArrayValue {
    pub open spec fn wf(self, unit: IrUnit) -> bool {
        unit.valid(self.array_value.handle) && unit.kind_of(self.array_value.handle) is Array
    }

    /// Wraps a handle the caller has already classified as an array value;
    /// only the null check is performed here.
    pub fn new(unit: &IrUnit, handle: RawHandle) -> (r: Result<ArrayValue, FatalError>)
        requires
            handle.is_null() || (unit.valid(handle) && unit.kind_of(handle) is Array),
        ensures
            r is Ok <==> !handle.is_null(),
            r matches Ok(v) ==> v.array_value.handle == handle && v.wf(*unit),
            handle.is_null() ==> r == Err::<ArrayValue, FatalError>(FatalError::NullHandle),
    {
        match Value::new(unit, handle) {
            Ok(v) => Ok(ArrayValue { array_value: v }),
            Err(e) => Err(e),
        }
    }

    pub fn get_name(&self, unit: &IrUnit) -> (r: String)
        requires
            self.wf(*unit),
        ensures
            r@ == unit.name_of(self.array_value.handle),
    {
        self.array_value.get_name(unit)
    }

    pub fn set_name(&self, unit: &mut IrUnit, name: &str) -> (r: Result<(), FatalError>)
        requires
            old(unit).wf(),
            self.wf(*old(unit)),
        ensures
            final(unit).wf(),
            self.wf(*final(unit)),
            r is Ok <==> !has_interior_nul(name@),
            r is Ok ==> renamed(*old(unit), *final(unit), self.array_value.handle, name@),
            r is Err ==> *final(unit) == *old(unit) && r == Err::<(), FatalError>(
                FatalError::NameHasInteriorNul,
            ),
    {
        self.array_value.set_name(unit, name)
    }
}

impl AnyValue for ArrayValue {
    open spec fn base(&self) -> Value {
        self.array_value
    }

    fn as_value(&self) -> (v: Value) {
        self.array_value
    }
}

impl BasicValue for ArrayValue {

}

/// A control-flow merge ("phi") value: its runtime value depends on which
/// predecessor block control arrived from.
#[derive(Clone, Copy, Debug, PartialEq, Eq, Structural)]
pub struct PhiValue {
    pub phi_value: Value,
}

impl PhiValue {
    pub open spec fn wf(self, unit: IrUnit) -> bool {
        unit.is_merge(self.phi_value.handle)
    }

    /// Wraps a handle the caller has already classified as a merge value;
    /// only the null check is performed here.
    pub fn new(unit: &IrUnit, handle: RawHandle) -> (r: Result<PhiValue, FatalError>)
        requires
            handle.is_null() || unit.is_merge(handle),
        ensures
            r is Ok <==> !handle.is_null(),
            r matches Ok(v) ==> v.phi_value.handle == handle && v.wf(*unit),
            handle.is_null() ==> r == Err::<PhiValue, FatalError>(FatalError::NullHandle),
    {
        match Value::new(unit, handle) {
            Ok(v) => Ok(PhiValue { phi_value: v }),
            Err(e) => Err(e),
        }
    }

    /// Registers one incoming edge: afterwards the pair stands at the end of
    /// this merge value's edge list.
    pub fn add_incoming<V: AnyValue>(
        &self,
        unit: &mut IrUnit,
        incoming_value: &V,
        incoming_block: &BasicBlock,
        count: u32,
    ) -> (r: Result<(), FatalError>)
        requires
            old(unit).wf(),
            self.wf(*old(unit)),
            old(unit).valid(incoming_value.base().handle),
            incoming_block.wf(*old(unit)),
        ensures
            final(unit).wf(),
            self.wf(*final(unit)),
            r is Ok <==> count == 1,
            count == 1 ==> updated_core(*old(unit), *final(unit), self.phi_value.handle)
                && final(unit).rec(self.phi_value.handle).name@ == old(unit).rec(
                self.phi_value.handle,
            ).name@ && final(unit).incoming_of(self.phi_value.handle) == old(unit).incoming_of(
                self.phi_value.handle,
            ).push(
                IncomingEdge {
                    value: incoming_value.base().handle,
                    block: incoming_block.basic_block,
                },
            ),
            count != 1 ==> *final(unit) == *old(unit) && r == Err::<(), FatalError>(
                FatalError::IncomingCountMismatch,
            ),
    {
        self.phi_value.add_incoming(unit, incoming_value, incoming_block, count)
    }

    /// How many incoming edges are registered on this merge value.
    pub fn count_incoming(&self, unit: &IrUnit) -> (r: usize)
        requires
            self.wf(*unit),
        ensures
            r == unit.incoming_of(self.phi_value.handle).len(),
    {
        match &unit.values[self.phi_value.handle.raw - 1].extra {
            crate::unit::ValueExtra::Merge(m) => m.incoming.len(),
            _ => 0,
        }
    }

    /// Hands back the `i`th registered incoming edge, or nothing when `i` is
    /// out of range.
    pub fn get_incoming(&self, unit: &IrUnit, i: usize) -> (r: Option<IncomingEdge>)
        requires
            self.wf(*unit),
        ensures
            r is Some <==> i < unit.incoming_of(self.phi_value.handle).len(),
            r matches Some(e) ==> e == unit.incoming_of(self.phi_value.handle)[i as int],
    {
        match &unit.values[self.phi_value.handle.raw - 1].extra {
            crate::unit::ValueExtra::Merge(m) => {
                if i < m.incoming.len() {
                    Some(m.incoming[i])
                } else {
                    None
                }
            },
            _ => None,
        }
    }

    pub fn get_name(&self, unit: &IrUnit) -> (r: String)
        requires
            self.wf(*unit),
        ensures
            r@ == unit.name_of(self.phi_value.handle),
    {
        self.phi_value.get_name(unit)
    }
}

impl AnyValue for PhiValue {
    open spec fn base(&self) -> Value {
        self.phi_value
    }

    fn as_value(&self) -> (v: Value) {
        self.phi_value
    }
}

/// Conversion into an integer value wrapper, possibly by creating a fresh
/// constant in the unit.
pub trait IntoIntValue: Sized {
    /// What the conversion asks of the unit it runs in.
    spec fn into_ok(&self, unit: IrUnit) -> bool;

    /// Hands back an integer value wrapper, valid in the unit as left behind;
    /// existing records and blocks are untouched.
    fn into_int_value(&self, unit: &mut IrUnit) -> (r: IntValue)
        requires
            old(unit).wf(),
            self.into_ok(*old(unit)),
        ensures
            final(unit).wf(),
            r.wf(*final(unit)),
            old(unit).values@.len() <= final(unit).values@.len(),
            forall|j: int|
                0 <= j < old(unit).values@.len() ==> final(unit).values@[j] == old(
                    unit,
                ).values@[j],
            final(unit).blocks@ == old(unit).blocks@,
    ;
}

impl IntoIntValue for IntValue {
    open spec fn into_ok(&self, unit: IrUnit) -> bool {
        self.wf(unit)
    }

    /// Rewraps the same handle.
    fn into_int_value(&self, unit: &mut IrUnit) -> (r: IntValue) {
        IntValue { int_value: self.int_value }
    }
}

impl IntoIntValue for u64 {
    open spec fn into_ok(&self, unit: IrUnit) -> bool {
        unit.values@.len() < usize::MAX
    }

    /// Creates a fresh integer constant value in the unit and wraps it.
    fn into_int_value(&self, unit: &mut IrUnit) -> (r: IntValue) {
        let h = unit.add_value(
            TypeKind::Integer,
            ValueFlags {
                undef: false,
                constant: true,
                null: false,
                const_array: false,
                const_data_array: false,
            },
        );
        IntValue { int_value: Value { handle: h } }
    }
}

} // verus!
