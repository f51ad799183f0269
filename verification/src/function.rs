//! The function wrapper: parameters, basic blocks, return type, the
//! structural well-formedness check, and the forward-only parameter iterator.

use vstd::prelude::*;

use crate::blocks::BasicBlock;
use crate::enums::{spec_classify_basic, BasicValueEnum};
use crate::kinds::{is_basic_kind, FatalError, TypeKind};
use crate::types::{spec_basic_type_of, BasicTypeEnum};
use crate::unit::{IrUnit, RawHandle, ValueExtra};
use crate::values::{AnyValue, Value};

verus! {

/// The classification of each parameter of a function, in declaration order:
/// the sequence the parameter accessors and the iterator agree on.
pub open spec fn spec_param_values(unit: IrUnit, h: RawHandle) -> Seq<BasicValueEnum>
    recommends
        unit.is_function(h),
{
    unit.params_of(h).map(|i: int, p: RawHandle| spec_classify_basic(unit, p))
}

/// The structural well-formedness the function check reports: every basic
/// block of the function ends in a terminator.
pub open spec fn spec_fn_valid(unit: IrUnit, h: RawHandle) -> bool
    recommends
        unit.is_function(h),
{
    forall|i: int|
        0 <= i < unit.blocks_of(h).len() ==> unit.block_terminated(#[trigger] unit.blocks_of(h)[i])
}

/// A callable IR unit: a value whose record carries parameters, basic blocks
/// and a declared return kind.
#[derive(Clone, Copy, Debug, PartialEq, Eq, Structural)]
pub struct FunctionValue {
    pub fn_value: Value,
}

impl FunctionValue {
    /// The wrapper is meaningful only while its handle denotes a function
    /// record of the unit it came from.
    pub open spec fn wf(self, unit: IrUnit) -> bool {
        unit.is_function(self.fn_value.handle)
    }

    /// Wraps a handle after checking the "is a function" predicate; a null
    /// handle and a non-function handle are fatal conditions.
    pub fn new(unit: &IrUnit, value: RawHandle) -> (r: Result<FunctionValue, FatalError>)
        requires
            value.is_null() || unit.valid(value),
        ensures
            r is Ok <==> unit.is_function(value),
            r matches Ok(f) ==> f.fn_value.handle == value && f.wf(*unit),
            value.is_null() ==> r == Err::<FunctionValue, FatalError>(FatalError::NullHandle),
            !value.is_null() && !unit.is_function(value) ==> r == Err::<FunctionValue, FatalError>(
                FatalError::NotAFunction,
            ),
    {
        if value.raw == 0 {
            return Err(FatalError::NullHandle);
        }
        match &unit.values[value.raw - 1].extra {
            ValueExtra::Function(_) => Ok(FunctionValue { fn_value: Value { handle: value } }),
            _ => Err(FatalError::NotAFunction),
        }
    }

    /// Runs the structural check. `print` picks the foreign action — emit
    /// diagnostics or report status only — and does not change the verdict.
    /// An ill-formed function is a fatal condition.
    pub fn verify(&self, unit: &IrUnit, print: bool) -> (r: Result<(), FatalError>)
        requires
            unit.wf(),
            self.wf(*unit),
        ensures
            r is Ok <==> spec_fn_valid(*unit, self.fn_value.handle),
            r is Err ==> r == Err::<(), FatalError>(FatalError::InvalidFunction),
    {
        let ghost h = self.fn_value.handle;
        proof {
            assert(unit.extra_wf(unit.values@[h.idx()].extra));
        }
        match &unit.values[self.fn_value.handle.raw - 1].extra {
            ValueExtra::Function(d) => {
                let n = d.blocks.len();
                let mut i: usize = 0;
                while i < n
                    invariant
                        unit.wf(),
                        h == self.fn_value.handle,
                        unit.is_function(h),
                        d.blocks@ == unit.blocks_of(h),
                        unit.extra_wf(unit.values@[h.idx()].extra),
                        n == d.blocks@.len(),
                        i <= n,
                        forall|j: int| 0 <= j < i ==> unit.block_terminated(#[trigger] d.blocks@[j]),
                    decreases n - i,
                {
                    if !unit.blocks[d.blocks[i]].terminated {
                        proof {
                            assert(!unit.block_terminated(unit.blocks_of(h)[i as int]));
                        }
                        return Err(FatalError::InvalidFunction);
                    }
                    i += 1;
                }
                Ok(())
            },
            _ => {
                proof {
                    assert(false);
                }
                Ok(())
            },
        }
    }

    /// How many parameters the function declares.
    pub fn count_params(&self, unit: &IrUnit) -> (r: u32)
        requires
            unit.wf(),
            self.wf(*unit),
        ensures
            r as nat == unit.params_of(self.fn_value.handle).len(),
    {
        let ghost h = self.fn_value.handle;
        proof {
            assert(unit.extra_wf(unit.values@[h.idx()].extra));
        }
        match &unit.values[self.fn_value.handle.raw - 1].extra {
            ValueExtra::Function(d) => d.params.len() as u32,
            _ => {
                proof {
                    assert(false);
                }
                0
            },
        }
    }

    /// The classification of the `nth` parameter, or nothing when `nth` is out
    /// of range: exactly when `nth` is below the parameter count there is a
    /// value, and it is the `nth` element of the parameter sequence.
    pub fn get_nth_param(&self, unit: &IrUnit, nth: u32) -> (r: Option<BasicValueEnum>)
        requires
            unit.wf(),
            self.wf(*unit),
        ensures
            r is Some <==> (nth as nat) < unit.params_of(self.fn_value.handle).len(),
            r matches Some(v) ==> v == spec_param_values(*unit, self.fn_value.handle)[nth as int]
                && v.wf(*unit),
    {
        let ghost h = self.fn_value.handle;
        proof {
            assert(unit.extra_wf(unit.values@[h.idx()].extra));
        }
        let count = self.count_params(unit);
        if nth >= count {
            return None;
        }
        match &unit.values[self.fn_value.handle.raw - 1].extra {
            ValueExtra::Function(d) => {
                let p = d.params[nth as usize];
                match BasicValueEnum::classify(unit, p) {
                    Ok(v) => Some(v),
                    Err(_) => {
                        proof {
                            assert(false);
                        }
                        None
                    },
                }
            },
            _ => {
                proof {
                    assert(false);
                }
                None
            },
        }
    }

    /// The classification of the first parameter, or nothing when the function
    /// has none.
    pub fn get_first_param(&self, unit: &IrUnit) -> (r: Option<BasicValueEnum>)
        requires
            unit.wf(),
            self.wf(*unit),
        ensures
            r is Some <==> unit.params_of(self.fn_value.handle).len() != 0,
            r matches Some(v) ==> v == spec_param_values(*unit, self.fn_value.handle)[0] && v.wf(
                *unit,
            ),
    {
        self.get_nth_param(unit, 0)
    }

    /// A fresh forward-only cursor over the function's parameters, positioned
    /// before the first.
    pub fn params(&self) -> (it: ParamValueIter)
        ensures
            it.param_iter_value == self.fn_value.handle,
            it.start,
            it.pos() == 0,
    {
        ParamValueIter { param_iter_value: self.fn_value.handle, start: true, cursor: 0 }
    }

    /// The function's basic blocks, wrapped in declaration order.
    pub fn get_basic_blocks(&self, unit: &IrUnit) -> (r: Vec<BasicBlock>)
        requires
            unit.wf(),
            self.wf(*unit),
        ensures
            r@.len() == unit.blocks_of(self.fn_value.handle).len(),
            forall|i: int|
                0 <= i < r@.len() ==> (#[trigger] r@[i]).basic_block == unit.blocks_of(
                    self.fn_value.handle,
                )[i] && r@[i].wf(*unit),
    {
        let ghost h = self.fn_value.handle;
        proof {
            assert(unit.extra_wf(unit.values@[h.idx()].extra));
        }
        let mut out: Vec<BasicBlock> = Vec::new();
        match &unit.values[self.fn_value.handle.raw - 1].extra {
            ValueExtra::Function(d) => {
                let n = d.blocks.len();
                let mut i: usize = 0;
                while i < n
                    invariant
                        d.blocks@ == unit.blocks_of(h),
                        unit.extra_wf(unit.values@[h.idx()].extra),
                        unit.is_function(h),
                        n == d.blocks@.len(),
                        i <= n,
                        out@.len() == i,
                        forall|j: int|
                            0 <= j < i ==> (#[trigger] out@[j]).basic_block == d.blocks@[j]
                                && out@[j].wf(*unit),
                    decreases n - i,
                {
                    out.push(BasicBlock { basic_block: d.blocks[i] });
                    i += 1;
                }
            },
            _ => {
                proof {
                    assert(false);
                }
            },
        }
        out
    }

    /// The first basic block, or nothing on a function without blocks.
    pub fn get_first_basic_block(&self, unit: &IrUnit) -> (r: Option<BasicBlock>)
        requires
            unit.wf(),
            self.wf(*unit),
        ensures
            r is Some <==> unit.blocks_of(self.fn_value.handle).len() != 0,
            r matches Some(b) ==> b.basic_block == unit.blocks_of(self.fn_value.handle)[0] && b.wf(
                *unit,
            ),
    {
        let ghost h = self.fn_value.handle;
        proof {
            assert(unit.extra_wf(unit.values@[h.idx()].extra));
        }
        match &unit.values[self.fn_value.handle.raw - 1].extra {
            ValueExtra::Function(d) => {
                if d.blocks.len() == 0 {
                    None
                } else {
                    Some(BasicBlock { basic_block: d.blocks[0] })
                }
            },
            _ => {
                proof {
                    assert(false);
                }
                None
            },
        }
    }

    /// The last basic block. Calling this on a function without blocks is a
    /// documented precondition violation: the foreign accessor's behaviour
    /// there is unspecified, so the contract rules it out.
    pub fn get_last_basic_block(&self, unit: &IrUnit) -> (r: BasicBlock)
        requires
            unit.wf(),
            self.wf(*unit),
            unit.blocks_of(self.fn_value.handle).len() > 0,
        ensures
            r.basic_block == unit.blocks_of(self.fn_value.handle).last(),
            r.wf(*unit),
    {
        let ghost h = self.fn_value.handle;
        proof {
            assert(unit.extra_wf(unit.values@[h.idx()].extra));
        }
        match &unit.values[self.fn_value.handle.raw - 1].extra {
            ValueExtra::Function(d) => BasicBlock { basic_block: d.blocks[d.blocks.len() - 1] },
            _ => {
                proof {
                    assert(false);
                }
                BasicBlock { basic_block: 0 }
            },
        }
    }

    /// Classifies the function's declared return type. A return kind outside
    /// the first-class set has no classification in the first-class type sum,
    /// so the contract rules it out.
    pub fn get_return_type(&self, unit: &IrUnit) -> (r: BasicTypeEnum)
        requires
            unit.wf(),
            self.wf(*unit),
            is_basic_kind(unit.return_kind_of(self.fn_value.handle)),
        ensures
            r == spec_basic_type_of(unit.return_kind_of(self.fn_value.handle)),
    {
        let kind = match &unit.values[self.fn_value.handle.raw - 1].extra {
            ValueExtra::Function(d) => d.return_kind,
            _ => {
                proof {
                    assert(false);
                }
                TypeKind::Void
            },
        };
        match BasicTypeEnum::classify(kind) {
            Ok(t) => t,
            Err(_) => {
                proof {
                    assert(false);
                }
                BasicTypeEnum::IntType
            },
        }
    }

    /// Hands back the function's current display name.
    pub fn get_name(&self, unit: &IrUnit) -> (r: String)
        requires
            self.wf(*unit),
        ensures
            r@ == unit.name_of(self.fn_value.handle),
    {
        self.fn_value.get_name(unit)
    }
}

impl AnyValue for FunctionValue {
    open spec fn base(&self) -> Value {
        self.fn_value
    }

    fn as_value(&self) -> (v: Value) {
        self.fn_value
    }
}

/// A transient forward-only cursor over a function's parameter list: a
/// not-yet-started phase and an advancing phase that remembers the position
/// yielded last. It does not restart, and once the end is observed it stays
/// observed; the parameter list is assumed immutable for the cursor's
/// lifetime.
#[derive(Clone, Copy, Debug, PartialEq, Eq, Structural)]
pub struct ParamValueIter {
    pub param_iter_value: RawHandle,
    pub start: bool,
    pub cursor: usize,
}

impl ParamValueIter {
    /// The cursor is meaningful only against the unit its function lives in:
    /// once advancing, the remembered position names a parameter.
    pub open spec fn wf(self, unit: IrUnit) -> bool {
        &&& unit.is_function(self.param_iter_value)
        &&& (self.start ==> self.cursor == 0)
        &&& (!self.start ==> self.cursor < unit.params_of(self.param_iter_value).len())
    }

    /// The position of the next parameter to yield: zero before the start,
    /// one past the last yielded afterwards.
    pub open spec fn pos(self) -> int {
        if self.start {
            0
        } else {
            self.cursor + 1
        }
    }

    /// Yields the classification of the parameter at the current position and
    /// advances, or reports the permanent end of the sequence.
    pub fn next(&mut self, unit: &IrUnit) -> (r: Option<BasicValueEnum>)
        requires
            unit.wf(),
            old(self).wf(*unit),
        ensures
            final(self).wf(*unit),
            final(self).param_iter_value == old(self).param_iter_value,
            r is Some <==> old(self).pos() < spec_param_values(
                *unit,
                old(self).param_iter_value,
            ).len(),
            r matches Some(v) ==> v == spec_param_values(*unit, old(self).param_iter_value)[old(
                self,
            ).pos()] && v.wf(*unit) && final(self).pos() == old(self).pos() + 1,
            r is None ==> final(self).pos() == old(self).pos(),
    {
        let ghost h = self.param_iter_value;
        proof {
            assert(unit.extra_wf(unit.values@[h.idx()].extra));
        }
        match &unit.values[self.param_iter_value.raw - 1].extra {
            ValueExtra::Function(d) => {
                if self.start {
                    if d.params.len() == 0 {
                        return None;
                    }
                    self.start = false;
                    self.cursor = 0;
                    match BasicValueEnum::classify(unit, d.params[0]) {
                        Ok(v) => Some(v),
                        Err(_) => {
                            proof {
                                assert(false);
                            }
                            None
                        },
                    }
                } else {
                    if self.cursor + 1 < d.params.len() {
                        self.cursor = self.cursor + 1;
                        match BasicValueEnum::classify(unit, d.params[self.cursor]) {
                            Ok(v) => Some(v),
                            Err(_) => {
                                proof {
                                    assert(false);
                                }
                                None
                            },
                        }
                    } else {
                        None
                    }
                }
            },
            _ => {
                proof {
                    assert(false);
                }
                None
            },
        }
    }
}

} // verus!
