//! The compilation unit: the side table that owns every IR value and basic
//! block, and the builder operations that create them.
//!
//! A raw handle is a non-owning index into the unit's value table, displaced
//! by one so that zero is the null handle. Wrappers never free what they
//! reference; the unit owns every record, and a unit only ever grows, so a
//! handle once valid stays valid.

use vstd::prelude::*;

use crate::kinds::{is_basic_kind, TypeKind};

verus! {

/// A non-owning reference to an IR value: an index into the owning unit's
/// value table, displaced by one. `raw == 0` is the null handle, what a
/// foreign accessor hands back for "nothing there".
#[derive(Clone, Copy, Debug, PartialEq, Eq, Structural)]
pub struct RawHandle {
    pub raw: usize,
}

impl RawHandle {
    /// The null handle denotes no value at all.
    pub open spec fn is_null(self) -> bool {
        self.raw == 0
    }

    /// The index this handle denotes in the unit's value table.
    pub open spec fn idx(self) -> int {
        self.raw - 1
    }

    /// The null handle.
    pub fn null() -> (h: RawHandle)
        ensures
            h.is_null(),
    {
        RawHandle { raw: 0 }
    }
}

/// The pure predicates a value record answers about itself.
#[derive(Clone, Copy, Debug, PartialEq, Eq, Structural)]
pub struct ValueFlags {
    /// The value is the distinguished undefined value of its type.
    pub undef: bool,
    /// The value is a constant.
    pub constant: bool,
    /// The value is the null constant of its type.
    pub null: bool,
    /// The value is a constant array built from explicit elements.
    pub const_array: bool,
    /// The value is a constant array packed from raw data.
    pub const_data_array: bool,
}

impl ValueFlags {
    /// Flags with every predicate answering no.
    pub open spec fn cleared() -> ValueFlags {
        ValueFlags {
            undef: false,
            constant: false,
            null: false,
            const_array: false,
            const_data_array: false,
        }
    }

    /// Flags with every predicate answering no.
    pub fn none() -> (f: ValueFlags)
        ensures
            f == ValueFlags::cleared(),
    {
        ValueFlags { undef: false, constant: false, null: false, const_array: false, const_data_array: false }
    }
}

/// What a function value carries beyond the common core: its declared return
/// kind, its parameters in declaration order, and its basic blocks.
pub struct FunctionData {
    pub return_kind: TypeKind,
    pub params: Vec<RawHandle>,
    pub blocks: Vec<usize>,
}

/// One incoming edge of a control-flow merge value: the value that flows in,
/// and the predecessor block it flows in from.
#[derive(Clone, Copy, Debug, PartialEq, Eq, Structural)]
pub struct IncomingEdge {
    pub value: RawHandle,
    pub block: usize,
}

/// What a control-flow merge ("phi") value carries beyond the common core.
pub struct MergeData {
    pub incoming: Vec<IncomingEdge>,
}

/// The role-specific part of a value record.
pub enum ValueExtra {
    /// A first-class value with no role-specific state.
    Plain,
    /// A callable unit.
    Function(FunctionData),
    /// A control-flow merge point.
    Merge(MergeData),
}

/// One IR value as the unit holds it: its type kind, its display name, its
/// predicate flags, and its role-specific state.
pub struct ValueRecord {
    pub kind: TypeKind,
    pub name: String,
    pub flags: ValueFlags,
    pub extra: ValueExtra,
}

/// One basic block as the unit holds it. The structural check asks only
/// whether the block ends in a terminator.
pub struct BlockRecord {
    pub terminated: bool,
}

/// The compilation unit: owner of every IR value and basic block. Wrappers
/// hold indices into these tables and never outlive nor free them.
pub struct IrUnit {
    pub values: Vec<ValueRecord>,
    pub blocks: Vec<BlockRecord>,
}

impl IrUnit {
    /// A handle is valid when it is non-null and denotes a record.
    pub open spec fn valid(self, h: RawHandle) -> bool {
        1 <= h.raw && h.raw <= self.values@.len()
    }

    /// The record a valid handle denotes.
    pub open spec fn rec(self, h: RawHandle) -> ValueRecord
        recommends
            self.valid(h),
    {
        self.values@[h.idx()]
    }

    /// The type kind of a value.
    pub open spec fn kind_of(self, h: RawHandle) -> TypeKind
        recommends
            self.valid(h),
    {
        self.rec(h).kind
    }

    /// The current display name of a value.
    pub open spec fn name_of(self, h: RawHandle) -> Seq<char>
        recommends
            self.valid(h),
    {
        self.rec(h).name@
    }

    /// Whether a handle denotes a function value.
    pub open spec fn is_function(self, h: RawHandle) -> bool {
        self.valid(h) && self.rec(h).extra is Function
    }

    /// Whether a handle denotes a control-flow merge value.
    pub open spec fn is_merge(self, h: RawHandle) -> bool {
        self.valid(h) && self.rec(h).extra is Merge
    }

    /// The parameters of a function value, in declaration order.
    pub open spec fn params_of(self, h: RawHandle) -> Seq<RawHandle>
        recommends
            self.is_function(h),
    {
        self.rec(h).extra->Function_0.params@
    }

    /// The basic blocks of a function value, in order.
    pub open spec fn blocks_of(self, h: RawHandle) -> Seq<usize>
        recommends
            self.is_function(h),
    {
        self.rec(h).extra->Function_0.blocks@
    }

    /// The declared return kind of a function value.
    pub open spec fn return_kind_of(self, h: RawHandle) -> TypeKind
        recommends
            self.is_function(h),
    {
        self.rec(h).extra->Function_0.return_kind
    }

    /// The incoming edges registered on a merge value, in registration order.
    pub open spec fn incoming_of(self, h: RawHandle) -> Seq<IncomingEdge>
        recommends
            self.is_merge(h),
    {
        self.rec(h).extra->Merge_0.incoming@
    }

    /// A block index is valid when it denotes a block record.
    pub open spec fn valid_block(self, b: usize) -> bool {
        b < self.blocks@.len()
    }

    /// Whether a block ends in a terminator.
    pub open spec fn block_terminated(self, b: usize) -> bool
        recommends
            self.valid_block(b),
    {
        self.blocks@[b as int].terminated
    }

    /// Well-formedness of one record's role-specific state against this unit:
    /// a function's parameters are valid handles of first-class kinds and its
    /// blocks are valid; a merge's incoming edges name valid values and
    /// blocks.
    pub open spec fn extra_wf(self, e: ValueExtra) -> bool {
        match e {
            ValueExtra::Plain => true,
            ValueExtra::Function(d) => {
                &&& d.params@.len() <= u32::MAX
                &&& forall|i: int|
                    0 <= i < d.params@.len() ==> self.valid(#[trigger] d.params@[i])
                        && is_basic_kind(self.rec(d.params@[i]).kind)
                &&& forall|i: int| 0 <= i < d.blocks@.len() ==> self.valid_block(#[trigger] d.blocks@[i])
            },
            ValueExtra::Merge(m) => {
                forall|i: int|
                    0 <= i < m.incoming@.len() ==> self.valid((#[trigger] m.incoming@[i]).value)
                        && self.valid_block(m.incoming@[i].block)
            },
        }
    }

    /// The unit's invariant: every record's role-specific state is
    /// well-formed. Builders establish it and every operation preserves it.
    pub open spec fn wf(self) -> bool {
        forall|j: int| 0 <= j < self.values@.len() ==> self.extra_wf((#[trigger] self.values@[j]).extra)
    }

    /// An empty compilation unit.
    pub fn new() -> (u: IrUnit)
        ensures
            u.wf(),
            u.values@.len() == 0,
            u.blocks@.len() == 0,
    {
        IrUnit { values: Vec::new(), blocks: Vec::new() }
    }

    /// Creates a first-class value of the given type kind with the given
    /// predicate flags, an empty name, and no role-specific state, and hands
    /// back its handle.
    pub fn add_value(&mut self, kind: TypeKind, flags: ValueFlags) -> (h: RawHandle)
        requires
            old(self).wf(),
            old(self).values@.len() < usize::MAX,
        ensures
            final(self).wf(),
            final(self).valid(h),
            h.raw == old(self).values@.len() + 1,
            final(self).values@.len() == old(self).values@.len() + 1,
            final(self).rec(h).kind == kind,
            final(self).rec(h).name@ == Seq::<char>::empty(),
            final(self).rec(h).flags == flags,
            final(self).rec(h).extra is Plain,
            forall|j: int| 0 <= j < old(self).values@.len() ==> final(self).values@[j] == old(self).values@[j],
            final(self).blocks@ == old(self).blocks@,
    {
        let h = RawHandle { raw: self.values.len() + 1 };
        self.values.push(ValueRecord { kind, name: String::new(), flags, extra: ValueExtra::Plain });
        proof {
            lemma_wf_grows(*old(self), *self);
        }
        h
    }

    /// Creates a control-flow merge value of the given type kind with no
    /// incoming edges, and hands back its handle.
    pub fn add_merge(&mut self, kind: TypeKind) -> (h: RawHandle)
        requires
            old(self).wf(),
            old(self).values@.len() < usize::MAX,
        ensures
            final(self).wf(),
            final(self).is_merge(h),
            h.raw == old(self).values@.len() + 1,
            final(self).values@.len() == old(self).values@.len() + 1,
            final(self).rec(h).kind == kind,
            final(self).rec(h).name@ == Seq::<char>::empty(),
            final(self).rec(h).flags == ValueFlags::cleared(),
            final(self).incoming_of(h) == Seq::<IncomingEdge>::empty(),
            forall|j: int| 0 <= j < old(self).values@.len() ==> final(self).values@[j] == old(self).values@[j],
            final(self).blocks@ == old(self).blocks@,
    {
        let h = RawHandle { raw: self.values.len() + 1 };
        self.values.push(ValueRecord {
            kind,
            name: String::new(),
            flags: ValueFlags::none(),
            extra: ValueExtra::Merge(MergeData { incoming: Vec::new() }),
        });
        proof {
            lemma_wf_grows(*old(self), *self);
        }
        h
    }

    /// Creates a function value with the given return kind and one fresh
    /// parameter value per given kind, in order, and hands back its handle.
    /// Parameters are first-class values, so their kinds must be first-class.
    pub fn add_function(&mut self, return_kind: TypeKind, param_kinds: &Vec<TypeKind>) -> (h: RawHandle)
        requires
            old(self).wf(),
            forall|i: int| 0 <= i < param_kinds@.len() ==> is_basic_kind(#[trigger] param_kinds@[i]),
            param_kinds@.len() <= u32::MAX,
            old(self).values@.len() + param_kinds@.len() < usize::MAX,
        ensures
            final(self).wf(),
            final(self).is_function(h),
            h.raw == old(self).values@.len() + param_kinds@.len() + 1,
            final(self).values@.len() == old(self).values@.len() + param_kinds@.len() + 1,
            final(self).rec(h).kind == TypeKind::Function,
            final(self).rec(h).name@ == Seq::<char>::empty(),
            final(self).rec(h).flags == ValueFlags::cleared(),
            final(self).return_kind_of(h) == return_kind,
            final(self).blocks_of(h) == Seq::<usize>::empty(),
            final(self).params_of(h).len() == param_kinds@.len(),
            forall|i: int|
                0 <= i < param_kinds@.len() ==> {
                    let p = #[trigger] final(self).params_of(h)[i];
                    &&& p.raw == old(self).values@.len() + i + 1
                    &&& final(self).valid(p)
                    &&& final(self).rec(p).kind == param_kinds@[i]
                    &&& final(self).rec(p).name@ == Seq::<char>::empty()
                    &&& final(self).rec(p).flags == ValueFlags::cleared()
                    &&& final(self).rec(p).extra is Plain
                },
            forall|j: int| 0 <= j < old(self).values@.len() ==> final(self).values@[j] == old(self).values@[j],
            final(self).blocks@ == old(self).blocks@,
    {
        let ghost pre = *self;
        let n = param_kinds.len();
        let mut params: Vec<RawHandle> = Vec::new();
        let mut i: usize = 0;
        while i < n
            invariant
                pre.wf(),
                forall|k: int| 0 <= k < param_kinds@.len() ==> is_basic_kind(#[trigger] param_kinds@[k]),
                n == param_kinds@.len(),
                pre.values@.len() + n < usize::MAX,
                i <= n,
                self.values@.len() == pre.values@.len() + i,
                self.blocks@ == pre.blocks@,
                self.wf(),
                params@.len() == i,
                forall|j: int| 0 <= j < pre.values@.len() ==> self.values@[j] == pre.values@[j],
                forall|j: int|
                    0 <= j < i ==> {
                        let p = #[trigger] params@[j];
                        &&& p.raw == pre.values@.len() + j + 1
                        &&& self.valid(p)
                        &&& self.rec(p).kind == param_kinds@[j]
                        &&& self.rec(p).name@ == Seq::<char>::empty()
                        &&& self.rec(p).flags == ValueFlags::cleared()
                        &&& self.rec(p).extra is Plain
                    },
            decreases n - i,
        {
            let ghost before = *self;
            let p = RawHandle { raw: self.values.len() + 1 };
            self.values.push(ValueRecord {
                kind: param_kinds[i],
                name: String::new(),
                flags: ValueFlags::none(),
                extra: ValueExtra::Plain,
            });
            params.push(p);
            i += 1;
            proof {
                lemma_wf_grows(before, *self);
            }
        }
        let ghost with_params = *self;
        let h = RawHandle { raw: self.values.len() + 1 };
        self.values.push(ValueRecord {
            kind: TypeKind::Function,
            name: String::new(),
            flags: ValueFlags::none(),
            extra: ValueExtra::Function(FunctionData { return_kind, params, blocks: Vec::new() }),
        });
        proof {
            lemma_wf_grows(with_params, *self);
        }
        h
    }

    /// Creates a basic block, appends it to the given function's block list,
    /// and hands back its index.
    pub fn add_block(&mut self, func: RawHandle, terminated: bool) -> (b: usize)
        requires
            old(self).wf(),
            old(self).is_function(func),
            old(self).blocks@.len() < usize::MAX,
        ensures
            final(self).wf(),
            b == old(self).blocks@.len(),
            final(self).valid_block(b),
            final(self).block_terminated(b) == terminated,
            final(self).blocks@ == old(self).blocks@.push(BlockRecord { terminated }),
            final(self).values@.len() == old(self).values@.len(),
            final(self).is_function(func),
            final(self).blocks_of(func) == old(self).blocks_of(func).push(b),
            final(self).params_of(func) == old(self).params_of(func),
            final(self).return_kind_of(func) == old(self).return_kind_of(func),
            final(self).rec(func).kind == old(self).rec(func).kind,
            final(self).rec(func).name@ == old(self).rec(func).name@,
            final(self).rec(func).flags == old(self).rec(func).flags,
            forall|j: int|
                0 <= j < old(self).values@.len() && j != func.idx() ==> final(self).values@[j] == old(
                    self,
                ).values@[j],
    {
        let b = self.blocks.len();
        self.blocks.push(BlockRecord { terminated });
        let idx = func.raw - 1;
        let r = &mut self.values[idx];
        match &mut r.extra {
            ValueExtra::Function(d) => {
                d.blocks.push(b);
            },
            _ => {},
        }
        proof {
            assert forall|j: int| 0 <= j < self.values@.len() implies self.extra_wf(
                (#[trigger] self.values@[j]).extra,
            ) by {
                if j != func.idx() {
                    lemma_extra_wf_grows(*old(self), *self, self.values@[j].extra);
                } else {
                    lemma_extra_wf_grows(*old(self), *self, old(self).values@[j].extra);
                    assert(self.blocks_of(func) == old(self).blocks_of(func).push(b));
                }
            }
        }
        b
    }

    /// Appends one incoming edge to a merge value's edge list.
    pub fn push_incoming(&mut self, h: RawHandle, edge: IncomingEdge)
        requires
            old(self).wf(),
            old(self).is_merge(h),
            old(self).valid(edge.value),
            old(self).valid_block(edge.block),
        ensures
            final(self).wf(),
            final(self).is_merge(h),
            final(self).incoming_of(h) == old(self).incoming_of(h).push(edge),
            final(self).rec(h).kind == old(self).rec(h).kind,
            final(self).rec(h).name@ == old(self).rec(h).name@,
            final(self).rec(h).flags == old(self).rec(h).flags,
            final(self).values@.len() == old(self).values@.len(),
            final(self).blocks@ == old(self).blocks@,
            forall|j: int|
                0 <= j < old(self).values@.len() && j != h.idx() ==> final(self).values@[j] == old(
                    self,
                ).values@[j],
    {
        let idx = h.raw - 1;
        let r = &mut self.values[idx];
        match &mut r.extra {
            ValueExtra::Merge(m) => {
                m.incoming.push(edge);
            },
            _ => {},
        }
        proof {
            assert forall|j: int| 0 <= j < self.values@.len() implies self.extra_wf(
                (#[trigger] self.values@[j]).extra,
            ) by {
                if j != h.idx() {
                    lemma_extra_wf_grows(*old(self), *self, self.values@[j].extra);
                } else {
                    lemma_extra_wf_grows(*old(self), *self, old(self).values@[j].extra);
                    assert(self.incoming_of(h) == old(self).incoming_of(h).push(edge));
                }
            }
        }
    }
}

/// Role-specific well-formedness only ever looks at the kinds of the records
/// it points to, so it survives any change that keeps every existing record's
/// kind and lets the tables grow.
pub proof fn lemma_extra_wf_grows(pre: IrUnit, post: IrUnit, e: ValueExtra)
    requires
        pre.values@.len() <= post.values@.len(),
        pre.blocks@.len() <= post.blocks@.len(),
        forall|j: int| 0 <= j < pre.values@.len() ==> (#[trigger] post.values@[j]).kind == pre.values@[j].kind,
        pre.extra_wf(e),
    ensures
        post.extra_wf(e),
{
    match e {
        ValueExtra::Plain => {},
        ValueExtra::Function(d) => {
            assert forall|i: int| 0 <= i < d.params@.len() implies post.valid(#[trigger] d.params@[i])
                && is_basic_kind(post.rec(d.params@[i]).kind) by {
                assert(pre.valid(d.params@[i]));
                assert(post.values@[d.params@[i].idx()].kind == pre.values@[d.params@[i].idx()].kind);
            }
        },
        ValueExtra::Merge(m) => {
            assert forall|i: int| 0 <= i < m.incoming@.len() implies post.valid(
                (#[trigger] m.incoming@[i]).value,
            ) && post.valid_block(m.incoming@[i].block) by {
                assert(pre.valid(m.incoming@[i].value));
            }
        },
    }
}

/// A unit stays well-formed when an update keeps every record's kind and
/// role-specific state, as a rename or a flag change does.
pub proof fn lemma_wf_same_shape(pre: IrUnit, post: IrUnit)
    requires
        pre.wf(),
        post.values@.len() == pre.values@.len(),
        post.blocks@.len() >= pre.blocks@.len(),
        forall|j: int|
            0 <= j < pre.values@.len() ==> (#[trigger] post.values@[j]).kind == pre.values@[j].kind
                && post.values@[j].extra == pre.values@[j].extra,
    ensures
        post.wf(),
{
    assert forall|j: int| 0 <= j < post.values@.len() implies post.extra_wf(
        (#[trigger] post.values@[j]).extra,
    ) by {
        lemma_extra_wf_grows(pre, post, pre.values@[j].extra);
    }
}

/// A unit stays well-formed when records are only appended and every existing
/// record is kept as it was.
pub proof fn lemma_wf_grows(pre: IrUnit, post: IrUnit)
    requires
        pre.wf(),
        pre.values@.len() <= post.values@.len(),
        pre.blocks@.len() <= post.blocks@.len(),
        forall|j: int| 0 <= j < pre.values@.len() ==> post.values@[j] == pre.values@[j],
        forall|j: int|
            pre.values@.len() <= j < post.values@.len() ==> post.extra_wf(
                (#[trigger] post.values@[j]).extra,
            ),
    ensures
        post.wf(),
{
    assert forall|j: int| 0 <= j < post.values@.len() implies post.extra_wf(
        (#[trigger] post.values@[j]).extra,
    ) by {
        if j < pre.values@.len() {
            lemma_extra_wf_grows(pre, post, pre.values@[j].extra);
        }
    }
}

} // verus!
