//! The diagnostic view of a value: a human-readable rendering of its name,
//! identity, predicate flags and a textual stand-in for the value and its
//! type. The view is for diagnosis only and must never serve equality or
//! hashing; its contract says exactly what text comes out, nothing more.

use vstd::prelude::*;
use vstd::string::StringExecFns;

use crate::function::FunctionValue;
use crate::kinds::TypeKind;
use crate::unit::{IrUnit, RawHandle};
use crate::values::Value;

verus! {

/// The decimal digit character for one digit value.
pub open spec fn digit_char(d: int) -> char {
    if d == 0 {
        '0'
    } else if d == 1 {
        '1'
    } else if d == 2 {
        '2'
    } else if d == 3 {
        '3'
    } else if d == 4 {
        '4'
    } else if d == 5 {
        '5'
    } else if d == 6 {
        '6'
    } else if d == 7 {
        '7'
    } else if d == 8 {
        '8'
    } else {
        '9'
    }
}

/// The decimal rendering of a number, most significant digit first.
pub open spec fn dec_digits(n: nat) -> Seq<char>
    decreases n,
{
    if n < 10 {
        seq![digit_char(n as int)]
    } else {
        dec_digits(n / 10).push(digit_char((n % 10) as int))
    }
}

/// The rendering of a truth value.
pub open spec fn bool_label(b: bool) -> Seq<char> {
    if b {
        "true"@
    } else {
        "false"@
    }
}

/// The rendering of a type kind.
pub open spec fn kind_label(k: TypeKind) -> Seq<char> {
    match k {
        TypeKind::Void => "void"@,
        TypeKind::Half => "half"@,
        TypeKind::Float => "float"@,
        TypeKind::Double => "double"@,
        TypeKind::X86Fp80 => "x86_fp80"@,
        TypeKind::Fp128 => "fp128"@,
        TypeKind::PpcFp128 => "ppc_fp128"@,
        TypeKind::Label => "label"@,
        TypeKind::Integer => "integer"@,
        TypeKind::Function => "function"@,
        TypeKind::Struct => "struct"@,
        TypeKind::Array => "array"@,
        TypeKind::Pointer => "pointer"@,
        TypeKind::Vector => "vector"@,
        TypeKind::Metadata => "metadata"@,
        TypeKind::Token => "token"@,
    }
}

/// The textual stand-in for the foreign rendering of a value: its type kind
/// and its name.
pub open spec fn spec_value_text(unit: IrUnit, h: RawHandle) -> Seq<char>
    recommends
        unit.valid(h),
{
    kind_label(unit.kind_of(h)) + " %"@ + unit.name_of(h)
}

/// The diagnostic rendering of a value core.
pub open spec fn spec_describe_value(unit: IrUnit, h: RawHandle) -> Seq<char>
    recommends
        unit.valid(h),
{
    "Value { name: "@ + unit.name_of(h) + ", address: "@ + dec_digits(h.raw as nat)
        + ", is_const: "@ + bool_label(unit.rec(h).flags.constant) + ", is_const_array: "@
        + bool_label(unit.rec(h).flags.const_array) + ", is_const_data_array: "@ + bool_label(
        unit.rec(h).flags.const_data_array,
    ) + ", is_null: "@ + bool_label(unit.rec(h).flags.null) + ", value: "@ + spec_value_text(
        unit,
        h,
    ) + ", type: "@ + kind_label(unit.kind_of(h)) + " }"@
}

/// The diagnostic rendering of a function value.
pub open spec fn spec_describe_function(unit: IrUnit, h: RawHandle) -> Seq<char>
    recommends
        unit.valid(h),
{
    "FunctionValue { name: "@ + unit.name_of(h) + ", address: "@ + dec_digits(h.raw as nat)
        + ", is_const: "@ + bool_label(unit.rec(h).flags.constant) + ", is_null: "@ + bool_label(
        unit.rec(h).flags.null,
    ) + ", value: "@ + spec_value_text(unit, h) + ", type: "@ + kind_label(unit.kind_of(h)) + " }"@
}

/// One decimal digit as text.
fn digit_str(d: usize) -> (r: &'static str)
    requires
        d < 10,
    ensures
        r@ == seq![digit_char(d as int)],
{
    match d {
        0 => {
            proof {
                reveal_strlit("0");
                assert("0"@ =~= seq![digit_char(0)]);
            }
            "0"
        },
        1 => {
            proof {
                reveal_strlit("1");
                assert("1"@ =~= seq![digit_char(1)]);
            }
            "1"
        },
        2 => {
            proof {
                reveal_strlit("2");
                assert("2"@ =~= seq![digit_char(2)]);
            }
            "2"
        },
        3 => {
            proof {
                reveal_strlit("3");
                assert("3"@ =~= seq![digit_char(3)]);
            }
            "3"
        },
        4 => {
            proof {
                reveal_strlit("4");
                assert("4"@ =~= seq![digit_char(4)]);
            }
            "4"
        },
        5 => {
            proof {
                reveal_strlit("5");
                assert("5"@ =~= seq![digit_char(5)]);
            }
            "5"
        },
        6 => {
            proof {
                reveal_strlit("6");
                assert("6"@ =~= seq![digit_char(6)]);
            }
            "6"
        },
        7 => {
            proof {
                reveal_strlit("7");
                assert("7"@ =~= seq![digit_char(7)]);
            }
            "7"
        },
        8 => {
            proof {
                reveal_strlit("8");
                assert("8"@ =~= seq![digit_char(8)]);
            }
            "8"
        },
        _ => {
            proof {
                reveal_strlit("9");
                assert("9"@ =~= seq![digit_char(9)]);
            }
            "9"
        },
    }
}

/// The decimal rendering of a number, most significant digit first.
pub fn dec_string(n: usize) -> (r: String)
    ensures
        r@ == dec_digits(n as nat),
    decreases n,
{
    if n < 10 {
        String::from_str(digit_str(n))
    } else {
        let mut s = dec_string(n / 10);
        s.append(digit_str(n % 10));
        proof {
            assert(s@ =~= dec_digits((n / 10) as nat).push(digit_char((n % 10) as int)));
        }
        s
    }
}

/// The rendering of a truth value.
fn bool_str(b: bool) -> (r: &'static str)
    ensures
        r@ == bool_label(b),
{
    if b {
        "true"
    } else {
        "false"
    }
}

/// The rendering of a type kind.
fn kind_str(k: TypeKind) -> (r: &'static str)
    ensures
        r@ == kind_label(k),
{
    match k {
        TypeKind::Void => "void",
        TypeKind::Half => "half",
        TypeKind::Float => "float",
        TypeKind::Double => "double",
        TypeKind::X86Fp80 => "x86_fp80",
        TypeKind::Fp128 => "fp128",
        TypeKind::PpcFp128 => "ppc_fp128",
        TypeKind::Label => "label",
        TypeKind::Integer => "integer",
        TypeKind::Function => "function",
        TypeKind::Struct => "struct",
        TypeKind::Array => "array",
        TypeKind::Pointer => "pointer",
        TypeKind::Vector => "vector",
        TypeKind::Metadata => "metadata",
        TypeKind::Token => "token",
    }
}

impl Value {
    /// The diagnostic rendering: name, identity, the predicate flags, and the
    /// textual stand-ins for the value and its type.
    pub fn describe(&self, unit: &IrUnit) -> (r: String)
        requires
            self.wf(*unit),
        ensures
            r@ == spec_describe_value(*unit, self.handle),
    {
        let rec = &unit.values[self.handle.raw - 1];
        let name = self.get_name(unit);
        let mut s = String::from_str("Value { name: ");
        s.append(name.as_str());
        s.append(", address: ");
        s.append(dec_string(self.handle.raw).as_str());
        s.append(", is_const: ");
        s.append(bool_str(rec.flags.constant));
        s.append(", is_const_array: ");
        s.append(bool_str(rec.flags.const_array));
        s.append(", is_const_data_array: ");
        s.append(bool_str(rec.flags.const_data_array));
        s.append(", is_null: ");
        s.append(bool_str(rec.flags.null));
        s.append(", value: ");
        s.append(kind_str(rec.kind));
        s.append(" %");
        s.append(name.as_str());
        s.append(", type: ");
        s.append(kind_str(rec.kind));
        s.append(" }");
        proof {
            assert(s@ =~= spec_describe_value(*unit, self.handle));
        }
        s
    }
}

impl FunctionValue {
    /// The diagnostic rendering: name, identity, the constant and null flags,
    /// and the textual stand-ins for the value and its type.
    pub fn describe(&self, unit: &IrUnit) -> (r: String)
        requires
            self.wf(*unit),
        ensures
            r@ == spec_describe_function(*unit, self.fn_value.handle),
    {
        let rec = &unit.values[self.fn_value.handle.raw - 1];
        let name = self.get_name(unit);
        let mut s = String::from_str("FunctionValue { name: ");
        s.append(name.as_str());
        s.append(", address: ");
        s.append(dec_string(self.fn_value.handle.raw).as_str());
        s.append(", is_const: ");
        s.append(bool_str(rec.flags.constant));
        s.append(", is_null: ");
        s.append(bool_str(rec.flags.null));
        s.append(", value: ");
        s.append(kind_str(rec.kind));
        s.append(" %");
        s.append(name.as_str());
        s.append(", type: ");
        s.append(kind_str(rec.kind));
        s.append(" }");
        proof {
            assert(s@ =~= spec_describe_function(*unit, self.fn_value.handle));
        }
        s
    }
}

} // verus!
