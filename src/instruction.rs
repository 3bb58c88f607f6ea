use crate::ir::SymbolRef;
use vstd::prelude::*;

verus! {

/// Architecture-neutral register names: general-purpose `X0`..`X30`, SIMD/FP
/// `V0`..`V31`, and the special registers.
#[derive(Debug, Clone, Copy, PartialEq, Eq, Structural)]
pub enum GenericRegister {
    X0, X1, X2, X3, X4, X5, X6, X7, X8, X9, X10, X11, X12, X13, X14, X15, X16, X17, X18,
    X19, X20, X21, X22, X23, X24, X25, X26, X27, X28, X29, X30, V0, V1, V2, V3, V4, V5,
    V6, V7, V8, V9, V10, V11, V12, V13, V14, V15, V16, V17, V18, V19, V20, V21, V22, V23,
    V24, V25, V26, V27, V28, V29, V30, V31, SP, LR, XZR,
}

/// True for the SIMD/FP registers `V0`..`V31`.
pub open spec fn is_vector_register(g: GenericRegister) -> bool {
    matches!(g,
        GenericRegister::V0 | GenericRegister::V1 | GenericRegister::V2 |
        GenericRegister::V3 | GenericRegister::V4 | GenericRegister::V5 |
        GenericRegister::V6 | GenericRegister::V7 | GenericRegister::V8 |
        GenericRegister::V9 | GenericRegister::V10 | GenericRegister::V11 |
        GenericRegister::V12 | GenericRegister::V13 | GenericRegister::V14 |
        GenericRegister::V15 | GenericRegister::V16 | GenericRegister::V17 |
        GenericRegister::V18 | GenericRegister::V19 | GenericRegister::V20 |
        GenericRegister::V21 | GenericRegister::V22 | GenericRegister::V23 |
        GenericRegister::V24 | GenericRegister::V25 | GenericRegister::V26 |
        GenericRegister::V27 | GenericRegister::V28 | GenericRegister::V29 |
        GenericRegister::V30 | GenericRegister::V31
    )
}

/// The conventional lower-case spelling of each generic register.
pub open spec fn generic_name(g: GenericRegister) -> Seq<char> {
    match g {
        GenericRegister::X0 => "x0"@,
        GenericRegister::X1 => "x1"@,
        GenericRegister::X2 => "x2"@,
        GenericRegister::X3 => "x3"@,
        GenericRegister::X4 => "x4"@,
        GenericRegister::X5 => "x5"@,
        GenericRegister::X6 => "x6"@,
        GenericRegister::X7 => "x7"@,
        GenericRegister::X8 => "x8"@,
        GenericRegister::X9 => "x9"@,
        GenericRegister::X10 => "x10"@,
        GenericRegister::X11 => "x11"@,
        GenericRegister::X12 => "x12"@,
        GenericRegister::X13 => "x13"@,
        GenericRegister::X14 => "x14"@,
        GenericRegister::X15 => "x15"@,
        GenericRegister::X16 => "x16"@,
        GenericRegister::X17 => "x17"@,
        GenericRegister::X18 => "x18"@,
        GenericRegister::X19 => "x19"@,
        GenericRegister::X20 => "x20"@,
        GenericRegister::X21 => "x21"@,
        GenericRegister::X22 => "x22"@,
        GenericRegister::X23 => "x23"@,
        GenericRegister::X24 => "x24"@,
        GenericRegister::X25 => "x25"@,
        GenericRegister::X26 => "x26"@,
        GenericRegister::X27 => "x27"@,
        GenericRegister::X28 => "x28"@,
        GenericRegister::X29 => "x29"@,
        GenericRegister::X30 => "x30"@,
        GenericRegister::V0 => "v0"@,
        GenericRegister::V1 => "v1"@,
        GenericRegister::V2 => "v2"@,
        GenericRegister::V3 => "v3"@,
        GenericRegister::V4 => "v4"@,
        GenericRegister::V5 => "v5"@,
        GenericRegister::V6 => "v6"@,
        GenericRegister::V7 => "v7"@,
        GenericRegister::V8 => "v8"@,
        GenericRegister::V9 => "v9"@,
        GenericRegister::V10 => "v10"@,
        GenericRegister::V11 => "v11"@,
        GenericRegister::V12 => "v12"@,
        GenericRegister::V13 => "v13"@,
        GenericRegister::V14 => "v14"@,
        GenericRegister::V15 => "v15"@,
        GenericRegister::V16 => "v16"@,
        GenericRegister::V17 => "v17"@,
        GenericRegister::V18 => "v18"@,
        GenericRegister::V19 => "v19"@,
        GenericRegister::V20 => "v20"@,
        GenericRegister::V21 => "v21"@,
        GenericRegister::V22 => "v22"@,
        GenericRegister::V23 => "v23"@,
        GenericRegister::V24 => "v24"@,
        GenericRegister::V25 => "v25"@,
        GenericRegister::V26 => "v26"@,
        GenericRegister::V27 => "v27"@,
        GenericRegister::V28 => "v28"@,
        GenericRegister::V29 => "v29"@,
        GenericRegister::V30 => "v30"@,
        GenericRegister::V31 => "v31"@,
        GenericRegister::SP => "sp"@,
        GenericRegister::LR => "lr"@,
        GenericRegister::XZR => "xzr"@,
    }
}

/// The error reported when a register has no counterpart on an architecture.
#[derive(Debug, Clone, Copy, PartialEq, Eq, Structural)]
pub struct UnsupportedRegister;

impl GenericRegister {
    /// Checks that the register may be used as an integer operand on ARM64:
    /// the general-purpose and special registers are accepted, the SIMD/FP
    /// registers are refused.
    pub fn validate_for_arm64(&self) -> (r: Result<(), &'static str>)
        ensures
            r is Ok <==> !is_vector_register(*self),
            r matches Err(m) ==> m@ == "Invalid register for ARM64 architecture"@,
    {
        match self {
            GenericRegister::X0 | GenericRegister::X1 | GenericRegister::X2 |
            GenericRegister::X3 | GenericRegister::X4 | GenericRegister::X5 |
            GenericRegister::X6 | GenericRegister::X7 | GenericRegister::X8 |
            GenericRegister::X9 | GenericRegister::X10 | GenericRegister::X11 |
            GenericRegister::X12 | GenericRegister::X13 | GenericRegister::X14 |
            GenericRegister::X15 | GenericRegister::X16 | GenericRegister::X17 |
            GenericRegister::X18 | GenericRegister::X19 | GenericRegister::X20 |
            GenericRegister::X21 | GenericRegister::X22 | GenericRegister::X23 |
            GenericRegister::X24 | GenericRegister::X25 | GenericRegister::X26 |
            GenericRegister::X27 | GenericRegister::X28 | GenericRegister::X29 |
            GenericRegister::X30 | GenericRegister::SP | GenericRegister::LR |
            GenericRegister::XZR => Ok(()),
            _ => Err("Invalid register for ARM64 architecture"),
        }
    }
}

/// The classification predicates of a concrete register set.
pub trait Register: Sized {
    spec fn spec_is_general_purpose(&self) -> bool;

    spec fn spec_is_floating_point(&self) -> bool;

    spec fn spec_is_special(&self) -> bool;

    fn is_general_purpose(&self) -> (r: bool)
        ensures
            r == self.spec_is_general_purpose(),
    ;

    fn is_floating_point(&self) -> (r: bool)
        ensures
            r == self.spec_is_floating_point(),
    ;

    fn is_special(&self) -> (r: bool)
        ensures
            r == self.spec_is_special(),
    ;
}

/// Lowering of a register name to the concrete register `R` of one architecture.
pub trait RegisterMapping<R>: Sized {
    /// The counterpart on the architecture, if there is one.
    spec fn arch_reg(&self) -> Option<R>;

    fn to_arch_reg(&self) -> (r: Result<R, UnsupportedRegister>)
        ensures
            match self.arch_reg() {
                Some(a) => r == Ok::<R, UnsupportedRegister>(a),
                None => r == Err::<R, UnsupportedRegister>(UnsupportedRegister),
            },
    ;
}

/// An immediate operand: a number, or a symbol with its relocation modifier
/// kept apart from the symbol text.
#[derive(Debug, Clone)]
pub enum Immediate {
    Number(i64),
    Symbol(SymbolRef),
}

/// A second source operand: a register of the architecture, or an immediate.
#[derive(Debug, Clone)]
pub enum Operand<R> {
    Register(R),
    Immediate(Immediate),
}

} // verus!
