use crate::instruction::{
    GenericRegister, Immediate, Operand, Register, RegisterMapping, UnsupportedRegister, generic_name,
};
use crate::ir::{LabelModifier, SymbolRef};
use crate::text::{decimal, push_decimal, push_signed_decimal, signed_decimal};
use vstd::prelude::*;
use vstd::string::*;

verus! {

/// The ARM64 register set.
#[derive(Debug, Clone, Copy, PartialEq, Eq, Structural)]
pub enum Arm64Register {
    X0, X1, X2, X3, X4, X5, X6, X7, X8, X9, X10, X11, X12, X13, X14, X15, X16, X17, X18,
    X19, X20, X21, X22, X23, X24, X25, X26, X27, X28, X29, X30, V0, V1, V2, V3, V4, V5,
    V6, V7, V8, V9, V10, V11, V12, V13, V14, V15, V16, V17, V18, V19, V20, V21, V22, V23,
    V24, V25, V26, V27, V28, V29, V30, V31, SP, LR, XZR,
}

/// The assembler spelling of each ARM64 register.
pub open spec fn arm64_name(r: Arm64Register) -> Seq<char> {
    match r {
        Arm64Register::X0 => "x0"@,
        Arm64Register::X1 => "x1"@,
        Arm64Register::X2 => "x2"@,
        Arm64Register::X3 => "x3"@,
        Arm64Register::X4 => "x4"@,
        Arm64Register::X5 => "x5"@,
        Arm64Register::X6 => "x6"@,
        Arm64Register::X7 => "x7"@,
        Arm64Register::X8 => "x8"@,
        Arm64Register::X9 => "x9"@,
        Arm64Register::X10 => "x10"@,
        Arm64Register::X11 => "x11"@,
        Arm64Register::X12 => "x12"@,
        Arm64Register::X13 => "x13"@,
        Arm64Register::X14 => "x14"@,
        Arm64Register::X15 => "x15"@,
        Arm64Register::X16 => "x16"@,
        Arm64Register::X17 => "x17"@,
        Arm64Register::X18 => "x18"@,
        Arm64Register::X19 => "x19"@,
        Arm64Register::X20 => "x20"@,
        Arm64Register::X21 => "x21"@,
        Arm64Register::X22 => "x22"@,
        Arm64Register::X23 => "x23"@,
        Arm64Register::X24 => "x24"@,
        Arm64Register::X25 => "x25"@,
        Arm64Register::X26 => "x26"@,
        Arm64Register::X27 => "x27"@,
        Arm64Register::X28 => "x28"@,
        Arm64Register::X29 => "x29"@,
        Arm64Register::X30 => "x30"@,
        Arm64Register::V0 => "v0"@,
        Arm64Register::V1 => "v1"@,
        Arm64Register::V2 => "v2"@,
        Arm64Register::V3 => "v3"@,
        Arm64Register::V4 => "v4"@,
        Arm64Register::V5 => "v5"@,
        Arm64Register::V6 => "v6"@,
        Arm64Register::V7 => "v7"@,
        Arm64Register::V8 => "v8"@,
        Arm64Register::V9 => "v9"@,
        Arm64Register::V10 => "v10"@,
        Arm64Register::V11 => "v11"@,
        Arm64Register::V12 => "v12"@,
        Arm64Register::V13 => "v13"@,
        Arm64Register::V14 => "v14"@,
        Arm64Register::V15 => "v15"@,
        Arm64Register::V16 => "v16"@,
        Arm64Register::V17 => "v17"@,
        Arm64Register::V18 => "v18"@,
        Arm64Register::V19 => "v19"@,
        Arm64Register::V20 => "v20"@,
        Arm64Register::V21 => "v21"@,
        Arm64Register::V22 => "v22"@,
        Arm64Register::V23 => "v23"@,
        Arm64Register::V24 => "v24"@,
        Arm64Register::V25 => "v25"@,
        Arm64Register::V26 => "v26"@,
        Arm64Register::V27 => "v27"@,
        Arm64Register::V28 => "v28"@,
        Arm64Register::V29 => "v29"@,
        Arm64Register::V30 => "v30"@,
        Arm64Register::V31 => "v31"@,
        Arm64Register::SP => "sp"@,
        Arm64Register::LR => "lr"@,
        Arm64Register::XZR => "xzr"@,
    }
}

/// The ARM64 counterpart of each generic register.
pub open spec fn arm64_of(g: GenericRegister) -> Arm64Register {
    match g {
        GenericRegister::X0 => Arm64Register::X0,
        GenericRegister::X1 => Arm64Register::X1,
        GenericRegister::X2 => Arm64Register::X2,
        GenericRegister::X3 => Arm64Register::X3,
        GenericRegister::X4 => Arm64Register::X4,
        GenericRegister::X5 => Arm64Register::X5,
        GenericRegister::X6 => Arm64Register::X6,
        GenericRegister::X7 => Arm64Register::X7,
        GenericRegister::X8 => Arm64Register::X8,
        GenericRegister::X9 => Arm64Register::X9,
        GenericRegister::X10 => Arm64Register::X10,
        GenericRegister::X11 => Arm64Register::X11,
        GenericRegister::X12 => Arm64Register::X12,
        GenericRegister::X13 => Arm64Register::X13,
        GenericRegister::X14 => Arm64Register::X14,
        GenericRegister::X15 => Arm64Register::X15,
        GenericRegister::X16 => Arm64Register::X16,
        GenericRegister::X17 => Arm64Register::X17,
        GenericRegister::X18 => Arm64Register::X18,
        GenericRegister::X19 => Arm64Register::X19,
        GenericRegister::X20 => Arm64Register::X20,
        GenericRegister::X21 => Arm64Register::X21,
        GenericRegister::X22 => Arm64Register::X22,
        GenericRegister::X23 => Arm64Register::X23,
        GenericRegister::X24 => Arm64Register::X24,
        GenericRegister::X25 => Arm64Register::X25,
        GenericRegister::X26 => Arm64Register::X26,
        GenericRegister::X27 => Arm64Register::X27,
        GenericRegister::X28 => Arm64Register::X28,
        GenericRegister::X29 => Arm64Register::X29,
        GenericRegister::X30 => Arm64Register::X30,
        GenericRegister::V0 => Arm64Register::V0,
        GenericRegister::V1 => Arm64Register::V1,
        GenericRegister::V2 => Arm64Register::V2,
        GenericRegister::V3 => Arm64Register::V3,
        GenericRegister::V4 => Arm64Register::V4,
        GenericRegister::V5 => Arm64Register::V5,
        GenericRegister::V6 => Arm64Register::V6,
        GenericRegister::V7 => Arm64Register::V7,
        GenericRegister::V8 => Arm64Register::V8,
        GenericRegister::V9 => Arm64Register::V9,
        GenericRegister::V10 => Arm64Register::V10,
        GenericRegister::V11 => Arm64Register::V11,
        GenericRegister::V12 => Arm64Register::V12,
        GenericRegister::V13 => Arm64Register::V13,
        GenericRegister::V14 => Arm64Register::V14,
        GenericRegister::V15 => Arm64Register::V15,
        GenericRegister::V16 => Arm64Register::V16,
        GenericRegister::V17 => Arm64Register::V17,
        GenericRegister::V18 => Arm64Register::V18,
        GenericRegister::V19 => Arm64Register::V19,
        GenericRegister::V20 => Arm64Register::V20,
        GenericRegister::V21 => Arm64Register::V21,
        GenericRegister::V22 => Arm64Register::V22,
        GenericRegister::V23 => Arm64Register::V23,
        GenericRegister::V24 => Arm64Register::V24,
        GenericRegister::V25 => Arm64Register::V25,
        GenericRegister::V26 => Arm64Register::V26,
        GenericRegister::V27 => Arm64Register::V27,
        GenericRegister::V28 => Arm64Register::V28,
        GenericRegister::V29 => Arm64Register::V29,
        GenericRegister::V30 => Arm64Register::V30,
        GenericRegister::V31 => Arm64Register::V31,
        GenericRegister::SP => Arm64Register::SP,
        GenericRegister::LR => Arm64Register::LR,
        GenericRegister::XZR => Arm64Register::XZR,
    }
}

/// The generic register that an ARM64 register stands for.
pub open spec fn generic_of(r: Arm64Register) -> GenericRegister {
    match r {
        Arm64Register::X0 => GenericRegister::X0,
        Arm64Register::X1 => GenericRegister::X1,
        Arm64Register::X2 => GenericRegister::X2,
        Arm64Register::X3 => GenericRegister::X3,
        Arm64Register::X4 => GenericRegister::X4,
        Arm64Register::X5 => GenericRegister::X5,
        Arm64Register::X6 => GenericRegister::X6,
        Arm64Register::X7 => GenericRegister::X7,
        Arm64Register::X8 => GenericRegister::X8,
        Arm64Register::X9 => GenericRegister::X9,
        Arm64Register::X10 => GenericRegister::X10,
        Arm64Register::X11 => GenericRegister::X11,
        Arm64Register::X12 => GenericRegister::X12,
        Arm64Register::X13 => GenericRegister::X13,
        Arm64Register::X14 => GenericRegister::X14,
        Arm64Register::X15 => GenericRegister::X15,
        Arm64Register::X16 => GenericRegister::X16,
        Arm64Register::X17 => GenericRegister::X17,
        Arm64Register::X18 => GenericRegister::X18,
        Arm64Register::X19 => GenericRegister::X19,
        Arm64Register::X20 => GenericRegister::X20,
        Arm64Register::X21 => GenericRegister::X21,
        Arm64Register::X22 => GenericRegister::X22,
        Arm64Register::X23 => GenericRegister::X23,
        Arm64Register::X24 => GenericRegister::X24,
        Arm64Register::X25 => GenericRegister::X25,
        Arm64Register::X26 => GenericRegister::X26,
        Arm64Register::X27 => GenericRegister::X27,
        Arm64Register::X28 => GenericRegister::X28,
        Arm64Register::X29 => GenericRegister::X29,
        Arm64Register::X30 => GenericRegister::X30,
        Arm64Register::V0 => GenericRegister::V0,
        Arm64Register::V1 => GenericRegister::V1,
        Arm64Register::V2 => GenericRegister::V2,
        Arm64Register::V3 => GenericRegister::V3,
        Arm64Register::V4 => GenericRegister::V4,
        Arm64Register::V5 => GenericRegister::V5,
        Arm64Register::V6 => GenericRegister::V6,
        Arm64Register::V7 => GenericRegister::V7,
        Arm64Register::V8 => GenericRegister::V8,
        Arm64Register::V9 => GenericRegister::V9,
        Arm64Register::V10 => GenericRegister::V10,
        Arm64Register::V11 => GenericRegister::V11,
        Arm64Register::V12 => GenericRegister::V12,
        Arm64Register::V13 => GenericRegister::V13,
        Arm64Register::V14 => GenericRegister::V14,
        Arm64Register::V15 => GenericRegister::V15,
        Arm64Register::V16 => GenericRegister::V16,
        Arm64Register::V17 => GenericRegister::V17,
        Arm64Register::V18 => GenericRegister::V18,
        Arm64Register::V19 => GenericRegister::V19,
        Arm64Register::V20 => GenericRegister::V20,
        Arm64Register::V21 => GenericRegister::V21,
        Arm64Register::V22 => GenericRegister::V22,
        Arm64Register::V23 => GenericRegister::V23,
        Arm64Register::V24 => GenericRegister::V24,
        Arm64Register::V25 => GenericRegister::V25,
        Arm64Register::V26 => GenericRegister::V26,
        Arm64Register::V27 => GenericRegister::V27,
        Arm64Register::V28 => GenericRegister::V28,
        Arm64Register::V29 => GenericRegister::V29,
        Arm64Register::V30 => GenericRegister::V30,
        Arm64Register::V31 => GenericRegister::V31,
        Arm64Register::SP => GenericRegister::SP,
        Arm64Register::LR => GenericRegister::LR,
        Arm64Register::XZR => GenericRegister::XZR,
    }
}

impl Arm64Register {
    /// The register's assembler spelling.
    pub fn name(&self) -> (r: &'static str)
        ensures
            r@ == arm64_name(*self),
    {
        match self {
            Arm64Register::X0 => "x0",
            Arm64Register::X1 => "x1",
            Arm64Register::X2 => "x2",
            Arm64Register::X3 => "x3",
            Arm64Register::X4 => "x4",
            Arm64Register::X5 => "x5",
            Arm64Register::X6 => "x6",
            Arm64Register::X7 => "x7",
            Arm64Register::X8 => "x8",
            Arm64Register::X9 => "x9",
            Arm64Register::X10 => "x10",
            Arm64Register::X11 => "x11",
            Arm64Register::X12 => "x12",
            Arm64Register::X13 => "x13",
            Arm64Register::X14 => "x14",
            Arm64Register::X15 => "x15",
            Arm64Register::X16 => "x16",
            Arm64Register::X17 => "x17",
            Arm64Register::X18 => "x18",
            Arm64Register::X19 => "x19",
            Arm64Register::X20 => "x20",
            Arm64Register::X21 => "x21",
            Arm64Register::X22 => "x22",
            Arm64Register::X23 => "x23",
            Arm64Register::X24 => "x24",
            Arm64Register::X25 => "x25",
            Arm64Register::X26 => "x26",
            Arm64Register::X27 => "x27",
            Arm64Register::X28 => "x28",
            Arm64Register::X29 => "x29",
            Arm64Register::X30 => "x30",
            Arm64Register::V0 => "v0",
            Arm64Register::V1 => "v1",
            Arm64Register::V2 => "v2",
            Arm64Register::V3 => "v3",
            Arm64Register::V4 => "v4",
            Arm64Register::V5 => "v5",
            Arm64Register::V6 => "v6",
            Arm64Register::V7 => "v7",
            Arm64Register::V8 => "v8",
            Arm64Register::V9 => "v9",
            Arm64Register::V10 => "v10",
            Arm64Register::V11 => "v11",
            Arm64Register::V12 => "v12",
            Arm64Register::V13 => "v13",
            Arm64Register::V14 => "v14",
            Arm64Register::V15 => "v15",
            Arm64Register::V16 => "v16",
            Arm64Register::V17 => "v17",
            Arm64Register::V18 => "v18",
            Arm64Register::V19 => "v19",
            Arm64Register::V20 => "v20",
            Arm64Register::V21 => "v21",
            Arm64Register::V22 => "v22",
            Arm64Register::V23 => "v23",
            Arm64Register::V24 => "v24",
            Arm64Register::V25 => "v25",
            Arm64Register::V26 => "v26",
            Arm64Register::V27 => "v27",
            Arm64Register::V28 => "v28",
            Arm64Register::V29 => "v29",
            Arm64Register::V30 => "v30",
            Arm64Register::V31 => "v31",
            Arm64Register::SP => "sp",
            Arm64Register::LR => "lr",
            Arm64Register::XZR => "xzr",
        }
    }

    /// The register's assembler spelling, as an owned string.
    pub fn to_string(&self) -> (r: String)
        ensures
            r@ == arm64_name(*self),
    {
        String::from_str(self.name())
    }
}

impl Register for Arm64Register {
    /// `X0`..`X15`.
    open spec fn spec_is_general_purpose(&self) -> bool {
        matches!(*self,
            Arm64Register::X0 | Arm64Register::X1 | Arm64Register::X2 | Arm64Register::X3 |
            Arm64Register::X4 | Arm64Register::X5 | Arm64Register::X6 | Arm64Register::X7 |
            Arm64Register::X8 | Arm64Register::X9 | Arm64Register::X10 |
            Arm64Register::X11 | Arm64Register::X12 | Arm64Register::X13 |
            Arm64Register::X14 | Arm64Register::X15
        )
    }

    /// `V0`..`V7`.
    open spec fn spec_is_floating_point(&self) -> bool {
        matches!(*self,
            Arm64Register::V0 | Arm64Register::V1 | Arm64Register::V2 | Arm64Register::V3 |
            Arm64Register::V4 | Arm64Register::V5 | Arm64Register::V6 | Arm64Register::V7
        )
    }

    open spec fn spec_is_special(&self) -> bool {
        matches!(*self, Arm64Register::SP | Arm64Register::LR | Arm64Register::XZR)
    }

    fn is_general_purpose(&self) -> (r: bool) {
        match self {
            Arm64Register::X0 | Arm64Register::X1 | Arm64Register::X2 | Arm64Register::X3 |
            Arm64Register::X4 | Arm64Register::X5 | Arm64Register::X6 | Arm64Register::X7 |
            Arm64Register::X8 | Arm64Register::X9 | Arm64Register::X10 |
            Arm64Register::X11 | Arm64Register::X12 | Arm64Register::X13 |
            Arm64Register::X14 | Arm64Register::X15 => true,
            _ => false,
        }
    }

    fn is_floating_point(&self) -> (r: bool) {
        match self {
            Arm64Register::V0 | Arm64Register::V1 | Arm64Register::V2 | Arm64Register::V3 |
            Arm64Register::V4 | Arm64Register::V5 | Arm64Register::V6 | Arm64Register::V7 => true,
            _ => false,
        }
    }

    fn is_special(&self) -> (r: bool) {
        match self {
            Arm64Register::SP | Arm64Register::LR | Arm64Register::XZR => true,
            _ => false,
        }
    }
}

impl From<GenericRegister> for Arm64Register {
    fn from(reg: GenericRegister) -> Self {
        match reg {
            GenericRegister::X0 => Arm64Register::X0,
            GenericRegister::X1 => Arm64Register::X1,
            GenericRegister::X2 => Arm64Register::X2,
            GenericRegister::X3 => Arm64Register::X3,
            GenericRegister::X4 => Arm64Register::X4,
            GenericRegister::X5 => Arm64Register::X5,
            GenericRegister::X6 => Arm64Register::X6,
            GenericRegister::X7 => Arm64Register::X7,
            GenericRegister::X8 => Arm64Register::X8,
            GenericRegister::X9 => Arm64Register::X9,
            GenericRegister::X10 => Arm64Register::X10,
            GenericRegister::X11 => Arm64Register::X11,
            GenericRegister::X12 => Arm64Register::X12,
            GenericRegister::X13 => Arm64Register::X13,
            GenericRegister::X14 => Arm64Register::X14,
            GenericRegister::X15 => Arm64Register::X15,
            GenericRegister::X16 => Arm64Register::X16,
            GenericRegister::X17 => Arm64Register::X17,
            GenericRegister::X18 => Arm64Register::X18,
            GenericRegister::X19 => Arm64Register::X19,
            GenericRegister::X20 => Arm64Register::X20,
            GenericRegister::X21 => Arm64Register::X21,
            GenericRegister::X22 => Arm64Register::X22,
            GenericRegister::X23 => Arm64Register::X23,
            GenericRegister::X24 => Arm64Register::X24,
            GenericRegister::X25 => Arm64Register::X25,
            GenericRegister::X26 => Arm64Register::X26,
            GenericRegister::X27 => Arm64Register::X27,
            GenericRegister::X28 => Arm64Register::X28,
            GenericRegister::X29 => Arm64Register::X29,
            GenericRegister::X30 => Arm64Register::X30,
            GenericRegister::V0 => Arm64Register::V0,
            GenericRegister::V1 => Arm64Register::V1,
            GenericRegister::V2 => Arm64Register::V2,
            GenericRegister::V3 => Arm64Register::V3,
            GenericRegister::V4 => Arm64Register::V4,
            GenericRegister::V5 => Arm64Register::V5,
            GenericRegister::V6 => Arm64Register::V6,
            GenericRegister::V7 => Arm64Register::V7,
            GenericRegister::V8 => Arm64Register::V8,
            GenericRegister::V9 => Arm64Register::V9,
            GenericRegister::V10 => Arm64Register::V10,
            GenericRegister::V11 => Arm64Register::V11,
            GenericRegister::V12 => Arm64Register::V12,
            GenericRegister::V13 => Arm64Register::V13,
            GenericRegister::V14 => Arm64Register::V14,
            GenericRegister::V15 => Arm64Register::V15,
            GenericRegister::V16 => Arm64Register::V16,
            GenericRegister::V17 => Arm64Register::V17,
            GenericRegister::V18 => Arm64Register::V18,
            GenericRegister::V19 => Arm64Register::V19,
            GenericRegister::V20 => Arm64Register::V20,
            GenericRegister::V21 => Arm64Register::V21,
            GenericRegister::V22 => Arm64Register::V22,
            GenericRegister::V23 => Arm64Register::V23,
            GenericRegister::V24 => Arm64Register::V24,
            GenericRegister::V25 => Arm64Register::V25,
            GenericRegister::V26 => Arm64Register::V26,
            GenericRegister::V27 => Arm64Register::V27,
            GenericRegister::V28 => Arm64Register::V28,
            GenericRegister::V29 => Arm64Register::V29,
            GenericRegister::V30 => Arm64Register::V30,
            GenericRegister::V31 => Arm64Register::V31,
            GenericRegister::SP => Arm64Register::SP,
            GenericRegister::LR => Arm64Register::LR,
            GenericRegister::XZR => Arm64Register::XZR,
        }
    }
}

impl vstd::std_specs::convert::FromSpecImpl<GenericRegister> for Arm64Register {
    open spec fn obeys_from_spec() -> bool {
        true
    }

    open spec fn from_spec(v: GenericRegister) -> Self {
        arm64_of(v)
    }
}

impl RegisterMapping<Arm64Register> for GenericRegister {
    /// Every generic register has an ARM64 counterpart.
    open spec fn arch_reg(&self) -> Option<Arm64Register> {
        Some(arm64_of(*self))
    }

    fn to_arch_reg(&self) -> (r: Result<Arm64Register, UnsupportedRegister>) {
        Ok(Arm64Register::from(*self))
    }
}

/// Lowering to ARM64 never fails, keeps the register's spelling, and is
/// one-to-one: distinct generic registers give distinct ARM64 registers.
pub proof fn lemma_arm64_mapping_total(g: GenericRegister, h: GenericRegister)
    ensures
        RegisterMapping::<Arm64Register>::arch_reg(&g) == Some(arm64_of(g)),
        arm64_name(arm64_of(g)) == generic_name(g),
        generic_of(arm64_of(g)) == g,
        arm64_of(g) == arm64_of(h) ==> g == h,
{
    assert(generic_of(arm64_of(g)) == g);
    assert(generic_of(arm64_of(h)) == h);
}

/// An ARM64 instruction, by operation family.
#[derive(Debug, Clone)]
pub enum Instruction {
    Arithmetic(ArithmeticOp),
    Branch(BranchOp),
    LoadStore(LoadStoreOp),
    System(SystemOp),
    Address(AddressOp),
}

#[derive(Debug, Clone)]
pub enum ArithmeticOp {
    Add { dst: Arm64Register, src1: Arm64Register, src2: Arm64Register },
    AddImm { dst: Arm64Register, src1: Arm64Register, imm: Immediate },
    Fadd { dst: Arm64Register, src1: Arm64Register, src2: Arm64Register },
    Sub { dst: Arm64Register, src1: Arm64Register, src2: Arm64Register },
    Mul { dst: Arm64Register, src1: Arm64Register, src2: Arm64Register },
}

#[derive(Debug, Clone)]
pub enum BranchOp {
    Bl { label: String },
    B { label: String },
    Ret,
    Cbz { reg: Arm64Register, label: String },
}

#[derive(Debug, Clone)]
#[allow(inconsistent_fields)]
pub enum LoadStoreOp {
    Ldr { dst: Arm64Register, src: String },
    Str { src: Arm64Register, dst: String },
}

#[derive(Debug, Clone)]
pub enum SystemOp {
    Svc { number: u32 },
    Msr { dst: String, src: Arm64Register },
}

#[derive(Debug, Clone)]
pub enum AddressOp {
    /// The page of `label` into `dst`.
    Adrp { dst: Arm64Register, label: String },
    /// The page of `label` into `base`, then `base` plus the page offset into `dst`.
    AdrpAdd { dst: Arm64Register, base: Arm64Register, label: String },
}

/// A symbol operand with its relocation modifier spelled out.
pub open spec fn symbol_text(s: SymbolRef) -> Seq<char> {
    match s.modifier {
        None => s.name@,
        Some(LabelModifier::Page) => s.name@ + "@PAGE"@,
        Some(LabelModifier::PageOff) => s.name@ + "@PAGEOFF"@,
        Some(LabelModifier::Lo12) => ":lo12:"@ + s.name@,
        Some(LabelModifier::Hi20) => ":hi20:"@ + s.name@,
    }
}

/// An immediate operand: `#` and the number, or the symbol.
pub open spec fn immediate_text(i: Immediate) -> Seq<char> {
    match i {
        Immediate::Number(v) => "#"@ + signed_decimal(v as int),
        Immediate::Symbol(s) => symbol_text(s),
    }
}

/// A mnemonic (with its trailing space) and three register operands.
pub open spec fn three_regs(m: Seq<char>, a: Arm64Register, b: Arm64Register, c: Arm64Register) -> Seq<char> {
    m + arm64_name(a) + ", "@ + arm64_name(b) + ", "@ + arm64_name(c)
}

pub open spec fn arithmetic_text(a: ArithmeticOp) -> Seq<char> {
    match a {
        ArithmeticOp::Add { dst, src1, src2 } => three_regs("add "@, dst, src1, src2),
        ArithmeticOp::AddImm { dst, src1, imm } => "add "@ + arm64_name(dst) + ", "@ + arm64_name(src1)
            + ", "@ + immediate_text(imm),
        ArithmeticOp::Fadd { dst, src1, src2 } => three_regs("fadd "@, dst, src1, src2),
        ArithmeticOp::Sub { dst, src1, src2 } => three_regs("sub "@, dst, src1, src2),
        ArithmeticOp::Mul { dst, src1, src2 } => three_regs("mul "@, dst, src1, src2),
    }
}

pub open spec fn branch_text(b: BranchOp) -> Seq<char> {
    match b {
        BranchOp::Bl { label } => "bl "@ + label@,
        BranchOp::B { label } => "b "@ + label@,
        BranchOp::Ret => "ret"@,
        BranchOp::Cbz { reg, label } => "cbz "@ + arm64_name(reg) + ", "@ + label@,
    }
}

pub open spec fn load_store_text(l: LoadStoreOp) -> Seq<char> {
    match l {
        LoadStoreOp::Ldr { dst, src } => "ldr "@ + arm64_name(dst) + ", "@ + src@,
        LoadStoreOp::Str { src, dst } => "str "@ + arm64_name(src) + ", "@ + dst@,
    }
}

pub open spec fn system_text(s: SystemOp) -> Seq<char> {
    match s {
        SystemOp::Svc { number } => "svc #"@ + decimal(number as nat),
        SystemOp::Msr { dst, src } => "msr "@ + dst@ + ", "@ + arm64_name(src),
    }
}

/// `adrp_add` takes two lines: the page into `base`, then the page offset.
pub open spec fn address_text(a: AddressOp) -> Seq<char> {
    match a {
        AddressOp::Adrp { dst, label } => "adrp "@ + arm64_name(dst) + ", "@ + label@ + "@PAGE"@,
        AddressOp::AdrpAdd { dst, base, label } => "adrp "@ + arm64_name(base) + ", "@ + label@
            + "@PAGE"@ + "\n    add "@ + arm64_name(dst) + ", "@ + arm64_name(base) + ", "@ + label@
            + "@PAGEOFF"@,
    }
}

/// The assembler text of one instruction: mnemonic first, then the operands
/// separated by commas.
pub open spec fn instruction_text(i: Instruction) -> Seq<char> {
    match i {
        Instruction::Arithmetic(a) => arithmetic_text(a),
        Instruction::Branch(b) => branch_text(b),
        Instruction::LoadStore(l) => load_store_text(l),
        Instruction::System(s) => system_text(s),
        Instruction::Address(a) => address_text(a),
    }
}

fn push_reg(out: &mut String, r: Arm64Register)
    ensures
        final(out)@ == old(out)@ + arm64_name(r),
{
    out.append(r.name());
}

/// Appends a symbol operand, spelling its modifier.
pub fn push_symbol(out: &mut String, s: &SymbolRef)
    ensures
        final(out)@ == old(out)@ + symbol_text(*s),
{
    match s.modifier {
        None => {
            out.append(s.name.as_str());
        },
        Some(LabelModifier::Page) => {
            out.append(s.name.as_str());
            out.append("@PAGE");
        },
        Some(LabelModifier::PageOff) => {
            out.append(s.name.as_str());
            out.append("@PAGEOFF");
        },
        Some(LabelModifier::Lo12) => {
            out.append(":lo12:");
            out.append(s.name.as_str());
        },
        Some(LabelModifier::Hi20) => {
            out.append(":hi20:");
            out.append(s.name.as_str());
        },
    }
    assert(out@ =~= old(out)@ + symbol_text(*s));
}

fn push_immediate(out: &mut String, i: &Immediate)
    ensures
        final(out)@ == old(out)@ + immediate_text(*i),
{
    match i {
        Immediate::Number(v) => {
            out.append("#");
            push_signed_decimal(out, *v);
        },
        Immediate::Symbol(s) => {
            push_symbol(out, s);
        },
    }
    assert(out@ =~= old(out)@ + immediate_text(*i));
}

fn push_three(out: &mut String, m: &str, a: Arm64Register, b: Arm64Register, c: Arm64Register)
    ensures
        final(out)@ == old(out)@ + three_regs(m@, a, b, c),
{
    out.append(m);
    push_reg(out, a);
    out.append(", ");
    push_reg(out, b);
    out.append(", ");
    push_reg(out, c);
    assert(out@ =~= old(out)@ + three_regs(m@, a, b, c));
}

fn push_arithmetic(out: &mut String, a: &ArithmeticOp)
    ensures
        final(out)@ == old(out)@ + arithmetic_text(*a),
{
    match a {
        ArithmeticOp::Add { dst, src1, src2 } => push_three(out, "add ", *dst, *src1, *src2),
        ArithmeticOp::AddImm { dst, src1, imm } => {
            out.append("add ");
            push_reg(out, *dst);
            out.append(", ");
            push_reg(out, *src1);
            out.append(", ");
            push_immediate(out, imm);
        },
        ArithmeticOp::Fadd { dst, src1, src2 } => push_three(out, "fadd ", *dst, *src1, *src2),
        ArithmeticOp::Sub { dst, src1, src2 } => push_three(out, "sub ", *dst, *src1, *src2),
        ArithmeticOp::Mul { dst, src1, src2 } => push_three(out, "mul ", *dst, *src1, *src2),
    }
    assert(out@ =~= old(out)@ + arithmetic_text(*a));
}

fn push_branch(out: &mut String, b: &BranchOp)
    ensures
        final(out)@ == old(out)@ + branch_text(*b),
{
    match b {
        BranchOp::Bl { label } => {
            out.append("bl ");
            out.append(label.as_str());
        },
        BranchOp::B { label } => {
            out.append("b ");
            out.append(label.as_str());
        },
        BranchOp::Ret => {
            out.append("ret");
        },
        BranchOp::Cbz { reg, label } => {
            out.append("cbz ");
            push_reg(out, *reg);
            out.append(", ");
            out.append(label.as_str());
        },
    }
    assert(out@ =~= old(out)@ + branch_text(*b));
}

fn push_load_store(out: &mut String, l: &LoadStoreOp)
    ensures
        final(out)@ == old(out)@ + load_store_text(*l),
{
    match l {
        LoadStoreOp::Ldr { dst, src } => {
            out.append("ldr ");
            push_reg(out, *dst);
            out.append(", ");
            out.append(src.as_str());
        },
        LoadStoreOp::Str { src, dst } => {
            out.append("str ");
            push_reg(out, *src);
            out.append(", ");
            out.append(dst.as_str());
        },
    }
    assert(out@ =~= old(out)@ + load_store_text(*l));
}

fn push_system(out: &mut String, s: &SystemOp)
    ensures
        final(out)@ == old(out)@ + system_text(*s),
{
    match s {
        SystemOp::Svc { number } => {
            out.append("svc #");
            push_decimal(out, *number as u64);
        },
        SystemOp::Msr { dst, src } => {
            out.append("msr ");
            out.append(dst.as_str());
            out.append(", ");
            push_reg(out, *src);
        },
    }
    assert(out@ =~= old(out)@ + system_text(*s));
}

fn push_address(out: &mut String, a: &AddressOp)
    ensures
        final(out)@ == old(out)@ + address_text(*a),
{
    match a {
        AddressOp::Adrp { dst, label } => {
            out.append("adrp ");
            push_reg(out, *dst);
            out.append(", ");
            out.append(label.as_str());
            out.append("@PAGE");
        },
        AddressOp::AdrpAdd { dst, base, label } => {
            out.append("adrp ");
            push_reg(out, *base);
            out.append(", ");
            out.append(label.as_str());
            out.append("@PAGE");
            out.append("\n    add ");
            push_reg(out, *dst);
            out.append(", ");
            push_reg(out, *base);
            out.append(", ");
            out.append(label.as_str());
            out.append("@PAGEOFF");
        },
    }
    assert(out@ =~= old(out)@ + address_text(*a));
}

/// Appends the assembler text of one instruction.
pub fn push_instruction(out: &mut String, ins: &Instruction)
    ensures
        final(out)@ == old(out)@ + instruction_text(*ins),
{
    match ins {
        Instruction::Arithmetic(a) => push_arithmetic(out, a),
        Instruction::Branch(b) => push_branch(out, b),
        Instruction::LoadStore(l) => push_load_store(out, l),
        Instruction::System(s) => push_system(out, s),
        Instruction::Address(a) => push_address(out, a),
    }
}

/// The view of an optional comment.
pub open spec fn opt_text(c: Option<String>) -> Option<Seq<char>> {
    match c {
        Some(t) => Some(t@),
        None => None,
    }
}

/// ` // ` and the comment, when there is one.
pub open spec fn comment_suffix(c: Option<Seq<char>>) -> Seq<char> {
    match c {
        Some(t) => " // "@ + t,
        None => Seq::empty(),
    }
}

/// One indented instruction line, with its comment.
pub open spec fn line_text(i: Instruction, c: Option<Seq<char>>) -> Seq<char> {
    "    "@ + instruction_text(i) + comment_suffix(c) + "\n"@
}

/// The rendered lines of an instruction stream, one per instruction, in order.
pub open spec fn stream_lines(is: Seq<Instruction>, cs: Seq<Option<Seq<char>>>) -> Seq<Seq<char>> {
    Seq::new(is.len(), |k: int| line_text(is[k], cs[k]))
}

/// The rendered text of an instruction stream.
pub open spec fn stream_text(is: Seq<Instruction>, cs: Seq<Option<Seq<char>>>) -> Seq<char> {
    stream_lines(is, cs).flatten()
}

/// Appending one instruction to a stream appends exactly its line to the
/// rendered lines; the lines before it are unchanged.
pub proof fn lemma_stream_push(
    is: Seq<Instruction>,
    cs: Seq<Option<Seq<char>>>,
    i: Instruction,
    c: Option<Seq<char>>,
)
    requires
        is.len() == cs.len(),
    ensures
        stream_lines(is.push(i), cs.push(c)) == stream_lines(is, cs).push(line_text(i, c)),
        stream_text(is.push(i), cs.push(c)) == stream_text(is, cs) + line_text(i, c),
{
    assert(stream_lines(is.push(i), cs.push(c)) =~= stream_lines(is, cs).push(line_text(i, c)));
    stream_lines(is, cs).lemma_flatten_push(line_text(i, c));
}

/// An ARM64 instruction stream, in program order, each instruction with an
/// optional comment.
pub struct ARM64 {
    instructions: Vec<Instruction>,
    comments: Vec<Option<String>>,
}

impl ARM64 {
    /// The instructions, in program order.
    pub closed spec fn instrs(&self) -> Seq<Instruction> {
        self.instructions@
    }

    /// The comment of each instruction.
    pub closed spec fn notes(&self) -> Seq<Option<Seq<char>>> {
        self.comments@.map_values(|c: Option<String>| opt_text(c))
    }

    /// Each instruction has exactly one comment slot.
    pub open spec fn wf(&self) -> bool {
        self.instrs().len() == self.notes().len()
    }

    /// An empty stream.
    pub fn new() -> (r: Self)
        ensures
            r.wf(),
            r.instrs() == Seq::<Instruction>::empty(),
            r.notes() == Seq::<Option<Seq<char>>>::empty(),
    {
        let r = Self { instructions: Vec::new(), comments: Vec::new() };
        assert(r.notes() =~= Seq::<Option<Seq<char>>>::empty());
        r
    }

    /// The instructions, in program order.
    pub fn get_instructions(&self) -> (r: &[Instruction])
        ensures
            r@ == self.instrs(),
    {
        self.instructions.as_slice()
    }

    /// The comment of each instruction.
    pub fn get_comments(&self) -> (r: &[Option<String>])
        ensures
            r@.len() == self.notes().len(),
            forall|k: int| 0 <= k < r@.len() ==> opt_text(#[trigger] r@[k]) == self.notes()[k],
    {
        self.comments.as_slice()
    }

    /// Appends one instruction, without a comment.
    pub fn push(&mut self, ins: Instruction)
        requires
            old(self).wf(),
        ensures
            final(self).wf(),
            final(self).instrs() == old(self).instrs().push(ins),
            final(self).notes() == old(self).notes().push(None),
    {
        self.instructions.push(ins);
        self.comments.push(None);
        assert(self.comments@.map_values(|c: Option<String>| opt_text(c)) =~= old(self).comments@.map_values(
            |c: Option<String>| opt_text(c),
        ).push(None));
    }

    /// Sets the comment of the last instruction.
    pub fn comment_last(&mut self, comment: Option<String>)
        requires
            old(self).wf(),
            old(self).instrs().len() > 0,
        ensures
            final(self).wf(),
            final(self).instrs() == old(self).instrs(),
            final(self).notes() == old(self).notes().update(
                old(self).notes().len() - 1,
                opt_text(comment),
            ),
    {
        let ghost c = opt_text(comment);
        let last = self.comments.len() - 1;
        self.comments.set(last, comment);
        assert(self.comments@.map_values(|c: Option<String>| opt_text(c)) =~= old(self).comments@.map_values(
            |c: Option<String>| opt_text(c),
        ).update(last as int, c));
    }

    /// Appends `add`: with a register second source, the three-register form;
    /// with an immediate, the immediate form.
    pub fn add(&mut self, dst: Arm64Register, src1: Arm64Register, src2: Operand<Arm64Register>)
        requires
            old(self).wf(),
        ensures
            final(self).wf(),
            final(self).instrs() == old(self).instrs().push(
                match src2 {
                    Operand::Register(reg) => Instruction::Arithmetic(ArithmeticOp::Add { dst, src1, src2: reg }),
                    Operand::Immediate(imm) => Instruction::Arithmetic(ArithmeticOp::AddImm { dst, src1, imm }),
                },
            ),
            final(self).notes() == old(self).notes().push(None),
    {
        match src2 {
            Operand::Register(reg) => {
                self.push(Instruction::Arithmetic(ArithmeticOp::Add { dst, src1, src2: reg }));
            },
            Operand::Immediate(imm) => {
                self.push(Instruction::Arithmetic(ArithmeticOp::AddImm { dst, src1, imm }));
            },
        }
    }

    /// Appends `sub dst, src1, src2`.
    pub fn sub(&mut self, dst: Arm64Register, src1: Arm64Register, src2: Arm64Register)
        requires
            old(self).wf(),
        ensures
            final(self).wf(),
            final(self).instrs() == old(self).instrs().push(
                Instruction::Arithmetic(ArithmeticOp::Sub { dst, src1, src2 }),
            ),
            final(self).notes() == old(self).notes().push(None),
    {
        self.push(Instruction::Arithmetic(ArithmeticOp::Sub { dst, src1, src2 }));
    }

    /// Appends `mul dst, src1, src2`.
    pub fn mul(&mut self, dst: Arm64Register, src1: Arm64Register, src2: Arm64Register)
        requires
            old(self).wf(),
        ensures
            final(self).wf(),
            final(self).instrs() == old(self).instrs().push(
                Instruction::Arithmetic(ArithmeticOp::Mul { dst, src1, src2 }),
            ),
            final(self).notes() == old(self).notes().push(None),
    {
        self.push(Instruction::Arithmetic(ArithmeticOp::Mul { dst, src1, src2 }));
    }

    /// Appends `fadd dst, src1, src2`.
    pub fn fadd(&mut self, dst: Arm64Register, src1: Arm64Register, src2: Arm64Register)
        requires
            old(self).wf(),
        ensures
            final(self).wf(),
            final(self).instrs() == old(self).instrs().push(
                Instruction::Arithmetic(ArithmeticOp::Fadd { dst, src1, src2 }),
            ),
            final(self).notes() == old(self).notes().push(None),
    {
        self.push(Instruction::Arithmetic(ArithmeticOp::Fadd { dst, src1, src2 }));
    }

    /// Appends a register move, lowered to `add dst, src, xzr`.
    pub fn mov(&mut self, dst: Arm64Register, src: Arm64Register)
        requires
            old(self).wf(),
        ensures
            final(self).wf(),
            final(self).instrs() == old(self).instrs().push(
                Instruction::Arithmetic(ArithmeticOp::Add { dst, src1: src, src2: Arm64Register::XZR }),
            ),
            final(self).notes() == old(self).notes().push(None),
    {
        self.push(Instruction::Arithmetic(ArithmeticOp::Add { dst, src1: src, src2: Arm64Register::XZR }));
    }

    /// Appends `ret`.
    pub fn ret(&mut self)
        requires
            old(self).wf(),
        ensures
            final(self).wf(),
            final(self).instrs() == old(self).instrs().push(Instruction::Branch(BranchOp::Ret)),
            final(self).notes() == old(self).notes().push(None),
    {
        self.push(Instruction::Branch(BranchOp::Ret));
    }

    /// Appends a call, `bl label`.
    pub fn bl(&mut self, label: &str)
        requires
            old(self).wf(),
        ensures
            appends_one(*old(self), *final(self)),
            final(self).instrs().last() matches Instruction::Branch(BranchOp::Bl { label: l })
                && l@ == label@,
    {
        let label = String::from_str(label);
        self.push(Instruction::Branch(BranchOp::Bl { label }));
    }

    /// Appends a branch, `b label`.
    pub fn b(&mut self, label: &str)
        requires
            old(self).wf(),
        ensures
            appends_one(*old(self), *final(self)),
            final(self).instrs().last() matches Instruction::Branch(BranchOp::B { label: l })
                && l@ == label@,
    {
        let label = String::from_str(label);
        self.push(Instruction::Branch(BranchOp::B { label }));
    }

    /// Appends `cbz reg, label`.
    pub fn cbz(&mut self, reg: Arm64Register, label: &str)
        requires
            old(self).wf(),
        ensures
            appends_one(*old(self), *final(self)),
            final(self).instrs().last() matches Instruction::Branch(BranchOp::Cbz { reg: r, label: l })
                && r == reg && l@ == label@,
    {
        let label = String::from_str(label);
        self.push(Instruction::Branch(BranchOp::Cbz { reg, label }));
    }

    /// Appends a store of `src` to the address operand `addr`.
    pub fn str(&mut self, src: Arm64Register, addr: &str)
        requires
            old(self).wf(),
        ensures
            appends_one(*old(self), *final(self)),
            final(self).instrs().last() matches Instruction::LoadStore(LoadStoreOp::Str { src: r, dst: a })
                && r == src && a@ == addr@,
    {
        let dst = String::from_str(addr);
        self.push(Instruction::LoadStore(LoadStoreOp::Str { src, dst }));
    }

    /// Appends a load into `dst` from the address operand `addr`.
    pub fn ldr(&mut self, dst: Arm64Register, addr: &str)
        requires
            old(self).wf(),
        ensures
            appends_one(*old(self), *final(self)),
            final(self).instrs().last() matches Instruction::LoadStore(LoadStoreOp::Ldr { dst: r, src: a })
                && r == dst && a@ == addr@,
    {
        let src = String::from_str(addr);
        self.push(Instruction::LoadStore(LoadStoreOp::Ldr { dst, src }));
    }

    /// Appends `adrp dst, label@PAGE`.
    pub fn adrp(&mut self, dst: Arm64Register, label: &str)
        requires
            old(self).wf(),
        ensures
            appends_one(*old(self), *final(self)),
            final(self).instrs().last() matches Instruction::Address(AddressOp::Adrp { dst: r, label: l })
                && r == dst && l@ == label@,
    {
        let label = String::from_str(label);
        self.push(Instruction::Address(AddressOp::Adrp { dst, label }));
    }

    /// Appends the page of `label` into `base` and its address into `dst`.
    pub fn adrp_add(&mut self, dst: Arm64Register, base: Arm64Register, label: &str)
        requires
            old(self).wf(),
        ensures
            appends_one(*old(self), *final(self)),
            final(self).instrs().last() matches Instruction::Address(AddressOp::AdrpAdd { dst: r, base: q, label: l })
                && r == dst && q == base && l@ == label@,
    {
        let label = String::from_str(label);
        self.push(Instruction::Address(AddressOp::AdrpAdd { dst, base, label }));
    }

    /// The rendered instruction lines.
    pub fn render(&self) -> (r: String)
        requires
            self.wf(),
        ensures
            r@ == stream_text(self.instrs(), self.notes()),
    {
        let mut out = String::new();
        let n = self.instructions.len();
        let mut k: usize = 0;
        while k < n
            invariant
                self.wf(),
                n == self.instrs().len(),
                k <= n,
                out@ == stream_text(self.instrs().take(k as int), self.notes().take(k as int)),
            decreases n - k,
        {
            proof {
                lemma_stream_push(
                    self.instrs().take(k as int),
                    self.notes().take(k as int),
                    self.instrs()[k as int],
                    self.notes()[k as int],
                );
                assert(self.instrs().take(k as int).push(self.instrs()[k as int]) =~= self.instrs().take(k + 1));
                assert(self.notes().take(k as int).push(self.notes()[k as int]) =~= self.notes().take(k + 1));
            }
            push_line(&mut out, &self.instructions[k], &self.comments[k]);
            k = k + 1;
        }
        assert(self.instrs().take(n as int) =~= self.instrs());
        assert(self.notes().take(n as int) =~= self.notes());
        out
    }
}

/// `new` is `old` with one instruction, without a comment, appended.
pub open spec fn appends_one(old: ARM64, new: ARM64) -> bool {
    &&& new.wf()
    &&& new.instrs().len() == old.instrs().len() + 1
    &&& new.instrs() == old.instrs().push(new.instrs().last())
    &&& new.notes() == old.notes().push(None)
}

/// Appends one indented instruction line with its comment.
pub fn push_line(out: &mut String, ins: &Instruction, comment: &Option<String>)
    ensures
        final(out)@ == old(out)@ + line_text(*ins, opt_text(*comment)),
{
    out.append("    ");
    push_instruction(out, ins);
    match comment {
        Some(c) => {
            out.append(" // ");
            out.append(c.as_str());
        },
        None => {},
    }
    out.append("\n");
    assert(out@ =~= old(out)@ + line_text(*ins, opt_text(*comment)));
}

} // verus!
