//! The macOS ARM64 dialect of the neutral program model: lowering from the
//! neutral types, with explicit failure where the dialect has no counterpart,
//! and the text of each lowered item.
use crate::instruction::{RegisterMapping, UnsupportedRegister};
use crate::ir::{Comment, Directive, Ins, LabelModifier, Op, Operand, Register, SectionType};
use crate::text::{decimal, push_decimal, push_signed_decimal, signed_decimal};
use vstd::prelude::*;
use vstd::string::*;

verus! {

/// Directives of the macOS assembler.
#[derive(Debug)]
pub enum MacOSDirective {
    Global(String),
    Extern(String),
    Section(MacOSSectionType),
}

/// Section kinds of the macOS assembler.
#[derive(Debug, Clone, Copy, PartialEq, Eq, Structural)]
pub enum MacOSSectionType {
    Data,
    Text,
    Const,
    Bss,
}

/// macOS ARM64 registers: 64-bit `x`, SIMD/FP `v`, 32-bit `w`, and the
/// special registers.
#[derive(Debug, Clone, Copy, PartialEq, Eq, Structural)]
pub enum MacOSRegister {
    X0, X1, X2, X3, X4, X5, X6, X7, X8, X9, X10, X11, X12, X13, X14, X15, X16, X17, X18,
    X19, X20, X21, X22, X23, X24, X25, X26, X27, X28, X29, X30, X31, V0, V1, V2, V3, V4,
    V5, V6, V7, V8, V9, V10, V11, V12, V13, V14, V15, V16, V17, V18, V19, V20, V21, V22,
    V23, V24, V25, V26, V27, V28, V29, V30, V31, W0, W1, W2, W3, W4, W5, W6, W7, W8, W9,
    W10, W11, W12, W13, W14, W15, W16, W17, W18, W19, W20, W21, W22, W23, W24, W25, W26,
    W27, W28, W29, W30, W31, Sp, Pc, Lr,
}

/// macOS ARM64 mnemonics.
#[derive(Debug, Clone, Copy, PartialEq, Eq, Structural)]
pub enum MacOSOp {
    Adrp,
    Add,
    Bl,
    Mov,
    Call,
    Ret,
    Sub,
    Mul,
    Div,
    And,
    Or,
    Xor,
}

/// macOS ARM64 operands.
#[derive(Debug)]
pub enum MacOSOperand {
    Register(MacOSRegister),
    Immediate(i64),
    Label(String),
    LabelWithModifier { label: String, modifier: LabelModifier },
    MemoryAddress(String),
    MemoryOffset { base: MacOSRegister, offset: i64 },
    ScaledIndex { base: MacOSRegister, index: MacOSRegister, scale: u8 },
}

/// A lowered instruction.
#[derive(Debug)]
pub struct MacOSIns {
    pub op: MacOSOp,
    pub operands: Vec<MacOSOperand>,
    pub comment: Comment,
}

#[derive(Debug)]
pub enum MacOSLabelVariant {
    Data(MacOSDataLabel),
    Code(MacOSCodeLabel),
}

#[derive(Debug)]
pub struct MacOSLabel {
    pub val: MacOSLabelVariant,
    pub comment: Comment,
}

#[derive(Debug)]
pub struct MacOSCodeLabel {
    pub name: String,
    pub instructions: Vec<MacOSIns>,
}

#[derive(Debug)]
pub struct MacOSDataLabel {
    pub name: String,
    pub directive: String,
    pub value: String,
}

#[derive(Debug)]
pub struct MacOSSection {
    pub section_type: MacOSSectionType,
    pub labels: Vec<MacOSLabel>,
}

#[derive(Debug)]
pub struct MacOSProgram {
    pub directives: Vec<MacOSDirective>,
    pub sections: Vec<MacOSSection>,
}

/// Why a neutral item has no macOS counterpart.
#[derive(Debug, Clone, Copy, PartialEq, Eq, Structural)]
pub enum LowerError {
    UnsupportedRegister(Register),
    UnsupportedOp,
    UnsupportedModifier(LabelModifier),
}

// ---------------------------------------------------------------------------
// Registers

/// The general-purpose register `n`, if the dialect has it.
pub open spec fn gp_register(n: u8) -> Option<MacOSRegister> {
    match n {
        0 => Some(MacOSRegister::X0),
        1 => Some(MacOSRegister::X1),
        2 => Some(MacOSRegister::X2),
        3 => Some(MacOSRegister::X3),
        4 => Some(MacOSRegister::X4),
        5 => Some(MacOSRegister::X5),
        6 => Some(MacOSRegister::X6),
        7 => Some(MacOSRegister::X7),
        8 => Some(MacOSRegister::X8),
        9 => Some(MacOSRegister::X9),
        10 => Some(MacOSRegister::X10),
        11 => Some(MacOSRegister::X11),
        12 => Some(MacOSRegister::X12),
        13 => Some(MacOSRegister::X13),
        14 => Some(MacOSRegister::X14),
        15 => Some(MacOSRegister::X15),
        16 => Some(MacOSRegister::X16),
        17 => Some(MacOSRegister::X17),
        18 => Some(MacOSRegister::X18),
        19 => Some(MacOSRegister::X19),
        20 => Some(MacOSRegister::X20),
        21 => Some(MacOSRegister::X21),
        22 => Some(MacOSRegister::X22),
        23 => Some(MacOSRegister::X23),
        24 => Some(MacOSRegister::X24),
        25 => Some(MacOSRegister::X25),
        26 => Some(MacOSRegister::X26),
        27 => Some(MacOSRegister::X27),
        28 => Some(MacOSRegister::X28),
        29 => Some(MacOSRegister::X29),
        30 => Some(MacOSRegister::X30),
        31 => Some(MacOSRegister::X31),
        _ => None,
    }
}

/// The SIMD/FP register `n`, if the dialect has it.
pub open spec fn fp_register(n: u8) -> Option<MacOSRegister> {
    match n {
        0 => Some(MacOSRegister::V0),
        1 => Some(MacOSRegister::V1),
        2 => Some(MacOSRegister::V2),
        3 => Some(MacOSRegister::V3),
        4 => Some(MacOSRegister::V4),
        5 => Some(MacOSRegister::V5),
        6 => Some(MacOSRegister::V6),
        7 => Some(MacOSRegister::V7),
        8 => Some(MacOSRegister::V8),
        9 => Some(MacOSRegister::V9),
        10 => Some(MacOSRegister::V10),
        11 => Some(MacOSRegister::V11),
        12 => Some(MacOSRegister::V12),
        13 => Some(MacOSRegister::V13),
        14 => Some(MacOSRegister::V14),
        15 => Some(MacOSRegister::V15),
        16 => Some(MacOSRegister::V16),
        17 => Some(MacOSRegister::V17),
        18 => Some(MacOSRegister::V18),
        19 => Some(MacOSRegister::V19),
        20 => Some(MacOSRegister::V20),
        21 => Some(MacOSRegister::V21),
        22 => Some(MacOSRegister::V22),
        23 => Some(MacOSRegister::V23),
        24 => Some(MacOSRegister::V24),
        25 => Some(MacOSRegister::V25),
        26 => Some(MacOSRegister::V26),
        27 => Some(MacOSRegister::V27),
        28 => Some(MacOSRegister::V28),
        29 => Some(MacOSRegister::V29),
        30 => Some(MacOSRegister::V30),
        31 => Some(MacOSRegister::V31),
        _ => None,
    }
}

/// The register's class letter (`x`, `v` or `w`), or `None` for a special
/// register.
pub open spec fn register_class(r: MacOSRegister) -> Option<char> {
    match r {
        MacOSRegister::X0 => Some('x'),
        MacOSRegister::X1 => Some('x'),
        MacOSRegister::X2 => Some('x'),
        MacOSRegister::X3 => Some('x'),
        MacOSRegister::X4 => Some('x'),
        MacOSRegister::X5 => Some('x'),
        MacOSRegister::X6 => Some('x'),
        MacOSRegister::X7 => Some('x'),
        MacOSRegister::X8 => Some('x'),
        MacOSRegister::X9 => Some('x'),
        MacOSRegister::X10 => Some('x'),
        MacOSRegister::X11 => Some('x'),
        MacOSRegister::X12 => Some('x'),
        MacOSRegister::X13 => Some('x'),
        MacOSRegister::X14 => Some('x'),
        MacOSRegister::X15 => Some('x'),
        MacOSRegister::X16 => Some('x'),
        MacOSRegister::X17 => Some('x'),
        MacOSRegister::X18 => Some('x'),
        MacOSRegister::X19 => Some('x'),
        MacOSRegister::X20 => Some('x'),
        MacOSRegister::X21 => Some('x'),
        MacOSRegister::X22 => Some('x'),
        MacOSRegister::X23 => Some('x'),
        MacOSRegister::X24 => Some('x'),
        MacOSRegister::X25 => Some('x'),
        MacOSRegister::X26 => Some('x'),
        MacOSRegister::X27 => Some('x'),
        MacOSRegister::X28 => Some('x'),
        MacOSRegister::X29 => Some('x'),
        MacOSRegister::X30 => Some('x'),
        MacOSRegister::X31 => Some('x'),
        MacOSRegister::V0 => Some('v'),
        MacOSRegister::V1 => Some('v'),
        MacOSRegister::V2 => Some('v'),
        MacOSRegister::V3 => Some('v'),
        MacOSRegister::V4 => Some('v'),
        MacOSRegister::V5 => Some('v'),
        MacOSRegister::V6 => Some('v'),
        MacOSRegister::V7 => Some('v'),
        MacOSRegister::V8 => Some('v'),
        MacOSRegister::V9 => Some('v'),
        MacOSRegister::V10 => Some('v'),
        MacOSRegister::V11 => Some('v'),
        MacOSRegister::V12 => Some('v'),
        MacOSRegister::V13 => Some('v'),
        MacOSRegister::V14 => Some('v'),
        MacOSRegister::V15 => Some('v'),
        MacOSRegister::V16 => Some('v'),
        MacOSRegister::V17 => Some('v'),
        MacOSRegister::V18 => Some('v'),
        MacOSRegister::V19 => Some('v'),
        MacOSRegister::V20 => Some('v'),
        MacOSRegister::V21 => Some('v'),
        MacOSRegister::V22 => Some('v'),
        MacOSRegister::V23 => Some('v'),
        MacOSRegister::V24 => Some('v'),
        MacOSRegister::V25 => Some('v'),
        MacOSRegister::V26 => Some('v'),
        MacOSRegister::V27 => Some('v'),
        MacOSRegister::V28 => Some('v'),
        MacOSRegister::V29 => Some('v'),
        MacOSRegister::V30 => Some('v'),
        MacOSRegister::V31 => Some('v'),
        MacOSRegister::W0 => Some('w'),
        MacOSRegister::W1 => Some('w'),
        MacOSRegister::W2 => Some('w'),
        MacOSRegister::W3 => Some('w'),
        MacOSRegister::W4 => Some('w'),
        MacOSRegister::W5 => Some('w'),
        MacOSRegister::W6 => Some('w'),
        MacOSRegister::W7 => Some('w'),
        MacOSRegister::W8 => Some('w'),
        MacOSRegister::W9 => Some('w'),
        MacOSRegister::W10 => Some('w'),
        MacOSRegister::W11 => Some('w'),
        MacOSRegister::W12 => Some('w'),
        MacOSRegister::W13 => Some('w'),
        MacOSRegister::W14 => Some('w'),
        MacOSRegister::W15 => Some('w'),
        MacOSRegister::W16 => Some('w'),
        MacOSRegister::W17 => Some('w'),
        MacOSRegister::W18 => Some('w'),
        MacOSRegister::W19 => Some('w'),
        MacOSRegister::W20 => Some('w'),
        MacOSRegister::W21 => Some('w'),
        MacOSRegister::W22 => Some('w'),
        MacOSRegister::W23 => Some('w'),
        MacOSRegister::W24 => Some('w'),
        MacOSRegister::W25 => Some('w'),
        MacOSRegister::W26 => Some('w'),
        MacOSRegister::W27 => Some('w'),
        MacOSRegister::W28 => Some('w'),
        MacOSRegister::W29 => Some('w'),
        MacOSRegister::W30 => Some('w'),
        MacOSRegister::W31 => Some('w'),
        _ => None,
    }
}

/// The register's number within its class (zero for special registers).
pub open spec fn register_number(r: MacOSRegister) -> nat {
    match r {
        MacOSRegister::X0 => 0,
        MacOSRegister::X1 => 1,
        MacOSRegister::X2 => 2,
        MacOSRegister::X3 => 3,
        MacOSRegister::X4 => 4,
        MacOSRegister::X5 => 5,
        MacOSRegister::X6 => 6,
        MacOSRegister::X7 => 7,
        MacOSRegister::X8 => 8,
        MacOSRegister::X9 => 9,
        MacOSRegister::X10 => 10,
        MacOSRegister::X11 => 11,
        MacOSRegister::X12 => 12,
        MacOSRegister::X13 => 13,
        MacOSRegister::X14 => 14,
        MacOSRegister::X15 => 15,
        MacOSRegister::X16 => 16,
        MacOSRegister::X17 => 17,
        MacOSRegister::X18 => 18,
        MacOSRegister::X19 => 19,
        MacOSRegister::X20 => 20,
        MacOSRegister::X21 => 21,
        MacOSRegister::X22 => 22,
        MacOSRegister::X23 => 23,
        MacOSRegister::X24 => 24,
        MacOSRegister::X25 => 25,
        MacOSRegister::X26 => 26,
        MacOSRegister::X27 => 27,
        MacOSRegister::X28 => 28,
        MacOSRegister::X29 => 29,
        MacOSRegister::X30 => 30,
        MacOSRegister::X31 => 31,
        MacOSRegister::V0 => 0,
        MacOSRegister::V1 => 1,
        MacOSRegister::V2 => 2,
        MacOSRegister::V3 => 3,
        MacOSRegister::V4 => 4,
        MacOSRegister::V5 => 5,
        MacOSRegister::V6 => 6,
        MacOSRegister::V7 => 7,
        MacOSRegister::V8 => 8,
        MacOSRegister::V9 => 9,
        MacOSRegister::V10 => 10,
        MacOSRegister::V11 => 11,
        MacOSRegister::V12 => 12,
        MacOSRegister::V13 => 13,
        MacOSRegister::V14 => 14,
        MacOSRegister::V15 => 15,
        MacOSRegister::V16 => 16,
        MacOSRegister::V17 => 17,
        MacOSRegister::V18 => 18,
        MacOSRegister::V19 => 19,
        MacOSRegister::V20 => 20,
        MacOSRegister::V21 => 21,
        MacOSRegister::V22 => 22,
        MacOSRegister::V23 => 23,
        MacOSRegister::V24 => 24,
        MacOSRegister::V25 => 25,
        MacOSRegister::V26 => 26,
        MacOSRegister::V27 => 27,
        MacOSRegister::V28 => 28,
        MacOSRegister::V29 => 29,
        MacOSRegister::V30 => 30,
        MacOSRegister::V31 => 31,
        MacOSRegister::W0 => 0,
        MacOSRegister::W1 => 1,
        MacOSRegister::W2 => 2,
        MacOSRegister::W3 => 3,
        MacOSRegister::W4 => 4,
        MacOSRegister::W5 => 5,
        MacOSRegister::W6 => 6,
        MacOSRegister::W7 => 7,
        MacOSRegister::W8 => 8,
        MacOSRegister::W9 => 9,
        MacOSRegister::W10 => 10,
        MacOSRegister::W11 => 11,
        MacOSRegister::W12 => 12,
        MacOSRegister::W13 => 13,
        MacOSRegister::W14 => 14,
        MacOSRegister::W15 => 15,
        MacOSRegister::W16 => 16,
        MacOSRegister::W17 => 17,
        MacOSRegister::W18 => 18,
        MacOSRegister::W19 => 19,
        MacOSRegister::W20 => 20,
        MacOSRegister::W21 => 21,
        MacOSRegister::W22 => 22,
        MacOSRegister::W23 => 23,
        MacOSRegister::W24 => 24,
        MacOSRegister::W25 => 25,
        MacOSRegister::W26 => 26,
        MacOSRegister::W27 => 27,
        MacOSRegister::W28 => 28,
        MacOSRegister::W29 => 29,
        MacOSRegister::W30 => 30,
        MacOSRegister::W31 => 31,
        _ => 0,
    }
}

/// The register's spelling: its class letter and number, or the special name.
pub open spec fn register_text(r: MacOSRegister) -> Seq<char> {
    match r {
        MacOSRegister::Sp => "sp"@,
        MacOSRegister::Pc => "pc"@,
        MacOSRegister::Lr => "lr"@,
        _ => seq![register_class(r)->Some_0] + decimal(register_number(r)),
    }
}

impl RegisterMapping<MacOSRegister> for Register {
    /// Register numbers 0 to 31 of each class, and the special registers.
    open spec fn arch_reg(&self) -> Option<MacOSRegister> {
        match *self {
            Register::Gp(n) => gp_register(n),
            Register::Fp(n) => fp_register(n),
            Register::Sp => Some(MacOSRegister::Sp),
            Register::Pc => Some(MacOSRegister::Pc),
            Register::Lr => Some(MacOSRegister::Lr),
        }
    }

    fn to_arch_reg(&self) -> (r: Result<MacOSRegister, UnsupportedRegister>) {
        match self {
            Register::Gp(n) => match n {
                0 => Ok(MacOSRegister::X0),
                1 => Ok(MacOSRegister::X1),
                2 => Ok(MacOSRegister::X2),
                3 => Ok(MacOSRegister::X3),
                4 => Ok(MacOSRegister::X4),
                5 => Ok(MacOSRegister::X5),
                6 => Ok(MacOSRegister::X6),
                7 => Ok(MacOSRegister::X7),
                8 => Ok(MacOSRegister::X8),
                9 => Ok(MacOSRegister::X9),
                10 => Ok(MacOSRegister::X10),
                11 => Ok(MacOSRegister::X11),
                12 => Ok(MacOSRegister::X12),
                13 => Ok(MacOSRegister::X13),
                14 => Ok(MacOSRegister::X14),
                15 => Ok(MacOSRegister::X15),
                16 => Ok(MacOSRegister::X16),
                17 => Ok(MacOSRegister::X17),
                18 => Ok(MacOSRegister::X18),
                19 => Ok(MacOSRegister::X19),
                20 => Ok(MacOSRegister::X20),
                21 => Ok(MacOSRegister::X21),
                22 => Ok(MacOSRegister::X22),
                23 => Ok(MacOSRegister::X23),
                24 => Ok(MacOSRegister::X24),
                25 => Ok(MacOSRegister::X25),
                26 => Ok(MacOSRegister::X26),
                27 => Ok(MacOSRegister::X27),
                28 => Ok(MacOSRegister::X28),
                29 => Ok(MacOSRegister::X29),
                30 => Ok(MacOSRegister::X30),
                31 => Ok(MacOSRegister::X31),
                _ => Err(UnsupportedRegister),
            },
            Register::Fp(n) => match n {
                0 => Ok(MacOSRegister::V0),
                1 => Ok(MacOSRegister::V1),
                2 => Ok(MacOSRegister::V2),
                3 => Ok(MacOSRegister::V3),
                4 => Ok(MacOSRegister::V4),
                5 => Ok(MacOSRegister::V5),
                6 => Ok(MacOSRegister::V6),
                7 => Ok(MacOSRegister::V7),
                8 => Ok(MacOSRegister::V8),
                9 => Ok(MacOSRegister::V9),
                10 => Ok(MacOSRegister::V10),
                11 => Ok(MacOSRegister::V11),
                12 => Ok(MacOSRegister::V12),
                13 => Ok(MacOSRegister::V13),
                14 => Ok(MacOSRegister::V14),
                15 => Ok(MacOSRegister::V15),
                16 => Ok(MacOSRegister::V16),
                17 => Ok(MacOSRegister::V17),
                18 => Ok(MacOSRegister::V18),
                19 => Ok(MacOSRegister::V19),
                20 => Ok(MacOSRegister::V20),
                21 => Ok(MacOSRegister::V21),
                22 => Ok(MacOSRegister::V22),
                23 => Ok(MacOSRegister::V23),
                24 => Ok(MacOSRegister::V24),
                25 => Ok(MacOSRegister::V25),
                26 => Ok(MacOSRegister::V26),
                27 => Ok(MacOSRegister::V27),
                28 => Ok(MacOSRegister::V28),
                29 => Ok(MacOSRegister::V29),
                30 => Ok(MacOSRegister::V30),
                31 => Ok(MacOSRegister::V31),
                _ => Err(UnsupportedRegister),
            },
            Register::Sp => Ok(MacOSRegister::Sp),
            Register::Pc => Ok(MacOSRegister::Pc),
            Register::Lr => Ok(MacOSRegister::Lr),
        }
    }
}

/// Lowering a neutral register to macOS succeeds exactly for numbers below 32
/// and for the special registers, and keeps the class and the number: it never
/// hands back an unrelated register.
pub proof fn lemma_macos_mapping(r: Register)
    ensures
        RegisterMapping::<MacOSRegister>::arch_reg(&r) is Some <==> match r {
            Register::Gp(n) => n < 32,
            Register::Fp(n) => n < 32,
            _ => true,
        },
        RegisterMapping::<MacOSRegister>::arch_reg(&r) matches Some(m) ==> match r {
            Register::Gp(n) => register_class(m) == Some('x') && register_number(m) == n as nat,
            Register::Fp(n) => register_class(m) == Some('v') && register_number(m) == n as nat,
            Register::Sp => m == MacOSRegister::Sp,
            Register::Pc => m == MacOSRegister::Pc,
            Register::Lr => m == MacOSRegister::Lr,
        },
{
}

impl MacOSRegister {
    /// The macOS register for a neutral one, of the same class and number, or
    /// the unsupported-register error where the dialect has none.
    pub fn from(register: Register) -> (r: Result<MacOSRegister, UnsupportedRegister>)
        ensures
            match RegisterMapping::<MacOSRegister>::arch_reg(&register) {
                Some(m) => r == Ok::<MacOSRegister, UnsupportedRegister>(m),
                None => r == Err::<MacOSRegister, UnsupportedRegister>(UnsupportedRegister),
            },
    {
        register.to_arch_reg()
    }

    /// The class letter and number of a numbered register.
    fn parts(&self) -> (r: Option<(&'static str, u8)>)
        ensures
            match register_class(*self) {
                Some(c) => r matches Some(p) && p.0@ == seq![c] && p.1 as nat == register_number(*self),
                None => r is None,
            },
    {
        proof {
            reveal_strlit("x");
            reveal_strlit("v");
            reveal_strlit("w");
        }
        match self {
            MacOSRegister::X0 => Some(("x", 0)),
            MacOSRegister::X1 => Some(("x", 1)),
            MacOSRegister::X2 => Some(("x", 2)),
            MacOSRegister::X3 => Some(("x", 3)),
            MacOSRegister::X4 => Some(("x", 4)),
            MacOSRegister::X5 => Some(("x", 5)),
            MacOSRegister::X6 => Some(("x", 6)),
            MacOSRegister::X7 => Some(("x", 7)),
            MacOSRegister::X8 => Some(("x", 8)),
            MacOSRegister::X9 => Some(("x", 9)),
            MacOSRegister::X10 => Some(("x", 10)),
            MacOSRegister::X11 => Some(("x", 11)),
            MacOSRegister::X12 => Some(("x", 12)),
            MacOSRegister::X13 => Some(("x", 13)),
            MacOSRegister::X14 => Some(("x", 14)),
            MacOSRegister::X15 => Some(("x", 15)),
            MacOSRegister::X16 => Some(("x", 16)),
            MacOSRegister::X17 => Some(("x", 17)),
            MacOSRegister::X18 => Some(("x", 18)),
            MacOSRegister::X19 => Some(("x", 19)),
            MacOSRegister::X20 => Some(("x", 20)),
            MacOSRegister::X21 => Some(("x", 21)),
            MacOSRegister::X22 => Some(("x", 22)),
            MacOSRegister::X23 => Some(("x", 23)),
            MacOSRegister::X24 => Some(("x", 24)),
            MacOSRegister::X25 => Some(("x", 25)),
            MacOSRegister::X26 => Some(("x", 26)),
            MacOSRegister::X27 => Some(("x", 27)),
            MacOSRegister::X28 => Some(("x", 28)),
            MacOSRegister::X29 => Some(("x", 29)),
            MacOSRegister::X30 => Some(("x", 30)),
            MacOSRegister::X31 => Some(("x", 31)),
            MacOSRegister::V0 => Some(("v", 0)),
            MacOSRegister::V1 => Some(("v", 1)),
            MacOSRegister::V2 => Some(("v", 2)),
            MacOSRegister::V3 => Some(("v", 3)),
            MacOSRegister::V4 => Some(("v", 4)),
            MacOSRegister::V5 => Some(("v", 5)),
            MacOSRegister::V6 => Some(("v", 6)),
            MacOSRegister::V7 => Some(("v", 7)),
            MacOSRegister::V8 => Some(("v", 8)),
            MacOSRegister::V9 => Some(("v", 9)),
            MacOSRegister::V10 => Some(("v", 10)),
            MacOSRegister::V11 => Some(("v", 11)),
            MacOSRegister::V12 => Some(("v", 12)),
            MacOSRegister::V13 => Some(("v", 13)),
            MacOSRegister::V14 => Some(("v", 14)),
            MacOSRegister::V15 => Some(("v", 15)),
            MacOSRegister::V16 => Some(("v", 16)),
            MacOSRegister::V17 => Some(("v", 17)),
            MacOSRegister::V18 => Some(("v", 18)),
            MacOSRegister::V19 => Some(("v", 19)),
            MacOSRegister::V20 => Some(("v", 20)),
            MacOSRegister::V21 => Some(("v", 21)),
            MacOSRegister::V22 => Some(("v", 22)),
            MacOSRegister::V23 => Some(("v", 23)),
            MacOSRegister::V24 => Some(("v", 24)),
            MacOSRegister::V25 => Some(("v", 25)),
            MacOSRegister::V26 => Some(("v", 26)),
            MacOSRegister::V27 => Some(("v", 27)),
            MacOSRegister::V28 => Some(("v", 28)),
            MacOSRegister::V29 => Some(("v", 29)),
            MacOSRegister::V30 => Some(("v", 30)),
            MacOSRegister::V31 => Some(("v", 31)),
            MacOSRegister::W0 => Some(("w", 0)),
            MacOSRegister::W1 => Some(("w", 1)),
            MacOSRegister::W2 => Some(("w", 2)),
            MacOSRegister::W3 => Some(("w", 3)),
            MacOSRegister::W4 => Some(("w", 4)),
            MacOSRegister::W5 => Some(("w", 5)),
            MacOSRegister::W6 => Some(("w", 6)),
            MacOSRegister::W7 => Some(("w", 7)),
            MacOSRegister::W8 => Some(("w", 8)),
            MacOSRegister::W9 => Some(("w", 9)),
            MacOSRegister::W10 => Some(("w", 10)),
            MacOSRegister::W11 => Some(("w", 11)),
            MacOSRegister::W12 => Some(("w", 12)),
            MacOSRegister::W13 => Some(("w", 13)),
            MacOSRegister::W14 => Some(("w", 14)),
            MacOSRegister::W15 => Some(("w", 15)),
            MacOSRegister::W16 => Some(("w", 16)),
            MacOSRegister::W17 => Some(("w", 17)),
            MacOSRegister::W18 => Some(("w", 18)),
            MacOSRegister::W19 => Some(("w", 19)),
            MacOSRegister::W20 => Some(("w", 20)),
            MacOSRegister::W21 => Some(("w", 21)),
            MacOSRegister::W22 => Some(("w", 22)),
            MacOSRegister::W23 => Some(("w", 23)),
            MacOSRegister::W24 => Some(("w", 24)),
            MacOSRegister::W25 => Some(("w", 25)),
            MacOSRegister::W26 => Some(("w", 26)),
            MacOSRegister::W27 => Some(("w", 27)),
            MacOSRegister::W28 => Some(("w", 28)),
            MacOSRegister::W29 => Some(("w", 29)),
            MacOSRegister::W30 => Some(("w", 30)),
            MacOSRegister::W31 => Some(("w", 31)),
            _ => None,
        }
    }

    /// The register's spelling.
    pub fn to_string(&self) -> (r: String)
        ensures
            r@ == register_text(*self),
    {
        match self.parts() {
            Some((c, n)) => {
                let mut out = String::from_str(c);
                push_decimal(&mut out, n as u64);
                out
            },
            None => match self {
                MacOSRegister::Sp => String::from_str("sp"),
                MacOSRegister::Pc => String::from_str("pc"),
                _ => String::from_str("lr"),
            },
        }
    }
}

// ---------------------------------------------------------------------------
// Directives and sections

impl From<SectionType> for MacOSSectionType {
    fn from(section_type: SectionType) -> Self {
        match section_type {
            SectionType::Data => MacOSSectionType::Data,
            SectionType::Text => MacOSSectionType::Text,
            SectionType::Const => MacOSSectionType::Const,
            SectionType::Bss => MacOSSectionType::Bss,
        }
    }
}

/// The section kind of the same name.
pub open spec fn macos_section_type(t: SectionType) -> MacOSSectionType {
    match t {
        SectionType::Data => MacOSSectionType::Data,
        SectionType::Text => MacOSSectionType::Text,
        SectionType::Const => MacOSSectionType::Const,
        SectionType::Bss => MacOSSectionType::Bss,
    }
}

impl vstd::std_specs::convert::FromSpecImpl<SectionType> for MacOSSectionType {
    open spec fn obeys_from_spec() -> bool {
        true
    }

    open spec fn from_spec(v: SectionType) -> Self {
        macos_section_type(v)
    }
}

impl From<Directive> for MacOSDirective {
    fn from(directive: Directive) -> Self {
        match directive {
            Directive::Global(name) => MacOSDirective::Global(name),
            Directive::Extern(name) => MacOSDirective::Extern(name),
            Directive::Section(section_type) => MacOSDirective::Section(MacOSSectionType::from(section_type)),
        }
    }
}

/// The directive of the same kind, with the same symbol or section kind.
pub open spec fn macos_directive(d: Directive) -> MacOSDirective {
    match d {
        Directive::Global(name) => MacOSDirective::Global(name),
        Directive::Extern(name) => MacOSDirective::Extern(name),
        Directive::Section(t) => MacOSDirective::Section(macos_section_type(t)),
    }
}

impl vstd::std_specs::convert::FromSpecImpl<Directive> for MacOSDirective {
    open spec fn obeys_from_spec() -> bool {
        true
    }

    open spec fn from_spec(v: Directive) -> Self {
        macos_directive(v)
    }
}

/// The assembler's section-switching directive.
pub open spec fn section_type_text(t: MacOSSectionType) -> Seq<char> {
    match t {
        MacOSSectionType::Data => ".data"@,
        MacOSSectionType::Text => ".text"@,
        MacOSSectionType::Const => ".const"@,
        MacOSSectionType::Bss => ".bss"@,
    }
}

/// A directive: data and text sections by their Mach-O segment and section
/// names, the other kinds by their own directive.
pub open spec fn directive_text(d: MacOSDirective) -> Seq<char> {
    match d {
        MacOSDirective::Global(name) => ".global "@ + name@,
        MacOSDirective::Extern(name) => ".extern "@ + name@,
        MacOSDirective::Section(MacOSSectionType::Data) => ".section __DATA,__data"@,
        MacOSDirective::Section(MacOSSectionType::Text) => ".section __TEXT,__text"@,
        MacOSDirective::Section(t) => section_type_text(t),
    }
}

impl MacOSSectionType {
    pub fn to_string(&self) -> (r: String)
        ensures
            r@ == section_type_text(*self),
    {
        match self {
            MacOSSectionType::Data => String::from_str(".data"),
            MacOSSectionType::Text => String::from_str(".text"),
            MacOSSectionType::Const => String::from_str(".const"),
            MacOSSectionType::Bss => String::from_str(".bss"),
        }
    }
}

impl MacOSDirective {
    pub fn to_string(&self) -> (r: String)
        ensures
            r@ == directive_text(*self),
    {
        match self {
            MacOSDirective::Global(name) => {
                let mut out = String::from_str(".global ");
                out.append(name.as_str());
                out
            },
            MacOSDirective::Extern(name) => {
                let mut out = String::from_str(".extern ");
                out.append(name.as_str());
                out
            },
            MacOSDirective::Section(MacOSSectionType::Data) => String::from_str(".section __DATA,__data"),
            MacOSDirective::Section(MacOSSectionType::Text) => String::from_str(".section __TEXT,__text"),
            MacOSDirective::Section(t) => t.to_string(),
        }
    }
}

// ---------------------------------------------------------------------------
// Operands and instructions

/// A register lowered, or the error naming it.
pub open spec fn lower_register(r: Register) -> Result<MacOSRegister, LowerError> {
    match RegisterMapping::<MacOSRegister>::arch_reg(&r) {
        Some(m) => Ok(m),
        None => Err(LowerError::UnsupportedRegister(r)),
    }
}

fn lower_reg(r: Register) -> (res: Result<MacOSRegister, LowerError>)
    ensures
        res == lower_register(r),
{
    match MacOSRegister::from(r) {
        Ok(m) => Ok(m),
        Err(_) => Err(LowerError::UnsupportedRegister(r)),
    }
}

/// An operand lowered: its registers lowered (the base before the index), and
/// only the page and page-offset modifiers kept, as Mach-O has no others.
pub open spec fn lower_operand(o: Operand) -> Result<MacOSOperand, LowerError> {
    match o {
        Operand::Register(r) => match lower_register(r) {
            Ok(m) => Ok(MacOSOperand::Register(m)),
            Err(e) => Err(e),
        },
        Operand::Immediate(v) => Ok(MacOSOperand::Immediate(v)),
        Operand::MemoryAddress(a) => Ok(MacOSOperand::MemoryAddress(a)),
        Operand::MemoryOffset { base, offset } => match lower_register(base) {
            Ok(b) => Ok(MacOSOperand::MemoryOffset { base: b, offset }),
            Err(e) => Err(e),
        },
        Operand::ScaledIndex { base, index, scale } => match lower_register(base) {
            Err(e) => Err(e),
            Ok(b) => match lower_register(index) {
                Err(e) => Err(e),
                Ok(i) => Ok(MacOSOperand::ScaledIndex { base: b, index: i, scale }),
            },
        },
        Operand::LabelWithModifier { label, modifier } => match modifier {
            LabelModifier::Page => Ok(MacOSOperand::LabelWithModifier { label, modifier }),
            LabelModifier::PageOff => Ok(MacOSOperand::LabelWithModifier { label, modifier }),
            _ => Err(LowerError::UnsupportedModifier(modifier)),
        },
        Operand::Label(l) => Ok(MacOSOperand::Label(l)),
    }
}

impl MacOSOperand {
    pub fn from_operand(operand: Operand) -> (r: Result<MacOSOperand, LowerError>)
        ensures
            r == lower_operand(operand),
    {
        match operand {
            Operand::Register(reg) => match lower_reg(reg) {
                Ok(m) => Ok(MacOSOperand::Register(m)),
                Err(e) => Err(e),
            },
            Operand::Immediate(v) => Ok(MacOSOperand::Immediate(v)),
            Operand::MemoryAddress(a) => Ok(MacOSOperand::MemoryAddress(a)),
            Operand::MemoryOffset { base, offset } => match lower_reg(base) {
                Ok(b) => Ok(MacOSOperand::MemoryOffset { base: b, offset }),
                Err(e) => Err(e),
            },
            Operand::ScaledIndex { base, index, scale } => match lower_reg(base) {
                Err(e) => Err(e),
                Ok(b) => match lower_reg(index) {
                    Err(e) => Err(e),
                    Ok(i) => Ok(MacOSOperand::ScaledIndex { base: b, index: i, scale }),
                },
            },
            Operand::LabelWithModifier { label, modifier } => match modifier {
                LabelModifier::Page => Ok(MacOSOperand::LabelWithModifier { label, modifier }),
                LabelModifier::PageOff => Ok(MacOSOperand::LabelWithModifier { label, modifier }),
                _ => Err(LowerError::UnsupportedModifier(modifier)),
            },
            Operand::Label(l) => Ok(MacOSOperand::Label(l)),
        }
    }
}

/// The mnemonic of an operation, if the dialect has one; a call is `bl`.
pub open spec fn macos_op(op: Op) -> Option<MacOSOp> {
    match op {
        Op::Mov { .. } => Some(MacOSOp::Mov),
        Op::Add { .. } => Some(MacOSOp::Add),
        Op::Sub { .. } => Some(MacOSOp::Sub),
        Op::Mul { .. } => Some(MacOSOp::Mul),
        Op::Div { .. } => Some(MacOSOp::Div),
        Op::And { .. } => Some(MacOSOp::And),
        Op::Or { .. } => Some(MacOSOp::Or),
        Op::Xor { .. } => Some(MacOSOp::Xor),
        Op::Adrp { .. } => Some(MacOSOp::Adrp),
        Op::Call { .. } => Some(MacOSOp::Bl),
        Op::Ret => Some(MacOSOp::Ret),
        _ => None,
    }
}

impl MacOSOp {
    /// The mnemonic of an operation, if the dialect has one.
    pub fn from_op(op: &Op) -> (r: Option<MacOSOp>)
        ensures
            r == macos_op(*op),
    {
        match op {
            Op::Mov { .. } => Some(MacOSOp::Mov),
            Op::Add { .. } => Some(MacOSOp::Add),
            Op::Sub { .. } => Some(MacOSOp::Sub),
            Op::Mul { .. } => Some(MacOSOp::Mul),
            Op::Div { .. } => Some(MacOSOp::Div),
            Op::And { .. } => Some(MacOSOp::And),
            Op::Or { .. } => Some(MacOSOp::Or),
            Op::Xor { .. } => Some(MacOSOp::Xor),
            Op::Adrp { .. } => Some(MacOSOp::Adrp),
            Op::Call { .. } => Some(MacOSOp::Bl),
            Op::Ret => Some(MacOSOp::Ret),
            _ => None,
        }
    }
}

/// The operands of an operation, destination first.
pub open spec fn op_operands(op: Op) -> Seq<Operand> {
    match op {
        Op::Mov { rd, src } => seq![Operand::Register(rd), src],
        Op::Add { rd, rn, op } => seq![Operand::Register(rd), Operand::Register(rn), op],
        Op::Sub { rd, rn, op } => seq![Operand::Register(rd), Operand::Register(rn), op],
        Op::Mul { rd, rn, op } => seq![Operand::Register(rd), Operand::Register(rn), op],
        Op::Div { rd, rn, op } => seq![Operand::Register(rd), Operand::Register(rn), op],
        Op::And { rd, rn, op } => seq![Operand::Register(rd), Operand::Register(rn), op],
        Op::Or { rd, rn, op } => seq![Operand::Register(rd), Operand::Register(rn), op],
        Op::Xor { rd, rn, op } => seq![Operand::Register(rd), Operand::Register(rn), op],
        Op::Adrp { rd, label } => seq![Operand::Register(rd), label],
        Op::Call { label } => seq![label],
        _ => Seq::empty(),
    }
}

/// The operands lowered in order, or the first error.
pub open spec fn lower_operands(os: Seq<Operand>) -> Result<Seq<MacOSOperand>, LowerError>
    decreases os.len(),
{
    if os.len() == 0 {
        Ok(Seq::empty())
    } else {
        match lower_operands(os.drop_last()) {
            Err(e) => Err(e),
            Ok(ls) => match lower_operand(os.last()) {
                Err(e) => Err(e),
                Ok(l) => Ok(ls.push(l)),
            },
        }
    }
}

fn lower_list(os: Vec<Operand>) -> (r: Result<Vec<MacOSOperand>, LowerError>)
    ensures
        match lower_operands(os@) {
            Ok(ls) => r matches Ok(v) && v@ == ls,
            Err(e) => r == Err::<Vec<MacOSOperand>, LowerError>(e),
        },
{
    let ghost all = os@;
    let mut rest = os;
    let mut out: Vec<MacOSOperand> = Vec::new();
    let n = rest.len();
    let mut k: usize = 0;
    while k < n
        invariant
            n == all.len(),
            k <= n,
            rest@ == all.skip(k as int),
            all == os@,
            lower_operands(all.take(k as int)) == Ok::<Seq<MacOSOperand>, LowerError>(out@),
        decreases n - k,
    {
        assert(all.take(k + 1).drop_last() =~= all.take(k as int));
        assert(rest@[0] == all[k as int]);
        let o = rest.remove(0);
        assert(o == all[k as int]);
        assert(rest@ =~= all.skip(k + 1));
        match MacOSOperand::from_operand(o) {
            Ok(l) => {
                out.push(l);
            },
            Err(e) => {
                proof {
                    assert(all.take(k + 1).last() == all[k as int]);
                    assert(lower_operands(all.take(k + 1)) == Err::<Seq<MacOSOperand>, LowerError>(e));
                    lemma_lower_err(all, k as int + 1);
                }
                return Err(e);
            },
        }
        k = k + 1;
    }
    assert(all.take(n as int) =~= all);
    Ok(out)
}

proof fn lemma_lower_err(os: Seq<Operand>, k: int)
    requires
        0 <= k <= os.len(),
        lower_operands(os.take(k)) is Err,
    ensures
        lower_operands(os) == lower_operands(os.take(k)),
    decreases os.len() - k,
{
    if k < os.len() {
        assert(os.take(k + 1).drop_last() =~= os.take(k));
        lemma_lower_err(os, k + 1);
    } else {
        assert(os.take(k) =~= os);
    }
}

impl MacOSIns {
    /// Lowers a neutral instruction: its mnemonic, its operands in order, and
    /// its comment. An operation without a mnemonic here, or an operand that
    /// cannot be lowered, is an error.
    pub fn from_ins(ins: Ins) -> (r: Result<MacOSIns, LowerError>)
        ensures
            match macos_op(ins.op) {
                None => r == Err::<MacOSIns, LowerError>(LowerError::UnsupportedOp),
                Some(m) => match lower_operands(op_operands(ins.op)) {
                    Err(e) => r == Err::<MacOSIns, LowerError>(e),
                    Ok(os) => r matches Ok(x) && x.op == m && x.operands@ == os && x.comment == ins.comment,
                },
            },
    {
        let ghost op0 = ins.op;
        let m = match MacOSOp::from_op(&ins.op) {
            Some(m) => m,
            None => {
                return Err(LowerError::UnsupportedOp);
            },
        };
        let os = match ins.op {
            Op::Mov { rd, src } => vec![Operand::Register(rd), src],
            Op::Add { rd, rn, op } => vec![Operand::Register(rd), Operand::Register(rn), op],
            Op::Sub { rd, rn, op } => vec![Operand::Register(rd), Operand::Register(rn), op],
            Op::Mul { rd, rn, op } => vec![Operand::Register(rd), Operand::Register(rn), op],
            Op::Div { rd, rn, op } => vec![Operand::Register(rd), Operand::Register(rn), op],
            Op::And { rd, rn, op } => vec![Operand::Register(rd), Operand::Register(rn), op],
            Op::Or { rd, rn, op } => vec![Operand::Register(rd), Operand::Register(rn), op],
            Op::Xor { rd, rn, op } => vec![Operand::Register(rd), Operand::Register(rn), op],
            Op::Adrp { rd, label } => vec![Operand::Register(rd), label],
            Op::Call { label } => vec![label],
            _ => Vec::new(),
        };
        assert(os@ =~= op_operands(op0));
        match lower_list(os) {
            Ok(v) => Ok(MacOSIns { op: m, operands: v, comment: ins.comment }),
            Err(e) => Err(e),
        }
    }
}

// ---------------------------------------------------------------------------
// Text

pub open spec fn op_text(op: MacOSOp) -> Seq<char> {
    match op {
        MacOSOp::Adrp => "adrp"@,
        MacOSOp::Add => "add"@,
        MacOSOp::Bl => "bl"@,
        MacOSOp::Mov => "mov"@,
        MacOSOp::Call => "call"@,
        MacOSOp::Ret => "ret"@,
        MacOSOp::Sub => "sub"@,
        MacOSOp::Mul => "mul"@,
        MacOSOp::Div => "div"@,
        MacOSOp::And => "and"@,
        MacOSOp::Or => "or"@,
        MacOSOp::Xor => "xor"@,
    }
}

/// A label with its relocation modifier spelled out.
pub open spec fn modified_label_text(label: Seq<char>, modifier: LabelModifier) -> Seq<char> {
    match modifier {
        LabelModifier::Page => label + "@PAGE"@,
        LabelModifier::PageOff => label + "@PAGEOFF"@,
        LabelModifier::Lo12 => ":lo12:"@ + label,
        LabelModifier::Hi20 => ":hi20:"@ + label,
    }
}

pub open spec fn operand_text(o: MacOSOperand) -> Seq<char> {
    match o {
        MacOSOperand::Register(r) => register_text(r),
        MacOSOperand::Immediate(v) => "#"@ + signed_decimal(v as int),
        MacOSOperand::Label(l) => l@,
        MacOSOperand::LabelWithModifier { label, modifier } => modified_label_text(label@, modifier),
        MacOSOperand::MemoryAddress(a) => "["@ + a@ + "]"@,
        MacOSOperand::MemoryOffset { base, offset } => "["@ + register_text(base) + ", #"@ + signed_decimal(
            offset as int,
        ) + "]"@,
        MacOSOperand::ScaledIndex { base, index, scale } => "["@ + register_text(base) + ", "@ + register_text(
            index,
        ) + ", lsl #"@ + decimal(scale as nat) + "]"@,
    }
}

/// The operands, separated by `, `.
pub open spec fn operands_text(os: Seq<MacOSOperand>) -> Seq<char>
    decreases os.len(),
{
    if os.len() == 0 {
        Seq::empty()
    } else if os.len() == 1 {
        operand_text(os[0])
    } else {
        operands_text(os.drop_last()) + ", "@ + operand_text(os.last())
    }
}

/// An indented line: a tab, the mnemonic, a space and the operands if there
/// are any, then a tab, `// ` and the comment if there is one.
pub open spec fn ins_text(op: MacOSOp, os: Seq<MacOSOperand>, comment: Option<Seq<char>>) -> Seq<char> {
    "\t"@ + op_text(op) + (if os.len() == 0 {
        Seq::empty()
    } else {
        " "@ + operands_text(os)
    }) + match comment {
        Some(c) => "\t// "@ + c,
        None => Seq::empty(),
    }
}

impl MacOSOp {
    pub fn to_string(&self) -> (r: String)
        ensures
            r@ == op_text(*self),
    {
        match self {
            MacOSOp::Adrp => String::from_str("adrp"),
            MacOSOp::Add => String::from_str("add"),
            MacOSOp::Bl => String::from_str("bl"),
            MacOSOp::Mov => String::from_str("mov"),
            MacOSOp::Call => String::from_str("call"),
            MacOSOp::Ret => String::from_str("ret"),
            MacOSOp::Sub => String::from_str("sub"),
            MacOSOp::Mul => String::from_str("mul"),
            MacOSOp::Div => String::from_str("div"),
            MacOSOp::And => String::from_str("and"),
            MacOSOp::Or => String::from_str("or"),
            MacOSOp::Xor => String::from_str("xor"),
        }
    }
}

impl MacOSOperand {
    pub fn to_string(&self) -> (r: String)
        ensures
            r@ == operand_text(*self),
    {
        let mut out = String::new();
        match self {
            MacOSOperand::Register(r) => {
                let t = r.to_string();
                out.append(t.as_str());
            },
            MacOSOperand::Immediate(v) => {
                out.append("#");
                push_signed_decimal(&mut out, *v);
            },
            MacOSOperand::Label(l) => {
                out.append(l.as_str());
            },
            MacOSOperand::LabelWithModifier { label, modifier } => match modifier {
                LabelModifier::Page => {
                    out.append(label.as_str());
                    out.append("@PAGE");
                },
                LabelModifier::PageOff => {
                    out.append(label.as_str());
                    out.append("@PAGEOFF");
                },
                LabelModifier::Lo12 => {
                    out.append(":lo12:");
                    out.append(label.as_str());
                },
                LabelModifier::Hi20 => {
                    out.append(":hi20:");
                    out.append(label.as_str());
                },
            },
            MacOSOperand::MemoryAddress(a) => {
                out.append("[");
                out.append(a.as_str());
                out.append("]");
            },
            MacOSOperand::MemoryOffset { base, offset } => {
                out.append("[");
                let b = base.to_string();
                out.append(b.as_str());
                out.append(", #");
                push_signed_decimal(&mut out, *offset);
                out.append("]");
            },
            MacOSOperand::ScaledIndex { base, index, scale } => {
                out.append("[");
                let b = base.to_string();
                out.append(b.as_str());
                out.append(", ");
                let i = index.to_string();
                out.append(i.as_str());
                out.append(", lsl #");
                push_decimal(&mut out, *scale as u64);
                out.append("]");
            },
        }
        assert(out@ =~= operand_text(*self));
        out
    }
}

/// The view of an optional comment.
pub open spec fn comment_view(c: Comment) -> Option<Seq<char>> {
    match c {
        Some(t) => Some(t@),
        None => None,
    }
}

impl MacOSIns {
    pub fn to_string(&self) -> (r: String)
        ensures
            r@ == ins_text(self.op, self.operands@, comment_view(self.comment)),
    {
        let mut out = String::from_str("\t");
        let op = self.op.to_string();
        out.append(op.as_str());
        let ghost os = self.operands@;
        let n = self.operands.len();
        if n > 0 {
            out.append(" ");
        }
        let ghost start = out@;
        let mut k: usize = 0;
        while k < n
            invariant
                n == os.len(),
                os == self.operands@,
                k <= n,
                out@ == start + operands_text(os.take(k as int)),
            decreases n - k,
        {
            assert(os.take(k + 1).drop_last() =~= os.take(k as int));
            if k > 0 {
                out.append(", ");
            }
            let t = self.operands[k].to_string();
            out.append(t.as_str());
            proof {
                if k == 0 {
                    assert(os.take(1)[0] == os[0]);
                }
            }
            k = k + 1;
            assert(out@ =~= start + operands_text(os.take(k as int)));
        }
        assert(os.take(n as int) =~= os);
        match &self.comment {
            Some(c) => {
                out.append("\t// ");
                out.append(c.as_str());
            },
            None => {},
        }
        assert(out@ =~= ins_text(self.op, self.operands@, comment_view(self.comment)));
        out
    }
}

} // verus!
