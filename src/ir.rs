//! The neutral, architecture-independent program model: directives, sections,
//! labels, instructions and operands, as plain data.
use crate::SectionKindError;
use vstd::prelude::*;

verus! {

/// An optional comment attached to an instruction or a label.
pub type Comment = Option<String>;

/// Assembly directives.
#[derive(Debug, Clone)]
pub enum Directive {
    Global(String),
    Extern(String),
    Section(SectionType),
}

/// Kinds of section.
#[derive(Debug, Clone, Copy, PartialEq, Eq, Structural)]
pub enum SectionType {
    Data,
    Text,
    Const,
    Bss,
}

/// Registers, by class and number.
#[derive(Debug, Clone, Copy, PartialEq, Eq, Structural)]
pub enum Register {
    /// General-purpose register `n`.
    Gp(u8),
    /// Floating-point register `n`.
    Fp(u8),
    /// Stack pointer.
    Sp,
    /// Program counter.
    Pc,
    /// Link register.
    Lr,
}

/// Assembly operations.
#[derive(Debug, Clone)]
pub enum Op {
    Mov { rd: Register, src: Operand },
    Load { rd: Register, addr: Operand },
    Store { rs: Register, addr: Operand },
    Add { rd: Register, rn: Register, op: Operand },
    Sub { rd: Register, rn: Register, op: Operand },
    Mul { rd: Register, rn: Register, op: Operand },
    Div { rd: Register, rn: Register, op: Operand },
    And { rd: Register, rn: Register, op: Operand },
    Or { rd: Register, rn: Register, op: Operand },
    Xor { rd: Register, rn: Register, op: Operand },
    Not { rd: Register, rn: Register },
    Shl { rd: Register, rn: Register, amount: u8 },
    Shr { rd: Register, rn: Register, amount: u8 },
    Sar { rd: Register, rn: Register, amount: u8 },
    Lea { rd: Register, addr: Operand },
    Adrp { rd: Register, label: Operand },
    Call { label: Operand },
    Ret,
    Branch { label: Operand },
    BranchIf { cond: Condition, label: Operand },
    VecAdd { rd: Register, rn: Register, rm: Register },
    VecMul { rd: Register, rn: Register, rm: Register },
    AtomicLoad { rd: Register, addr: Operand },
    AtomicStore { rs: Register, addr: Operand },
    AtomicAdd { rd: Register, rn: Register, addr: Operand },
    SysCall { num: u64 },
    Nop,
    Halt,
}

/// Instruction operands.
#[derive(Debug, Clone)]
pub enum Operand {
    Register(Register),
    Immediate(i64),
    /// A direct memory address, given by a label or symbol.
    MemoryAddress(String),
    MemoryOffset { base: Register, offset: i64 },
    ScaledIndex { base: Register, index: Register, scale: u8 },
    /// A label with a relocation modifier; the target spells the modifier.
    LabelWithModifier { label: String, modifier: LabelModifier },
    Label(String),
}

/// An instruction with an optional comment.
#[derive(Debug, Clone)]
pub struct Ins {
    pub op: Op,
    pub comment: Comment,
}

/// A label is either data or code.
#[derive(Debug, Clone)]
pub enum LabelVariant {
    Data(DataLabel),
    Code(CodeLabel),
}

/// A label with an optional comment.
#[derive(Debug, Clone)]
pub struct Label {
    pub val: LabelVariant,
    pub comment: Comment,
}

/// A code label and the instructions that follow it.
#[derive(Debug, Clone)]
pub struct CodeLabel {
    pub name: String,
    pub instructions: Vec<Ins>,
}

/// A data label: its name, storage directive and literal value.
#[derive(Debug, Clone)]
pub struct DataLabel {
    pub name: String,
    pub directive: String,
    pub value: String,
}

/// A section and its labels, in order.
#[derive(Debug, Clone)]
pub struct Section {
    pub section_type: SectionType,
    pub labels: Vec<Label>,
}

/// A whole program: directives, then sections, in order.
#[derive(Debug, Clone)]
pub struct Program {
    pub directives: Vec<Directive>,
    pub sections: Vec<Section>,
}

/// Branch conditions.
#[derive(Debug, Clone, Copy, PartialEq, Eq, Structural)]
pub enum Condition {
    Eq,
    Ne,
    Lt,
    Gt,
    Le,
    Ge,
}

/// Relocation modifiers applied to a label operand.
#[derive(Debug, Clone, Copy, PartialEq, Eq, Structural)]
pub enum LabelModifier {
    /// `@PAGE`
    Page,
    /// `@PAGEOFF`
    PageOff,
    /// `:lo12:`
    Lo12,
    /// `:hi20:`
    Hi20,
}

/// A symbol reference: the unmodified symbol text and, separately, the
/// relocation modifier that the renderer spells.
#[derive(Debug, Clone)]
pub struct SymbolRef {
    pub name: String,
    pub modifier: Option<LabelModifier>,
}

impl Section {
    /// Adds a label: code labels go only to a text section, data labels only
    /// to the other kinds. A label of the wrong kind is refused and the
    /// section is left unchanged.
    pub fn add_label(&mut self, label: Label) -> (r: Result<(), SectionKindError>)
        ensures
            (label.val is Code) == (old(self).section_type == SectionType::Text) ==> {
                &&& r is Ok
                &&& final(self).section_type == old(self).section_type
                &&& final(self).labels@ == old(self).labels@.push(label)
            },
            label.val is Code && old(self).section_type != SectionType::Text ==> {
                &&& r == Err::<(), SectionKindError>(SectionKindError::BlockInDataSection)
                &&& *final(self) == *old(self)
            },
            label.val is Data && old(self).section_type == SectionType::Text ==> {
                &&& r == Err::<(), SectionKindError>(SectionKindError::StringInTextSection)
                &&& *final(self) == *old(self)
            },
    {
        let is_text = match self.section_type {
            SectionType::Text => true,
            _ => false,
        };
        match &label.val {
            LabelVariant::Code(_) => {
                if !is_text {
                    return Err(SectionKindError::BlockInDataSection);
                }
            },
            LabelVariant::Data(_) => {
                if is_text {
                    return Err(SectionKindError::StringInTextSection);
                }
            },
        }
        self.labels.push(label);
        Ok(())
    }
}

} // verus!
