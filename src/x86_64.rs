//! A sketched x86-64 target in NASM style: bare `global`/`extern`, flat section
//! names, bracketed memory operands, and no relocation modifiers.
use crate::ir::SymbolRef;
use crate::text::{push_signed_decimal, signed_decimal};
use crate::{Directive, Ins, Operand, Register, RenderError, Target};
use vstd::prelude::*;
use vstd::string::*;

verus! {

/// The registers named by this target.
#[derive(Debug, Clone, Copy, PartialEq, Eq, Structural)]
pub enum X86Register {
    RAX,
    RBX,
    RCX,
    RDX,
}

impl Register for X86Register {
    open spec fn spec_name(&self) -> Seq<char> {
        match *self {
            X86Register::RAX => "rax"@,
            X86Register::RBX => "rbx"@,
            X86Register::RCX => "rcx"@,
            X86Register::RDX => "rdx"@,
        }
    }

    fn name(&self) -> (r: &'static str) {
        match self {
            X86Register::RAX => "rax",
            X86Register::RBX => "rbx",
            X86Register::RCX => "rcx",
            X86Register::RDX => "rdx",
        }
    }
}

/// The x86-64 dialect.
#[derive(Debug, Clone, Copy, PartialEq, Eq, Structural)]
pub struct X86Target;

/// A symbol without a modifier renders as its name; this dialect has no
/// spelling for any modifier.
pub open spec fn x86_symbol(s: SymbolRef) -> Result<Seq<char>, RenderError> {
    match s.modifier {
        None => Ok(s.name@),
        Some(m) => Err(RenderError::UnsupportedModifier(m)),
    }
}

impl Target for X86Target {
    open spec fn directive_spec(&self, directive: Directive) -> Seq<char> {
        match directive {
            Directive::Global(s) => "global "@ + s@,
            Directive::Extern(s) => "extern "@ + s@,
        }
    }

    /// Page-relative address computations become `lea`; a symbol with a
    /// relocation modifier cannot be rendered.
    open spec fn instruction_spec(&self, instruction: Ins) -> Result<Seq<char>, RenderError> {
        match instruction {
            Ins::Mov { dest, src } => Ok(
                match src {
                    Operand::Immediate(imm) => "mov "@ + dest@ + ", "@ + signed_decimal(imm as int),
                    Operand::Register(reg) => "mov "@ + dest@ + ", "@ + reg@,
                    Operand::Symbol(sym) => "mov "@ + dest@ + ", "@ + "["@ + sym@ + "]"@,
                },
            ),
            Ins::Bl { symbol } => Ok("call "@ + symbol@),
            Ins::Call { symbol } => Ok("call "@ + symbol@),
            Ins::Adrp { dest, symbol } => match x86_symbol(symbol) {
                Ok(s) => Ok("lea "@ + dest@ + ", ["@ + s + "]"@),
                Err(e) => Err(e),
            },
            Ins::Add { dest, src, symbol } => match x86_symbol(symbol) {
                Ok(s) => Ok("lea "@ + dest@ + ", ["@ + src@ + " + "@ + s + "]"@),
                Err(e) => Err(e),
            },
            Ins::Ret => Ok("ret"@),
            Ins::Nop => Ok("nop"@),
        }
    }

    open spec fn data_section_spec(&self) -> Seq<char> {
        "section .data"@
    }

    open spec fn text_section_spec(&self) -> Seq<char> {
        "section .text"@
    }

    fn compile_directive(&self, directive: &Directive) -> (r: String) {
        let mut out = String::new();
        match directive {
            Directive::Global(symbol) => {
                out.append("global ");
                out.append(symbol.as_str());
            },
            Directive::Extern(symbol) => {
                out.append("extern ");
                out.append(symbol.as_str());
            },
        }
        assert(out@ =~= self.directive_spec(*directive));
        out
    }

    fn compile_instruction(&self, instruction: &Ins) -> (r: Result<String, RenderError>) {
        let mut out = String::new();
        match instruction {
            Ins::Mov { dest, src } => {
                out.append("mov ");
                out.append(dest.as_str());
                out.append(", ");
                match src {
                    Operand::Immediate(imm) => {
                        push_signed_decimal(&mut out, *imm);
                    },
                    Operand::Register(reg) => {
                        out.append(reg.as_str());
                    },
                    Operand::Symbol(sym) => {
                        out.append("[");
                        out.append(sym.as_str());
                        out.append("]");
                    },
                }
            },
            Ins::Bl { symbol } => {
                out.append("call ");
                out.append(symbol.as_str());
            },
            Ins::Call { symbol } => {
                out.append("call ");
                out.append(symbol.as_str());
            },
            Ins::Adrp { dest, symbol } => {
                if let Some(m) = symbol.modifier {
                    return Err(RenderError::UnsupportedModifier(m));
                }
                out.append("lea ");
                out.append(dest.as_str());
                out.append(", [");
                out.append(symbol.name.as_str());
                out.append("]");
            },
            Ins::Add { dest, src, symbol } => {
                if let Some(m) = symbol.modifier {
                    return Err(RenderError::UnsupportedModifier(m));
                }
                out.append("lea ");
                out.append(dest.as_str());
                out.append(", [");
                out.append(src.as_str());
                out.append(" + ");
                out.append(symbol.name.as_str());
                out.append("]");
            },
            Ins::Ret => {
                out.append("ret");
            },
            Ins::Nop => {
                out.append("nop");
            },
        }
        assert(out@ =~= self.instruction_spec(*instruction)->Ok_0);
        Ok(out)
    }

    fn section_data_directive(&self) -> (r: String) {
        String::from_str("section .data")
    }

    fn section_text_directive(&self) -> (r: String) {
        String::from_str("section .text")
    }
}

} // verus!
