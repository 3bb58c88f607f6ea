//! The ARM64 target for macOS: `.global`/`.extern` directives, Mach-O section
//! names, `#` immediates and `@PAGE`/`@PAGEOFF` relocation suffixes.
use crate::arch::arm64::{push_symbol, symbol_text};
use crate::text::{push_signed_decimal, signed_decimal};
use crate::{Directive, Ins, Operand, Register, RenderError, Target};
use vstd::prelude::*;
use vstd::string::*;

verus! {

/// The registers named by this target.
#[derive(Debug, Clone, Copy, PartialEq, Eq, Structural)]
pub enum Arm64Register {
    X0,
    X1,
}

impl Register for Arm64Register {
    open spec fn spec_name(&self) -> Seq<char> {
        match *self {
            Arm64Register::X0 => "x0"@,
            Arm64Register::X1 => "x1"@,
        }
    }

    fn name(&self) -> (r: &'static str) {
        match self {
            Arm64Register::X0 => "x0",
            Arm64Register::X1 => "x1",
        }
    }
}

/// The ARM64 macOS dialect.
#[derive(Debug, Clone, Copy, PartialEq, Eq, Structural)]
pub struct ARM64Target;

impl Target for ARM64Target {
    open spec fn directive_spec(&self, directive: Directive) -> Seq<char> {
        match directive {
            Directive::Global(s) => ".global "@ + s@,
            Directive::Extern(s) => ".extern "@ + s@,
        }
    }

    /// Every instruction renders; moves of an immediate take a `#`.
    open spec fn instruction_spec(&self, instruction: Ins) -> Result<Seq<char>, RenderError> {
        Ok(
            match instruction {
                Ins::Mov { dest, src } => match src {
                    Operand::Immediate(imm) => "mov "@ + dest@ + ", #"@ + signed_decimal(imm as int),
                    Operand::Register(reg) => "mov "@ + dest@ + ", "@ + reg@,
                    Operand::Symbol(sym) => "mov "@ + dest@ + ", "@ + sym@,
                },
                Ins::Bl { symbol } => "bl "@ + symbol@,
                Ins::Adrp { dest, symbol } => "adrp "@ + dest@ + ", "@ + symbol_text(symbol),
                Ins::Add { dest, src, symbol } => "add "@ + dest@ + ", "@ + src@ + ", "@ + symbol_text(symbol),
                Ins::Call { symbol } => "bl "@ + symbol@,
                Ins::Ret => "ret"@,
                Ins::Nop => "nop"@,
            },
        )
    }

    open spec fn data_section_spec(&self) -> Seq<char> {
        ".section __DATA,__data"@
    }

    open spec fn text_section_spec(&self) -> Seq<char> {
        ".section __TEXT,__text"@
    }

    fn compile_directive(&self, directive: &Directive) -> (r: String) {
        let mut out = String::new();
        match directive {
            Directive::Global(symbol) => {
                out.append(".global ");
                out.append(symbol.as_str());
            },
            Directive::Extern(symbol) => {
                out.append(".extern ");
                out.append(symbol.as_str());
            },
        }
        assert(out@ =~= self.directive_spec(*directive));
        out
    }

    fn compile_instruction(&self, instruction: &Ins) -> (r: Result<String, RenderError>) {
        let mut out = String::new();
        match instruction {
            Ins::Mov { dest, src } => {
                out.append("mov ");
                out.append(dest.as_str());
                match src {
                    Operand::Immediate(imm) => {
                        out.append(", #");
                        push_signed_decimal(&mut out, *imm);
                    },
                    Operand::Register(reg) => {
                        out.append(", ");
                        out.append(reg.as_str());
                    },
                    Operand::Symbol(sym) => {
                        out.append(", ");
                        out.append(sym.as_str());
                    },
                }
            },
            Ins::Bl { symbol } => {
                out.append("bl ");
                out.append(symbol.as_str());
            },
            Ins::Adrp { dest, symbol } => {
                out.append("adrp ");
                out.append(dest.as_str());
                out.append(", ");
                push_symbol(&mut out, symbol);
            },
            Ins::Add { dest, src, symbol } => {
                out.append("add ");
                out.append(dest.as_str());
                out.append(", ");
                out.append(src.as_str());
                out.append(", ");
                push_symbol(&mut out, symbol);
            },
            Ins::Call { symbol } => {
                out.append("bl ");
                out.append(symbol.as_str());
            },
            Ins::Ret => {
                out.append("ret");
            },
            Ins::Nop => {
                out.append("nop");
            },
        }
        assert(out@ =~= self.instruction_spec(*instruction)->Ok_0);
        Ok(out)
    }

    fn section_data_directive(&self) -> (r: String) {
        String::from_str(".section __DATA,__data")
    }

    fn section_text_directive(&self) -> (r: String) {
        String::from_str(".section __TEXT,__text")
    }
}

} // verus!
