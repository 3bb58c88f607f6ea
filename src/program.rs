use crate::arch::arm64::{ARM64, stream_text};
use crate::builder::InstructionBuilder;
use crate::context::{Context, Variable};
use crate::text::{escaped, push_escaped};
use vstd::prelude::*;
use vstd::string::*;

verus! {

/// A program under construction: the instruction builder over its ARM64
/// stream, and its symbol table.
pub struct Program {
    pub ins: InstructionBuilder,
    pub ctx: Context,
}

/// The data lines of one variable: its label, then its value escaped in an
/// `.asciz` literal.
pub open spec fn variable_text(v: Variable) -> Seq<char> {
    v.label@ + ":\n    .asciz \""@ + escaped(v.value@) + "\"\n"@
}

/// The data lines of all variables, in declaration order.
pub open spec fn data_text(vs: Seq<Variable>) -> Seq<char> {
    Seq::new(vs.len(), |k: int| variable_text(vs[k])).flatten()
}

/// One `.extern` line per extern symbol, in order.
pub open spec fn externs_text(es: Seq<Seq<char>>) -> Seq<char> {
    Seq::new(es.len(), |k: int| ".extern "@ + es[k] + "\n"@).flatten()
}

/// The program's text: the data section with its variables, then the text
/// section with the entry symbol, the externs and the instruction stream.
pub open spec fn program_text(p: Program) -> Seq<char> {
    ".section __DATA,__data\n"@ + data_text(p.ctx.vars()) + ".section __TEXT,__text\n.global _start\n"@
        + externs_text(p.ctx.extern_names()) + "_start:\n"@ + stream_text(
        p.ins.arch.instrs(),
        p.ins.arch.notes(),
    )
}

impl Program {
    /// A program over `arch`, with an empty symbol table.
    pub fn new(arch: ARM64) -> (r: Self)
        ensures
            r.ins.arch == arch,
            r.ins.current_comment is None,
            r.ctx.wf(),
            r.ctx.vars().len() == 0,
            r.ctx.extern_names().len() == 0,
    {
        Self { ins: InstructionBuilder::new(arch), ctx: Context::new() }
    }

    /// Declares a variable and returns its label (see `Context::add_variable`).
    pub fn var(&mut self, name: &str, value: &str) -> (r: String)
        requires
            old(self).ctx.wf(),
            old(self).ctx.declares(name@) || old(self).ctx.label_counter < usize::MAX,
        ensures
            final(self).ins == old(self).ins,
            final(self).ctx.wf(),
            final(self).ctx.extern_names() == old(self).ctx.extern_names(),
            old(self).ctx.declares(name@) ==> {
                &&& final(self).ctx.vars() == old(self).ctx.vars()
                &&& final(self).ctx.label_counter == old(self).ctx.label_counter
                &&& exists|k: int|
                    0 <= k < old(self).ctx.vars().len() && #[trigger] old(self).ctx.vars()[k].name@ == name@
                        && r@ == old(self).ctx.vars()[k].label@
            },
            !old(self).ctx.declares(name@) ==> {
                &&& final(self).ctx.label_counter == old(self).ctx.label_counter + 1
                &&& r@ == crate::context::label_name(old(self).ctx.label_counter as nat)
                &&& final(self).ctx.vars() == old(self).ctx.vars().push(final(self).ctx.vars().last())
                &&& final(self).ctx.vars().last().name@ == name@
                &&& final(self).ctx.vars().last().value@ == value@
                &&& final(self).ctx.vars().last().label@ == r@
            },
    {
        self.ctx.add_variable(name, value)
    }

    /// The program's assembly text.
    pub fn to_string(&self) -> (r: String)
        requires
            self.ins.arch.wf(),
        ensures
            r@ == program_text(*self),
    {
        let mut out = String::from_str(".section __DATA,__data\n");
        let vs = &self.ctx.sections.data;
        let ghost start = out@;
        let n = vs.len();
        let mut k: usize = 0;
        while k < n
            invariant
                n == vs@.len(),
                k <= n,
                out@ == start + data_text(vs@.take(k as int)),
            decreases n - k,
        {
            proof {
                let lines = Seq::new(k as nat, |j: int| variable_text(vs@.take(k as int)[j]));
                assert(Seq::new((k + 1) as nat, |j: int| variable_text(vs@.take(k + 1)[j])) =~= lines.push(
                    variable_text(vs@[k as int]),
                ));
                lines.lemma_flatten_push(variable_text(vs@[k as int]));
            }
            out.append(vs[k].label.as_str());
            out.append(":\n    .asciz \"");
            push_escaped(&mut out, vs[k].value.as_str());
            out.append("\"\n");
            k = k + 1;
            assert(out@ =~= start + data_text(vs@.take(k as int)));
        }
        assert(vs@.take(n as int) =~= vs@);
        out.append(".section __TEXT,__text\n.global _start\n");
        let es = &self.ctx.externs;
        let ghost mid = out@;
        let ghost names = self.ctx.extern_names();
        let m = es.len();
        let mut k: usize = 0;
        while k < m
            invariant
                m == es@.len(),
                names == es@.map_values(|s: String| s@),
                k <= m,
                out@ == mid + externs_text(names.take(k as int)),
            decreases m - k,
        {
            proof {
                let lines = Seq::new(k as nat, |j: int| ".extern "@ + names.take(k as int)[j] + "\n"@);
                assert(Seq::new((k + 1) as nat, |j: int| ".extern "@ + names.take(k + 1)[j] + "\n"@) =~= lines.push(
                    ".extern "@ + names[k as int] + "\n"@,
                ));
                lines.lemma_flatten_push(".extern "@ + names[k as int] + "\n"@);
            }
            out.append(".extern ");
            out.append(es[k].as_str());
            out.append("\n");
            k = k + 1;
            assert(out@ =~= mid + externs_text(names.take(k as int)));
        }
        assert(names.take(m as int) =~= names);
        out.append("_start:\n");
        let code = self.ins.arch.render();
        out.append(code.as_str());
        assert(out@ =~= program_text(*self));
        out
    }
}

} // verus!
