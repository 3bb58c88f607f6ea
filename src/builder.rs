use crate::arch::arm64::{
    ARM64, AddressOp, ArithmeticOp, Arm64Register, BranchOp, Instruction, LoadStoreOp, arm64_of, lemma_stream_push,
    line_text, opt_text, stream_lines, stream_text,
};
use crate::instruction::{GenericRegister, Operand};
use vstd::prelude::*;
use vstd::string::*;

verus! {

/// A chainable cursor over an ARM64 instruction stream. A comment staged with
/// `comment` goes to the next instruction appended, and to no other.
pub struct InstructionBuilder {
    pub arch: ARM64,
    pub current_comment: Option<String>,
}

/// `new` is `old` after one more instruction: the staged comment, if any, went
/// to that instruction and is no longer staged.
pub open spec fn emits_one(old: InstructionBuilder, new: InstructionBuilder) -> bool {
    &&& new.arch.wf()
    &&& new.arch.instrs().len() == old.arch.instrs().len() + 1
    &&& new.arch.instrs() == old.arch.instrs().push(new.arch.instrs().last())
    &&& new.arch.notes() == old.arch.notes().push(opt_text(old.current_comment))
    &&& new.current_comment is None
}

/// A generic operand lowered to ARM64.
pub open spec fn lower_operand(o: Operand<GenericRegister>) -> Operand<Arm64Register> {
    match o {
        Operand::Register(g) => Operand::Register(arm64_of(g)),
        Operand::Immediate(i) => Operand::Immediate(i),
    }
}

/// A comment staged for the next instruction goes to that instruction alone:
/// after two more instructions it sits on the first of them, and the second
/// has none.
pub proof fn lemma_comment_scope(b0: InstructionBuilder, b1: InstructionBuilder, b2: InstructionBuilder)
    requires
        emits_one(b0, b1),
        emits_one(b1, b2),
    ensures
        b2.arch.notes() == b0.arch.notes().push(opt_text(b0.current_comment)).push(None),
        b2.arch.notes()[b0.arch.notes().len() as int] == opt_text(b0.current_comment),
        b2.arch.notes()[b0.arch.notes().len() + 1 as int] is None,
{
}

/// Each builder call adds exactly one entry to the rendered stream, after the
/// entries already there.
pub proof fn lemma_builder_order(b0: InstructionBuilder, b1: InstructionBuilder)
    requires
        b0.arch.wf(),
        emits_one(b0, b1),
    ensures
        stream_lines(b1.arch.instrs(), b1.arch.notes()) == stream_lines(b0.arch.instrs(), b0.arch.notes()).push(
            line_text(b1.arch.instrs().last(), opt_text(b0.current_comment)),
        ),
        stream_text(b1.arch.instrs(), b1.arch.notes()) == stream_text(b0.arch.instrs(), b0.arch.notes()) + line_text(
            b1.arch.instrs().last(),
            opt_text(b0.current_comment),
        ),
{
    lemma_stream_push(
        b0.arch.instrs(),
        b0.arch.notes(),
        b1.arch.instrs().last(),
        opt_text(b0.current_comment),
    );
}

/// The line that the call from `b0` to `b1` rendered.
pub open spec fn call_line(b0: InstructionBuilder, b1: InstructionBuilder) -> Seq<char> {
    line_text(b1.arch.instrs().last(), opt_text(b0.current_comment))
}

/// A run of builder calls renders as one line per call, in call order: the
/// rendered lines after the run are those before it followed by the line of
/// each call. `adrp_add` is left out: its single instruction is written as
/// two assembler lines.
pub proof fn lemma_builder_run(bs: Seq<InstructionBuilder>)
    requires
        bs.len() >= 1,
        bs[0].arch.wf(),
        forall|i: int| 0 <= i < bs.len() - 1 ==> emits_one(#[trigger] bs[i], bs[i + 1]),
        forall|i: int|
            1 <= i < bs.len() ==> !(#[trigger] bs[i].arch.instrs().last() matches Instruction::Address(
                AddressOp::AdrpAdd { .. },
            )),
    ensures
        bs.last().arch.wf(),
        bs.last().arch.instrs().len() == bs[0].arch.instrs().len() + bs.len() - 1,
        stream_lines(bs.last().arch.instrs(), bs.last().arch.notes()) == stream_lines(
            bs[0].arch.instrs(),
            bs[0].arch.notes(),
        ) + Seq::new((bs.len() - 1) as nat, |i: int| call_line(bs[i], bs[i + 1])),
    decreases bs.len(),
{
    if bs.len() == 1 {
        assert(stream_lines(bs[0].arch.instrs(), bs[0].arch.notes()) + Seq::new(0, |i: int| call_line(bs[i], bs[i + 1]))
            =~= stream_lines(bs[0].arch.instrs(), bs[0].arch.notes()));
    } else {
        let front = bs.drop_last();
        assert forall|i: int| 0 <= i < front.len() - 1 implies emits_one(#[trigger] front[i], front[i + 1]) by {
            assert(front[i] == bs[i] && front[i + 1] == bs[i + 1]);
            assert(emits_one(bs[i], bs[i + 1]));
        }
        assert forall|i: int| 1 <= i < front.len() implies !(#[trigger] front[i].arch.instrs().last() matches Instruction::Address(
            AddressOp::AdrpAdd { .. },
        )) by {
            assert(front[i] == bs[i]);
        }
        lemma_builder_run(front);
        let n = bs.len() - 1;
        assert(emits_one(bs[n - 1], bs[n]));
        assert(front.last() == bs[n - 1]);
        lemma_builder_order(bs[n - 1], bs[n]);
        let base = stream_lines(bs[0].arch.instrs(), bs[0].arch.notes());
        assert(base + Seq::new(n as nat, |i: int| call_line(bs[i], bs[i + 1])) =~= (base + Seq::new(
            (n - 1) as nat,
            |i: int| call_line(front[i], front[i + 1]),
        )).push(call_line(bs[n - 1], bs[n])));
    }
}

impl InstructionBuilder {
    /// A builder over `arch`, with no comment staged.
    pub fn new(arch: ARM64) -> (r: Self)
        ensures
            r.arch == arch,
            r.current_comment is None,
    {
        Self { arch, current_comment: None }
    }

    /// Stages `comment` for the next instruction, replacing any staged one.
    pub fn comment(&mut self, comment: &str) -> (r: &mut Self)
        ensures
            r.arch == old(self).arch,
            opt_text(r.current_comment) == Some(comment@),
            *final(self) == *final(r),
    {
        self.current_comment = Some(String::from_str(comment));
        self
    }

    /// Hands the staged comment to the instruction just appended.
    fn attach_comment(&mut self)
        requires
            old(self).arch.wf(),
            old(self).arch.instrs().len() > 0,
            old(self).arch.notes().last() is None,
        ensures
            final(self).arch.wf(),
            final(self).arch.instrs() == old(self).arch.instrs(),
            final(self).arch.notes() == old(self).arch.notes().drop_last().push(
                opt_text(old(self).current_comment),
            ),
            forall|prev: Seq<Option<Seq<char>>>|
                old(self).arch.notes() == #[trigger] prev.push(None) ==> final(self).arch.notes() == prev.push(
                    opt_text(old(self).current_comment),
                ),
            final(self).current_comment is None,
    {
        let c = self.current_comment.take();
        self.arch.comment_last(c);
        assert(self.arch.notes() =~= old(self).arch.notes().drop_last().push(opt_text(old(self).current_comment)));
        assert forall|prev: Seq<Option<Seq<char>>>| old(self).arch.notes() == #[trigger] prev.push(None) implies self.arch.notes()
            == prev.push(opt_text(old(self).current_comment)) by {
            assert(prev.push(None).drop_last() =~= prev);
        }
    }

    /// Appends `add dst, src1, src2`, `src2` a register or an immediate.
    pub fn add(&mut self, dst: GenericRegister, src1: GenericRegister, src2: Operand<GenericRegister>) -> (r: &mut Self)
        requires
            old(self).arch.wf(),
        ensures
            emits_one(*old(self), *r),
            r.arch.instrs().last() == match lower_operand(src2) {
                Operand::Register(reg) => Instruction::Arithmetic(
                    ArithmeticOp::Add { dst: arm64_of(dst), src1: arm64_of(src1), src2: reg },
                ),
                Operand::Immediate(imm) => Instruction::Arithmetic(
                    ArithmeticOp::AddImm { dst: arm64_of(dst), src1: arm64_of(src1), imm },
                ),
            },
            *final(self) == *final(r),
    {
        self.arch.add(Arm64Register::from(dst), Arm64Register::from(src1), lower(src2));
        self.attach_comment();
        self
    }

    /// Appends `sub dst, src1, src2`.
    pub fn sub(&mut self, dst: GenericRegister, src1: GenericRegister, src2: GenericRegister) -> (r: &mut Self)
        requires
            old(self).arch.wf(),
        ensures
            emits_one(*old(self), *r),
            r.arch.instrs().last() == Instruction::Arithmetic(
                ArithmeticOp::Sub { dst: arm64_of(dst), src1: arm64_of(src1), src2: arm64_of(src2) },
            ),
            *final(self) == *final(r),
    {
        self.arch.sub(Arm64Register::from(dst), Arm64Register::from(src1), Arm64Register::from(src2));
        self.attach_comment();
        self
    }

    /// Appends `mul dst, src1, src2`.
    pub fn mul(&mut self, dst: GenericRegister, src1: GenericRegister, src2: GenericRegister) -> (r: &mut Self)
        requires
            old(self).arch.wf(),
        ensures
            emits_one(*old(self), *r),
            r.arch.instrs().last() == Instruction::Arithmetic(
                ArithmeticOp::Mul { dst: arm64_of(dst), src1: arm64_of(src1), src2: arm64_of(src2) },
            ),
            *final(self) == *final(r),
    {
        self.arch.mul(Arm64Register::from(dst), Arm64Register::from(src1), Arm64Register::from(src2));
        self.attach_comment();
        self
    }

    /// Appends `fadd dst, src1, src2`.
    pub fn fadd(&mut self, dst: GenericRegister, src1: GenericRegister, src2: GenericRegister) -> (r: &mut Self)
        requires
            old(self).arch.wf(),
        ensures
            emits_one(*old(self), *r),
            r.arch.instrs().last() == Instruction::Arithmetic(
                ArithmeticOp::Fadd { dst: arm64_of(dst), src1: arm64_of(src1), src2: arm64_of(src2) },
            ),
            *final(self) == *final(r),
    {
        self.arch.fadd(Arm64Register::from(dst), Arm64Register::from(src1), Arm64Register::from(src2));
        self.attach_comment();
        self
    }

    /// Appends a move, lowered to the single instruction `add dst, src, xzr`.
    pub fn mov(&mut self, dst: GenericRegister, src: GenericRegister) -> (r: &mut Self)
        requires
            old(self).arch.wf(),
        ensures
            emits_one(*old(self), *r),
            r.arch.instrs().last() == Instruction::Arithmetic(
                ArithmeticOp::Add { dst: arm64_of(dst), src1: arm64_of(src), src2: Arm64Register::XZR },
            ),
            *final(self) == *final(r),
    {
        self.arch.mov(Arm64Register::from(dst), Arm64Register::from(src));
        self.attach_comment();
        self
    }

    /// Appends `ret`.
    pub fn ret(&mut self) -> (r: &mut Self)
        requires
            old(self).arch.wf(),
        ensures
            emits_one(*old(self), *r),
            r.arch.instrs().last() == Instruction::Branch(BranchOp::Ret),
            *final(self) == *final(r),
    {
        self.arch.ret();
        self.attach_comment();
        self
    }

    /// Appends a call, `bl label`.
    pub fn bl(&mut self, label: &str) -> (r: &mut Self)
        requires
            old(self).arch.wf(),
        ensures
            emits_one(*old(self), *r),
            r.arch.instrs().last() matches Instruction::Branch(BranchOp::Bl { label: l }) && l@ == label@,
            *final(self) == *final(r),
    {
        self.arch.bl(label);
        self.attach_comment();
        self
    }

    /// Appends a branch, `b label`.
    pub fn b(&mut self, label: &str) -> (r: &mut Self)
        requires
            old(self).arch.wf(),
        ensures
            emits_one(*old(self), *r),
            r.arch.instrs().last() matches Instruction::Branch(BranchOp::B { label: l }) && l@ == label@,
            *final(self) == *final(r),
    {
        self.arch.b(label);
        self.attach_comment();
        self
    }

    /// Appends `cbz reg, label`.
    pub fn cbz(&mut self, reg: GenericRegister, label: &str) -> (r: &mut Self)
        requires
            old(self).arch.wf(),
        ensures
            emits_one(*old(self), *r),
            r.arch.instrs().last() matches Instruction::Branch(BranchOp::Cbz { reg: x, label: l }) && x == arm64_of(reg) && l@ == label@,
            *final(self) == *final(r),
    {
        self.arch.cbz(Arm64Register::from(reg), label);
        self.attach_comment();
        self
    }

    /// Appends a store of `src` to the address operand `addr`.
    pub fn str(&mut self, src: GenericRegister, addr: &str) -> (r: &mut Self)
        requires
            old(self).arch.wf(),
        ensures
            emits_one(*old(self), *r),
            r.arch.instrs().last() matches Instruction::LoadStore(LoadStoreOp::Str { src: x, dst: a }) && x == arm64_of(src) && a@ == addr@,
            *final(self) == *final(r),
    {
        self.arch.str(Arm64Register::from(src), addr);
        self.attach_comment();
        self
    }

    /// Appends a load into `dst` from the address operand `addr`.
    pub fn ldr(&mut self, dst: GenericRegister, addr: &str) -> (r: &mut Self)
        requires
            old(self).arch.wf(),
        ensures
            emits_one(*old(self), *r),
            r.arch.instrs().last() matches Instruction::LoadStore(LoadStoreOp::Ldr { dst: x, src: a }) && x == arm64_of(dst) && a@ == addr@,
            *final(self) == *final(r),
    {
        self.arch.ldr(Arm64Register::from(dst), addr);
        self.attach_comment();
        self
    }

    /// Appends `adrp dst, label@PAGE`.
    pub fn adrp(&mut self, dst: GenericRegister, label: &str) -> (r: &mut Self)
        requires
            old(self).arch.wf(),
        ensures
            emits_one(*old(self), *r),
            r.arch.instrs().last() matches Instruction::Address(AddressOp::Adrp { dst: x, label: l }) && x == arm64_of(dst) && l@ == label@,
            *final(self) == *final(r),
    {
        self.arch.adrp(Arm64Register::from(dst), label);
        self.attach_comment();
        self
    }

    /// Appends the page of `label` into `base` and its address into `dst`.
    pub fn adrp_add(&mut self, dst: GenericRegister, base: GenericRegister, label: &str) -> (r: &mut Self)
        requires
            old(self).arch.wf(),
        ensures
            emits_one(*old(self), *r),
            r.arch.instrs().last() matches Instruction::Address(AddressOp::AdrpAdd { dst: x, base: y, label: l }) && x == arm64_of(dst) && y == arm64_of(base) && l@ == label@,
            *final(self) == *final(r),
    {
        self.arch.adrp_add(Arm64Register::from(dst), Arm64Register::from(base), label);
        self.attach_comment();
        self
    }
}

/// Lowers the register of a generic operand to ARM64.
fn lower(o: Operand<GenericRegister>) -> (r: Operand<Arm64Register>)
    ensures
        r == lower_operand(o),
{
    match o {
        Operand::Register(g) => Operand::Register(Arm64Register::from(g)),
        Operand::Immediate(i) => Operand::Immediate(i),
    }
}

} // verus!
