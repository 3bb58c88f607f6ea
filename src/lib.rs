pub mod arch;
pub mod arm64;
pub mod builder;
pub mod compiler;
pub mod context;
pub mod instruction;
pub mod ir;
pub mod macos_arm64;
pub mod platform;
pub mod program;
pub mod text;
pub mod x86_64;

use crate::ir::{LabelModifier, SymbolRef};
use crate::text::{escaped, push_escaped};
use vstd::prelude::*;
use vstd::string::*;

verus! {

/// A program in the neutral form that a `Target` renders: directives, then
/// sections, each in order.
#[derive(Debug)]
pub struct Program {
    pub directives: Vec<Directive>,
    pub sections: Vec<Section>,
}

impl Program {
    /// Appends a section and hands it back for filling.
    pub fn section(&mut self, section: Section) -> (r: &mut Section)
        ensures
            *r == section,
            final(self).directives == old(self).directives,
            final(self).sections@ == old(self).sections@.push(*final(r)),
    {
        self.sections.push(section);
        let last = self.sections.len() - 1;
        &mut self.sections[last]
    }

    /// Appends a directive.
    pub fn directive(&mut self, directive: Directive)
        ensures
            final(self).directives@ == old(self).directives@.push(directive),
            final(self).sections == old(self).sections,
    {
        self.directives.push(directive);
    }
}

/// Symbol directives.
#[derive(Debug)]
pub enum Directive {
    Global(String),
    Extern(String),
}

/// The error for a label added to a section of the other kind.
#[derive(Debug, Clone, Copy, PartialEq, Eq, Structural)]
pub enum SectionKindError {
    /// A string literal was added to a code section.
    StringInTextSection,
    /// A code block was added to a data section.
    BlockInDataSection,
}

/// A section holds data or code, never both.
#[derive(Debug)]
pub enum Section {
    Data(DataSection),
    Text(TextSection),
}

impl Section {
    /// Adds a string literal to a data section and returns a copy of it; a
    /// code section refuses it and is left unchanged.
    pub fn add_string(&mut self, label: String, value: String) -> (r: Result<StringData, SectionKindError>)
        ensures
            *old(self) is Text ==> {
                &&& r == Err::<StringData, SectionKindError>(SectionKindError::StringInTextSection)
                &&& *final(self) == *old(self)
            },
            *old(self) is Data ==> {
                &&& r matches Ok(s) && s.label@ == label@ && s.value@ == value@
                &&& *final(self) is Data
                &&& (*final(self))->Data_0.strings@ == (*old(self))->Data_0.strings@.push(
                    (*final(self))->Data_0.strings@.last(),
                )
                &&& (*final(self))->Data_0.strings@.last().label@ == label@
                &&& (*final(self))->Data_0.strings@.last().value@ == value@
            },
    {
        match self {
            Section::Data(data_section) => Ok(data_section.add_string(label, value)),
            Section::Text(_) => Err(SectionKindError::StringInTextSection),
        }
    }

    /// Adds an empty code block to a code section and hands it back for
    /// filling; a data section refuses it and is left unchanged.
    pub fn add_block(&mut self, name: String) -> (r: Result<&mut Block, SectionKindError>)
        ensures
            *old(self) is Data ==> {
                &&& r is Err
                &&& r matches Err(e) && e == SectionKindError::BlockInDataSection
                &&& *final(self) == *old(self)
            },
            *old(self) is Text ==> {
                &&& r matches Ok(b) && b.name@ == name@ && b.instructions@.len() == 0
                    && *final(self) is Text && (*final(self))->Text_0.blocks@ == (*old(self))->Text_0.blocks@.push(*final(b))
            },
    {
        match self {
            Section::Text(text_section) => Ok(text_section.add_block(name)),
            Section::Data(_) => Err(SectionKindError::BlockInDataSection),
        }
    }
}

/// A data section: string literals, in order.
#[derive(Debug)]
pub struct DataSection {
    pub strings: Vec<StringData>,
}

impl DataSection {
    /// Appends a string literal and returns a copy of it.
    pub fn add_string(&mut self, label: String, value: String) -> (r: StringData)
        ensures
            r.label@ == label@,
            r.value@ == value@,
            final(self).strings@ == old(self).strings@.push(final(self).strings@.last()),
            final(self).strings@.last().label@ == label@,
            final(self).strings@.last().value@ == value@,
    {
        let copy = StringData { label: label.clone(), value: value.clone() };
        self.strings.push(StringData { label, value });
        copy
    }
}

/// A labelled string literal.
#[derive(Debug)]
pub struct StringData {
    pub label: String,
    pub value: String,
}

impl StringData {
    /// The label's page, for `adrp`.
    pub fn page(&self) -> (r: SymbolRef)
        ensures
            r.name@ == self.label@,
            r.modifier == Some(LabelModifier::Page),
    {
        SymbolRef { name: self.label.clone(), modifier: Some(LabelModifier::Page) }
    }

    /// The label's offset within its page, for `add`.
    pub fn page_off(&self) -> (r: SymbolRef)
        ensures
            r.name@ == self.label@,
            r.modifier == Some(LabelModifier::PageOff),
    {
        SymbolRef { name: self.label.clone(), modifier: Some(LabelModifier::PageOff) }
    }
}

/// A code section: blocks, in order.
#[derive(Debug)]
pub struct TextSection {
    pub blocks: Vec<Block>,
}

impl TextSection {
    /// Appends an empty block and hands it back for filling.
    pub fn add_block(&mut self, name: String) -> (r: &mut Block)
        ensures
            r.name@ == name@,
            r.instructions@.len() == 0,
            final(self).blocks@ == old(self).blocks@.push(*final(r)),
    {
        self.blocks.push(Block { name, instructions: Vec::new() });
        let last = self.blocks.len() - 1;
        &mut self.blocks[last]
    }
}

/// A code label and its instructions, in order.
#[derive(Debug)]
pub struct Block {
    pub name: String,
    pub instructions: Vec<Ins>,
}

impl Block {
    /// Appends an instruction.
    pub fn ins(&mut self, instruction: Ins)
        ensures
            final(self).name == old(self).name,
            final(self).instructions@ == old(self).instructions@.push(instruction),
    {
        self.instructions.push(instruction);
    }
}

/// Neutral instructions. Symbols carry their relocation modifier apart from
/// their text.
#[derive(Debug)]
#[allow(inconsistent_fields)]
pub enum Ins {
    Adrp { dest: String, symbol: SymbolRef },
    Add { dest: String, src: String, symbol: SymbolRef },
    Mov { dest: String, src: Operand },
    Bl { symbol: String },
    Call { symbol: String },
    Ret,
    Nop,
}

/// The source of a move.
#[derive(Debug)]
pub enum Operand {
    Register(String),
    Immediate(i64),
    Symbol(String),
}

/// The error for an instruction that a target cannot render.
#[derive(Debug, Clone, Copy, PartialEq, Eq, Structural)]
pub enum RenderError {
    /// The target has no spelling for this relocation modifier.
    UnsupportedModifier(LabelModifier),
}

/// A target dialect: how it spells directives, instructions and section
/// headers.
pub trait Target: Sized {
    spec fn directive_spec(&self, directive: Directive) -> Seq<char>;

    /// The instruction's text, or the reason the target cannot render it.
    spec fn instruction_spec(&self, instruction: Ins) -> Result<Seq<char>, RenderError>;

    spec fn data_section_spec(&self) -> Seq<char>;

    spec fn text_section_spec(&self) -> Seq<char>;

    fn compile_directive(&self, directive: &Directive) -> (r: String)
        ensures
            r@ == self.directive_spec(*directive),
    ;

    fn compile_instruction(&self, instruction: &Ins) -> (r: Result<String, RenderError>)
        ensures
            match r {
                Ok(s) => self.instruction_spec(*instruction) == Ok::<Seq<char>, RenderError>(s@),
                Err(e) => self.instruction_spec(*instruction) == Err::<Seq<char>, RenderError>(e),
            },
    ;

    fn section_data_directive(&self) -> (r: String)
        ensures
            r@ == self.data_section_spec(),
    ;

    fn section_text_directive(&self) -> (r: String)
        ensures
            r@ == self.text_section_spec(),
    ;
}

/// A register of a target, with its spelling.
pub trait Register: Sized {
    spec fn spec_name(&self) -> Seq<char>;

    fn name(&self) -> (r: &'static str)
        ensures
            r@ == self.spec_name(),
    ;
}

/// One line per directive, in order.
pub open spec fn directives_text<T: Target>(t: T, ds: Seq<Directive>) -> Seq<char> {
    Seq::new(ds.len(), |k: int| t.directive_spec(ds[k]) + "\n"@).flatten()
}

/// A data label line: the label, `.asciz` and the value escaped in quotes.
pub open spec fn string_line(s: StringData) -> Seq<char> {
    s.label@ + ":.asciz \""@ + escaped(s.value@) + "\"\n"@
}

pub open spec fn strings_text(ss: Seq<StringData>) -> Seq<char> {
    Seq::new(ss.len(), |k: int| string_line(ss[k])).flatten()
}

/// One indented line per instruction, or the first instruction's error.
pub open spec fn body_text<T: Target>(t: T, is: Seq<Ins>) -> Result<Seq<char>, RenderError>
    decreases is.len(),
{
    if is.len() == 0 {
        Ok(Seq::empty())
    } else {
        match body_text(t, is.drop_last()) {
            Err(e) => Err(e),
            Ok(s) => match t.instruction_spec(is.last()) {
                Err(e) => Err(e),
                Ok(x) => Ok(s + "    "@ + x + "\n"@),
            },
        }
    }
}

/// The block's label line, then its instructions.
pub open spec fn block_text<T: Target>(t: T, b: Block) -> Result<Seq<char>, RenderError> {
    match body_text(t, b.instructions@) {
        Ok(s) => Ok(b.name@ + ":\n"@ + s),
        Err(e) => Err(e),
    }
}

pub open spec fn blocks_text<T: Target>(t: T, bs: Seq<Block>) -> Result<Seq<char>, RenderError>
    decreases bs.len(),
{
    if bs.len() == 0 {
        Ok(Seq::empty())
    } else {
        match blocks_text(t, bs.drop_last()) {
            Err(e) => Err(e),
            Ok(s) => match block_text(t, bs.last()) {
                Err(e) => Err(e),
                Ok(x) => Ok(s + x),
            },
        }
    }
}

/// A blank line, the section header, then the section's labels.
pub open spec fn section_text<T: Target>(t: T, s: Section) -> Result<Seq<char>, RenderError> {
    match s {
        Section::Data(d) => Ok("\n"@ + t.data_section_spec() + "\n"@ + strings_text(d.strings@)),
        Section::Text(x) => match blocks_text(t, x.blocks@) {
            Ok(b) => Ok("\n"@ + t.text_section_spec() + "\n"@ + b),
            Err(e) => Err(e),
        },
    }
}

pub open spec fn sections_text<T: Target>(t: T, ss: Seq<Section>) -> Result<Seq<char>, RenderError>
    decreases ss.len(),
{
    if ss.len() == 0 {
        Ok(Seq::empty())
    } else {
        match sections_text(t, ss.drop_last()) {
            Err(e) => Err(e),
            Ok(s) => match section_text(t, ss.last()) {
                Err(e) => Err(e),
                Ok(x) => Ok(s + x),
            },
        }
    }
}

/// The whole program: directives first, then the sections.
pub open spec fn compiled<T: Target>(t: T, p: Program) -> Result<Seq<char>, RenderError> {
    match sections_text(t, p.sections@) {
        Ok(x) => Ok(directives_text(t, p.directives@) + x),
        Err(e) => Err(e),
    }
}

/// The indented line of one instruction that renders.
pub open spec fn ins_line<T: Target>(t: T, i: Ins) -> Seq<char> {
    "    "@ + t.instruction_spec(i)->Ok_0 + "\n"@
}

/// When every instruction renders, a block's body is exactly one indented
/// line per instruction, in list order: none dropped, repeated or moved.
pub proof fn lemma_body_lines<T: Target>(t: T, is: Seq<Ins>)
    requires
        forall|i: int| 0 <= i < is.len() ==> t.instruction_spec(#[trigger] is[i]) is Ok,
    ensures
        body_text(t, is) == Ok::<Seq<char>, RenderError>(
            Seq::new(is.len(), |i: int| ins_line(t, is[i])).flatten(),
        ),
    decreases is.len(),
{
    if is.len() == 0 {
        assert(Seq::new(0, |i: int| ins_line(t, is[i])) =~= Seq::<Seq<char>>::empty());
    } else {
        let front = is.drop_last();
        assert forall|i: int| 0 <= i < front.len() implies t.instruction_spec(#[trigger] front[i]) is Ok by {
            assert(front[i] == is[i]);
        }
        lemma_body_lines(t, front);
        let lines = Seq::new(front.len(), |i: int| ins_line(t, front[i]));
        assert(Seq::new(is.len(), |i: int| ins_line(t, is[i])) =~= lines.push(ins_line(t, is.last())));
        lines.lemma_flatten_push(ins_line(t, is.last()));
        assert(t.instruction_spec(is[is.len() - 1]) is Ok);
        assert(body_text(t, is)->Ok_0 =~= lines.flatten() + ins_line(t, is.last()));
    }
}

proof fn lemma_body_err<T: Target>(t: T, is: Seq<Ins>, k: int)
    requires
        0 <= k <= is.len(),
        body_text(t, is.take(k)) is Err,
    ensures
        body_text(t, is) == body_text(t, is.take(k)),
    decreases is.len() - k,
{
    if k < is.len() {
        assert(is.take(k + 1).drop_last() =~= is.take(k));
        lemma_body_err(t, is, k + 1);
    } else {
        assert(is.take(k) =~= is);
    }
}

proof fn lemma_blocks_err<T: Target>(t: T, bs: Seq<Block>, k: int)
    requires
        0 <= k <= bs.len(),
        blocks_text(t, bs.take(k)) is Err,
    ensures
        blocks_text(t, bs) == blocks_text(t, bs.take(k)),
    decreases bs.len() - k,
{
    if k < bs.len() {
        assert(bs.take(k + 1).drop_last() =~= bs.take(k));
        lemma_blocks_err(t, bs, k + 1);
    } else {
        assert(bs.take(k) =~= bs);
    }
}

proof fn lemma_sections_err<T: Target>(t: T, ss: Seq<Section>, k: int)
    requires
        0 <= k <= ss.len(),
        sections_text(t, ss.take(k)) is Err,
    ensures
        sections_text(t, ss) == sections_text(t, ss.take(k)),
    decreases ss.len() - k,
{
    if k < ss.len() {
        assert(ss.take(k + 1).drop_last() =~= ss.take(k));
        lemma_sections_err(t, ss, k + 1);
    } else {
        assert(ss.take(k) =~= ss);
    }
}

/// Renders programs for one target.
#[derive(Debug)]
pub struct Compiler<T: Target> {
    target: T,
}

impl<T: Target> Compiler<T> {
    /// The target that this compiler renders for.
    pub closed spec fn spec_target(&self) -> T {
        self.target
    }

    pub fn new(target: T) -> (r: Self)
        ensures
            r.spec_target() == target,
    {
        Self { target }
    }

    fn compile_block(&self, b: &Block, out: &mut String) -> (r: Result<(), RenderError>)
        ensures
            match block_text(self.target, *b) {
                Ok(x) => r is Ok && final(out)@ == old(out)@ + x,
                Err(e) => r == Err::<(), RenderError>(e),
            },
    {
        out.append(b.name.as_str());
        out.append(":\n");
        let ghost start = out@;
        let ghost is = b.instructions@;
        let n = b.instructions.len();
        let mut k: usize = 0;
        assert(is.take(0) =~= Seq::<Ins>::empty());
        assert(out@.subrange(start.len() as int, out@.len() as int) =~= Seq::<char>::empty());
        assert(out@.subrange(0, start.len() as int) =~= start);
        while k < n
            invariant
                n == is.len(),
                is == b.instructions@,
                k <= n,
                start == old(out)@ + b.name@ + ":\n"@,
                body_text(self.target, is.take(k as int)) == Ok::<Seq<char>, RenderError>(out@.subrange(start.len() as int, out@.len() as int)),
                out@.len() >= start.len(),
                out@.subrange(0, start.len() as int) == start,
            decreases n - k,
        {
            let ghost before = out@;
            assert(is.take(k + 1).drop_last() =~= is.take(k as int));
            assert(is.take(k + 1).last() == is[k as int]);
            match self.target.compile_instruction(&b.instructions[k]) {
                Ok(x) => {
                    out.append("    ");
                    out.append(x.as_str());
                    out.append("\n");
                    assert(out@.subrange(start.len() as int, out@.len() as int) =~= before.subrange(
                        start.len() as int,
                        before.len() as int,
                    ) + "    "@ + x@ + "\n"@);
                    assert(out@.subrange(0, start.len() as int) =~= before.subrange(0, start.len() as int));
                },
                Err(e) => {
                    proof {
                        assert(self.target.instruction_spec(is[k as int]) == Err::<Seq<char>, RenderError>(e));
                        assert(body_text(self.target, is.take(k + 1)) == Err::<Seq<char>, RenderError>(e));
                        lemma_body_err(self.target, is, k + 1);
                        assert(body_text(self.target, is) == Err::<Seq<char>, RenderError>(e));
                    }
                    return Err(e);
                },
            }
            k = k + 1;
        }
        assert(is.take(n as int) =~= is);
        assert(out@ =~= start + out@.subrange(start.len() as int, out@.len() as int));
        Ok(())
    }

    fn compile_section(&self, section: &Section, out: &mut String) -> (r: Result<(), RenderError>)
        ensures
            match section_text(self.target, *section) {
                Ok(x) => r is Ok && final(out)@ == old(out)@ + x,
                Err(e) => r == Err::<(), RenderError>(e),
            },
    {
        out.append("\n");
        match section {
            Section::Data(data_section) => {
                let h = self.target.section_data_directive();
                out.append(h.as_str());
                out.append("\n");
                let ghost start = out@;
                let ghost ss = data_section.strings@;
                let n = data_section.strings.len();
                let mut k: usize = 0;
                while k < n
                    invariant
                        n == ss.len(),
                        ss == data_section.strings@,
                        k <= n,
                        out@ == start + strings_text(ss.take(k as int)),
                    decreases n - k,
                {
                    proof {
                        let lines = Seq::new(k as nat, |j: int| string_line(ss.take(k as int)[j]));
                        assert(Seq::new((k + 1) as nat, |j: int| string_line(ss.take(k + 1)[j])) =~= lines.push(
                            string_line(ss[k as int]),
                        ));
                        lines.lemma_flatten_push(string_line(ss[k as int]));
                    }
                    let sd = &data_section.strings[k];
                    out.append(sd.label.as_str());
                    out.append(":.asciz \"");
                    push_escaped(out, sd.value.as_str());
                    out.append("\"\n");
                    k = k + 1;
                    assert(out@ =~= start + strings_text(ss.take(k as int)));
                }
                assert(ss.take(n as int) =~= ss);
                assert(out@ =~= old(out)@ + ("\n"@ + self.target.data_section_spec() + "\n"@ + strings_text(ss)));
                Ok(())
            },
            Section::Text(text_section) => {
                let h = self.target.section_text_directive();
                out.append(h.as_str());
                out.append("\n");
                let ghost start = out@;
                let ghost bs = text_section.blocks@;
                let n = text_section.blocks.len();
                let mut k: usize = 0;
                assert(bs.take(0) =~= Seq::<Block>::empty());
                assert(out@.subrange(start.len() as int, out@.len() as int) =~= Seq::<char>::empty());
                assert(out@.subrange(0, start.len() as int) =~= start);
                while k < n
                    invariant
                        n == bs.len(),
                        bs == text_section.blocks@,
                        *section is Text,
                        (*section)->Text_0.blocks@ == bs,
                        k <= n,
                        blocks_text(self.target, bs.take(k as int)) == Ok::<Seq<char>, RenderError>(out@.subrange(start.len() as int, out@.len() as int)),
                        out@.len() >= start.len(),
                        out@.subrange(0, start.len() as int) == start,
                    decreases n - k,
                {
                    let ghost before = out@;
                    assert(bs.take(k + 1).drop_last() =~= bs.take(k as int));
                    assert(bs.take(k + 1).last() == bs[k as int]);
                    match self.compile_block(&text_section.blocks[k], out) {
                        Ok(()) => {
                            assert(block_text(self.target, bs[k as int]) is Ok);
                            assert(out@ == before + block_text(self.target, bs[k as int])->Ok_0);
                            assert(out@.subrange(start.len() as int, out@.len() as int) =~= before.subrange(
                                start.len() as int,
                                before.len() as int,
                            ) + block_text(self.target, bs[k as int])->Ok_0);
                            assert(out@.subrange(0, start.len() as int) =~= before.subrange(0, start.len() as int));
                        },
                        Err(e) => {
                            proof {
                                assert(block_text(self.target, bs[k as int]) == Err::<Seq<char>, RenderError>(e));
                                assert(blocks_text(self.target, bs.take(k + 1)) == Err::<Seq<char>, RenderError>(e));
                                lemma_blocks_err(self.target, bs, k + 1);
                                assert(blocks_text(self.target, bs) == Err::<Seq<char>, RenderError>(e));
                                assert(section_text(self.target, *section) == Err::<Seq<char>, RenderError>(e));
                            }
                            return Err(e);
                        },
                    }
                    k = k + 1;
                }
                assert(bs.take(n as int) =~= bs);
                assert(out@ =~= start + out@.subrange(start.len() as int, out@.len() as int));
                assert(out@ =~= old(out)@ + ("\n"@ + self.target.text_section_spec() + "\n"@ + blocks_text(self.target, bs)->Ok_0));
                Ok(())
            },
        }
    }

    /// Renders the program: each directive on its own line, in order; then
    /// each section, in order, with a blank line and its header before its
    /// labels, data values escaped inside their quotes. An instruction that the
    /// target cannot render is an error.
    pub fn compile(&self, program: &Program) -> (r: Result<String, RenderError>)
        ensures
            match r {
                Ok(s) => compiled(self.spec_target(), *program) == Ok::<Seq<char>, RenderError>(s@),
                Err(e) => compiled(self.spec_target(), *program) == Err::<Seq<char>, RenderError>(e),
            },
    {
        let mut out = String::new();
        let ghost ds = program.directives@;
        let n = program.directives.len();
        let mut k: usize = 0;
        while k < n
            invariant
                n == ds.len(),
                ds == program.directives@,
                k <= n,
                out@ == directives_text(self.target, ds.take(k as int)),
            decreases n - k,
        {
            proof {
                let lines = Seq::new(k as nat, |j: int| self.target.directive_spec(ds.take(k as int)[j]) + "\n"@);
                assert(Seq::new((k + 1) as nat, |j: int| self.target.directive_spec(ds.take(k + 1)[j]) + "\n"@) =~= lines.push(
                    self.target.directive_spec(ds[k as int]) + "\n"@,
                ));
                lines.lemma_flatten_push(self.target.directive_spec(ds[k as int]) + "\n"@);
            }
            let d = self.target.compile_directive(&program.directives[k]);
            out.append(d.as_str());
            out.append("\n");
            k = k + 1;
            assert(out@ =~= directives_text(self.target, ds.take(k as int)));
        }
        assert(ds.take(n as int) =~= ds);
        let ghost start = out@;
        let ghost ss = program.sections@;
        let m = program.sections.len();
        let mut k: usize = 0;
        assert(ss.take(0) =~= Seq::<Section>::empty());
        assert(out@.subrange(start.len() as int, out@.len() as int) =~= Seq::<char>::empty());
        assert(out@.subrange(0, start.len() as int) =~= start);
        while k < m
            invariant
                m == ss.len(),
                ss == program.sections@,
                k <= m,
                start == directives_text(self.target, ds),
                sections_text(self.target, ss.take(k as int)) == Ok::<Seq<char>, RenderError>(out@.subrange(start.len() as int, out@.len() as int)),
                out@.len() >= start.len(),
                out@.subrange(0, start.len() as int) == start,
            decreases m - k,
        {
            let ghost before = out@;
            assert(ss.take(k + 1).drop_last() =~= ss.take(k as int));
            assert(ss.take(k + 1).last() == ss[k as int]);
            match self.compile_section(&program.sections[k], &mut out) {
                Ok(()) => {
                    assert(section_text(self.target, ss[k as int]) is Ok);
                    assert(out@ == before + section_text(self.target, ss[k as int])->Ok_0);
                    assert(out@.subrange(start.len() as int, out@.len() as int) =~= before.subrange(
                        start.len() as int,
                        before.len() as int,
                    ) + section_text(self.target, ss[k as int])->Ok_0);
                    assert(out@.subrange(0, start.len() as int) =~= before.subrange(0, start.len() as int));
                },
                Err(e) => {
                    proof {
                        assert(section_text(self.target, ss[k as int]) == Err::<Seq<char>, RenderError>(e));
                        assert(sections_text(self.target, ss.take(k + 1)) == Err::<Seq<char>, RenderError>(e));
                        lemma_sections_err(self.target, ss, k + 1);
                    }
                    return Err(e);
                },
            }
            k = k + 1;
        }
        assert(ss.take(m as int) =~= ss);
        assert(out@ =~= start + out@.subrange(start.len() as int, out@.len() as int));
        Ok(out)
    }
}

} // verus!
