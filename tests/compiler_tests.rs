use asm_builder::arm64::ARM64Target;
use asm_builder::compiler::{CompileError, Compiler as Toolchain, CompilerOptions};
use asm_builder::ir::{LabelModifier, SymbolRef};
use asm_builder::x86_64::X86Target;
use asm_builder::{
    Compiler, DataSection, Directive, Ins, Operand, Program, RenderError, Section, SectionKindError, TextSection,
};

fn hello_program() -> Program {
    let mut program = Program { directives: Vec::new(), sections: Vec::new() };
    program.directive(Directive::Global("_start".to_string()));
    program.directive(Directive::Extern("_printf".to_string()));
    program.directive(Directive::Extern("_exit".to_string()));
    let data = program.section(Section::Data(DataSection { strings: Vec::new() }));
    let msg = data.add_string("msg".to_string(), "Hello, world!\n".to_string()).unwrap();
    let text = program.section(Section::Text(TextSection { blocks: Vec::new() }));
    let block = text.add_block("_start".to_string()).unwrap();
    block.ins(Ins::Adrp { dest: "x0".to_string(), symbol: msg.page() });
    block.ins(Ins::Add { dest: "x0".to_string(), src: "x0".to_string(), symbol: msg.page_off() });
    block.ins(Ins::Bl { symbol: "_printf".to_string() });
    block.ins(Ins::Mov { dest: "x0".to_string(), src: Operand::Immediate(0) });
    block.ins(Ins::Bl { symbol: "_exit".to_string() });
    program
}

#[test]
fn hello_world_renders_for_arm64_macos() {
    let program = hello_program();
    let out = Compiler::new(ARM64Target).compile(&program).unwrap();
    assert_eq!(
        out,
        ".global _start\n.extern _printf\n.extern _exit\n\n.section __DATA,__data\nmsg:.asciz \"Hello, world!\\n\"\n\n.section __TEXT,__text\n_start:\n    adrp x0, msg@PAGE\n    add x0, x0, msg@PAGEOFF\n    bl _printf\n    mov x0, #0\n    bl _exit\n"
    );
}

#[test]
fn rendering_twice_gives_the_same_text() {
    let program = hello_program();
    let compiler = Compiler::new(ARM64Target);
    assert_eq!(compiler.compile(&program).unwrap(), compiler.compile(&program).unwrap());
}

#[test]
fn x86_refuses_relocation_modifiers() {
    let program = hello_program();
    let r = Compiler::new(X86Target).compile(&program);
    assert_eq!(r, Err(RenderError::UnsupportedModifier(LabelModifier::Page)));
}

#[test]
fn x86_renders_its_own_dialect() {
    let mut program = Program { directives: Vec::new(), sections: Vec::new() };
    program.directive(Directive::Global("main".to_string()));
    program.directive(Directive::Extern("puts".to_string()));
    let text = program.section(Section::Text(TextSection { blocks: Vec::new() }));
    let block = text.add_block("main".to_string()).unwrap();
    block.ins(Ins::Adrp { dest: "rdi".to_string(), symbol: SymbolRef { name: "msg".to_string(), modifier: None } });
    block.ins(Ins::Add {
        dest: "rax".to_string(),
        src: "rbx".to_string(),
        symbol: SymbolRef { name: "off".to_string(), modifier: None },
    });
    block.ins(Ins::Mov { dest: "rax".to_string(), src: Operand::Immediate(-1) });
    block.ins(Ins::Mov { dest: "rax".to_string(), src: Operand::Symbol("val".to_string()) });
    block.ins(Ins::Call { symbol: "puts".to_string() });
    block.ins(Ins::Nop);
    block.ins(Ins::Ret);
    assert_eq!(
        Compiler::new(X86Target).compile(&program).unwrap(),
        "global main\nextern puts\n\nsection .text\nmain:\n    lea rdi, [msg]\n    lea rax, [rbx + off]\n    mov rax, -1\n    mov rax, [val]\n    call puts\n    nop\n    ret\n"
    );
}

#[test]
fn arm64_spells_every_modifier() {
    let mut program = Program { directives: Vec::new(), sections: Vec::new() };
    let text = program.section(Section::Text(TextSection { blocks: Vec::new() }));
    let block = text.add_block("f".to_string()).unwrap();
    block.ins(Ins::Adrp {
        dest: "x0".to_string(),
        symbol: SymbolRef { name: "v".to_string(), modifier: Some(LabelModifier::Lo12) },
    });
    block.ins(Ins::Adrp {
        dest: "x0".to_string(),
        symbol: SymbolRef { name: "v".to_string(), modifier: Some(LabelModifier::Hi20) },
    });
    block.ins(Ins::Mov { dest: "x1".to_string(), src: Operand::Register("x2".to_string()) });
    block.ins(Ins::Call { symbol: "g".to_string() });
    block.ins(Ins::Nop);
    block.ins(Ins::Ret);
    assert_eq!(
        Compiler::new(ARM64Target).compile(&program).unwrap(),
        "\n.section __TEXT,__text\nf:\n    adrp x0, :lo12:v\n    adrp x0, :hi20:v\n    mov x1, x2\n    bl g\n    nop\n    ret\n"
    );
}

#[test]
fn string_in_text_section_is_rejected() {
    let mut section = Section::Text(TextSection { blocks: Vec::new() });
    let r = section.add_string("msg".to_string(), "hi".to_string());
    assert!(matches!(r, Err(SectionKindError::StringInTextSection)));
    match section {
        Section::Text(t) => assert_eq!(t.blocks.len(), 0),
        Section::Data(_) => panic!("section kind changed"),
    }
}

#[test]
fn block_in_data_section_is_rejected() {
    let mut section = Section::Data(DataSection { strings: Vec::new() });
    let r = section.add_block("main".to_string());
    assert!(matches!(r, Err(SectionKindError::BlockInDataSection)));
    match section {
        Section::Data(d) => assert_eq!(d.strings.len(), 0),
        Section::Text(_) => panic!("section kind changed"),
    }
}

#[test]
fn string_data_keeps_the_modifier_apart() {
    let mut data = DataSection { strings: Vec::new() };
    let s = data.add_string("msg".to_string(), "x".to_string());
    let p = s.page();
    assert_eq!(p.name, "msg");
    assert_eq!(p.modifier, Some(LabelModifier::Page));
    let q = s.page_off();
    assert_eq!(q.name, "msg");
    assert_eq!(q.modifier, Some(LabelModifier::PageOff));
}

#[test]
fn toolchain_arguments() {
    let t = Toolchain::new(CompilerOptions::default());
    assert_eq!(
        t.assembler_args("hello.s", "hello.o"),
        vec!["-o", "hello.o", "hello.s", "-arch", "arm64", "--target", "arm64-apple-macos11.0"]
    );
    assert_eq!(
        t.linker_args("hello.o", "hello"),
        vec![
            "-o",
            "hello",
            "hello.o",
            "-lSystem",
            "-syslibroot",
            "/Library/Developer/CommandLineTools/SDKs/MacOSX.sdk",
            "-macos_version_min",
            "11.0",
            "-e",
            "_start",
        ]
    );
}

#[test]
fn toolchain_phase_results() {
    assert!(Toolchain::phase_result(true, true, String::new()).is_ok());
    match Toolchain::phase_result(true, false, "bad opcode".to_string()) {
        Err(CompileError::AssemblerError(d)) => assert_eq!(d, "bad opcode"),
        _ => panic!("expected an assembler error"),
    }
    match Toolchain::phase_result(false, false, "undefined symbol".to_string()) {
        Err(CompileError::LinkerError(d)) => assert_eq!(d, "undefined symbol"),
        _ => panic!("expected a linker error"),
    }
}

#[test]
fn io_errors_convert_to_compile_errors() {
    let e = CompileError::from(std::io::Error::new(std::io::ErrorKind::NotFound, "as"));
    match e {
        CompileError::IoError(inner) => assert_eq!(inner.kind(), std::io::ErrorKind::NotFound),
        _ => panic!("expected an I/O error"),
    }
}

#[test]
fn data_values_are_escaped_inside_their_quotes() {
    let mut program = Program { directives: Vec::new(), sections: Vec::new() };
    let data = program.section(Section::Data(DataSection { strings: Vec::new() }));
    data.add_string("s".to_string(), "say \"hi\"\tC:\\x\n".to_string()).unwrap();
    assert_eq!(
        Compiler::new(ARM64Target).compile(&program).unwrap(),
        "\n.section __DATA,__data\ns:.asciz \"say \\\"hi\\\"\\tC:\\\\x\\n\"\n"
    );
}
