use asm_builder::arch::arm64::{Arm64Register, ARM64};
use asm_builder::builder::InstructionBuilder;
use asm_builder::instruction::{GenericRegister, Immediate, Operand};
use asm_builder::ir::{LabelModifier, SymbolRef};
use asm_builder::program::Program;

fn setup_test_program() -> Program {
    Program::new(ARM64::new())
}

#[test]
fn test_hello_world_program() {
    let mut program = setup_test_program();

    program.ins.arch.add(Arm64Register::X0, Arm64Register::X1, Operand::Register(Arm64Register::X2));
    program.ins.arch.bl("_printf");
    program.ins.arch.mov(Arm64Register::X0, Arm64Register::XZR);
    program.ins.arch.bl("_exit");

    let instructions = program.ins.arch.get_instructions();
    assert_eq!(instructions.len(), 4);
}

#[test]
fn test_function_call_sequence() {
    let mut program = setup_test_program();

    program.ins.arch.mov(Arm64Register::X0, Arm64Register::X1);
    program.ins.arch.mov(Arm64Register::X1, Arm64Register::X2);
    program.ins.arch.bl("_function");
    program.ins.arch.mov(Arm64Register::X0, Arm64Register::X0);

    let instructions = program.ins.arch.get_instructions();
    assert_eq!(instructions.len(), 4);
}

#[test]
fn test_floating_point_operations() {
    let mut program = setup_test_program();

    program.ins.arch.fadd(Arm64Register::V0, Arm64Register::V1, Arm64Register::V2);
    program.ins.arch.str(Arm64Register::V0, "[X0]");

    let instructions = program.ins.arch.get_instructions();
    assert_eq!(instructions.len(), 2);
}

#[test]
fn builder_calls_render_one_line_each_in_order() {
    let mut program = setup_test_program();
    program
        .ins
        .adrp(GenericRegister::X0, "msg")
        .add(
            GenericRegister::X0,
            GenericRegister::X0,
            Operand::Immediate(Immediate::Symbol(SymbolRef {
                name: "msg".to_string(),
                modifier: Some(LabelModifier::PageOff),
            })),
        )
        .bl("_printf")
        .mov(GenericRegister::X0, GenericRegister::XZR)
        .add(GenericRegister::X1, GenericRegister::X2, Operand::Immediate(Immediate::Number(-5)))
        .sub(GenericRegister::X3, GenericRegister::X4, GenericRegister::X5)
        .mul(GenericRegister::X6, GenericRegister::X7, GenericRegister::X8)
        .fadd(GenericRegister::V0, GenericRegister::V1, GenericRegister::V2)
        .ldr(GenericRegister::X9, "[sp]")
        .str(GenericRegister::X9, "[sp, #8]")
        .cbz(GenericRegister::X9, "done")
        .b("loop")
        .ret();
    assert_eq!(program.ins.arch.get_instructions().len(), 13);
    let code = program.ins.arch.render();
    let lines: Vec<&str> = code.lines().collect();
    assert_eq!(
        lines,
        vec![
            "    adrp x0, msg@PAGE",
            "    add x0, x0, msg@PAGEOFF",
            "    bl _printf",
            "    add x0, xzr, xzr",
            "    add x1, x2, #-5",
            "    sub x3, x4, x5",
            "    mul x6, x7, x8",
            "    fadd v0, v1, v2",
            "    ldr x9, [sp]",
            "    str x9, [sp, #8]",
            "    cbz x9, done",
            "    b loop",
            "    ret",
        ]
    );
}

#[test]
fn mov_is_a_single_add_with_the_zero_register() {
    let mut builder = InstructionBuilder::new(ARM64::new());
    builder.mov(GenericRegister::X1, GenericRegister::X2);
    assert_eq!(builder.arch.get_instructions().len(), 1);
    assert_eq!(builder.arch.render(), "    add x1, x2, xzr\n");
}

#[test]
fn staged_comment_attaches_to_the_next_instruction_only() {
    let mut builder = InstructionBuilder::new(ARM64::new());
    builder.bl("_first");
    builder.comment("load the message").adrp(GenericRegister::X0, "msg").bl("_printf");
    assert!(builder.current_comment.is_none());
    let comments = builder.arch.get_comments();
    assert_eq!(comments[0], None);
    assert_eq!(comments[1], Some("load the message".to_string()));
    assert_eq!(comments[2], None);
    assert_eq!(
        builder.arch.render(),
        "    bl _first\n    adrp x0, msg@PAGE // load the message\n    bl _printf\n"
    );
}

#[test]
fn a_second_comment_replaces_the_first_before_any_instruction() {
    let mut builder = InstructionBuilder::new(ARM64::new());
    builder.comment("dropped").comment("kept").ret();
    assert_eq!(builder.arch.render(), "    ret // kept\n");
}

#[test]
fn program_text_lists_data_externs_and_code() {
    let mut program = setup_test_program();
    let label = program.var("msg", "Hello\n");
    assert_eq!(label, "L0");
    program.ctx.add_extern("_printf");
    program.ins.comment("address of msg").adrp(GenericRegister::X0, "L0");
    program.ins.bl("_printf");
    program.ins.ret();
    assert_eq!(
        program.to_string(),
        ".section __DATA,__data\nL0:\n    .asciz \"Hello\\n\"\n.section __TEXT,__text\n.global _start\n.extern _printf\n_start:\n    adrp x0, L0@PAGE // address of msg\n    bl _printf\n    ret\n"
    );
}

#[test]
fn svc_and_large_immediates_render_in_decimal() {
    let mut arch = ARM64::new();
    arch.add(Arm64Register::X0, Arm64Register::X0, Operand::Immediate(Immediate::Number(i64::MIN)));
    arch.add(Arm64Register::X0, Arm64Register::X0, Operand::Immediate(Immediate::Number(4096)));
    arch.push(asm_builder::arch::arm64::Instruction::System(asm_builder::arch::arm64::SystemOp::Svc {
        number: 128,
    }));
    assert_eq!(
        arch.render(),
        "    add x0, x0, #-9223372036854775808\n    add x0, x0, #4096\n    svc #128\n"
    );
}
