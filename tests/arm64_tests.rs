use asm_builder::arch::arm64::{ArithmeticOp, Arm64Register, BranchOp, Instruction, ARM64};
use asm_builder::instruction::Operand;
use asm_builder::program::Program;

fn setup_test_program() -> Program {
    Program::new(ARM64::new())
}

#[test]
fn test_arithmetic_instructions() {
    let mut program = setup_test_program();

    program.ins.arch.add(Arm64Register::X0, Arm64Register::X1, Operand::Register(Arm64Register::X2));
    program.ins.arch.sub(Arm64Register::X3, Arm64Register::X4, Arm64Register::X5);
    program.ins.arch.mul(Arm64Register::X6, Arm64Register::X7, Arm64Register::X8);
    program.ins.arch.fadd(Arm64Register::V0, Arm64Register::V1, Arm64Register::V2);

    let instructions = program.ins.arch.get_instructions();
    assert_eq!(instructions.len(), 4);

    match &instructions[0] {
        Instruction::Arithmetic(ArithmeticOp::Add { dst, src1, src2 }) => {
            assert_eq!(*dst, Arm64Register::X0);
            assert_eq!(*src1, Arm64Register::X1);
            assert_eq!(*src2, Arm64Register::X2);
        }
        _ => panic!("Expected Add instruction"),
    }
}

#[test]
fn test_branch_instructions() {
    let mut program = setup_test_program();

    program.ins.arch.bl("external_func");
    program.ins.arch.b("local_label");
    program.ins.arch.ret();
    program.ins.arch.cbz(Arm64Register::X0, "zero_branch");

    let instructions = program.ins.arch.get_instructions();
    assert_eq!(instructions.len(), 4);

    match &instructions[0] {
        Instruction::Branch(BranchOp::Bl { label }) => {
            assert_eq!(label, "external_func");
        }
        _ => panic!("Expected Bl instruction"),
    }
}

#[test]
fn test_register_display() {
    assert_eq!(Arm64Register::X0.to_string(), "x0");
    assert_eq!(Arm64Register::V0.to_string(), "v0");
    assert_eq!(Arm64Register::SP.to_string(), "sp");
    assert_eq!(Arm64Register::LR.to_string(), "lr");
    assert_eq!(Arm64Register::XZR.to_string(), "xzr");
}

#[test]
fn test_function_prologue() {
    let mut program = setup_test_program();

    program.ins.arch.sub(Arm64Register::SP, Arm64Register::SP, Arm64Register::X16);
    program.ins.arch.str(Arm64Register::LR, "[SP, #-16]!");

    let instructions = program.ins.arch.get_instructions();
    assert_eq!(instructions.len(), 2);
}

#[test]
fn arm64_stream_renders_each_instruction() {
    let mut arch = ARM64::new();
    arch.sub(Arm64Register::SP, Arm64Register::SP, Arm64Register::X16);
    arch.str(Arm64Register::LR, "[SP, #-16]!");
    arch.ldr(Arm64Register::X1, "[X0]");
    arch.cbz(Arm64Register::X0, "done");
    arch.b("loop");
    arch.adrp_add(Arm64Register::X0, Arm64Register::X1, "msg");
    arch.ret();
    assert_eq!(
        arch.render(),
        "    sub sp, sp, x16\n    str lr, [SP, #-16]!\n    ldr x1, [X0]\n    cbz x0, done\n    b loop\n    adrp x1, msg@PAGE\n    add x0, x1, msg@PAGEOFF\n    ret\n"
    );
}
