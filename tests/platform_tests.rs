use asm_builder::arch::arm64::{BranchOp, Instruction, ARM64};
use asm_builder::platform::macos::MacOS;
use asm_builder::platform::Platform;
use asm_builder::program::Program;

#[test]
fn test_macos_platform_specifics() {
    let platform = MacOS;

    assert_eq!(platform.function_prefix(), "_");
    assert_eq!(platform.text_section(), ".section __TEXT,__text");
    assert_eq!(platform.data_section(), ".section __DATA,__data");
    assert_eq!(platform.line_comment(), "//");
}

#[test]
fn test_platform_function_names() {
    let platform = MacOS;
    let mut program = Program::new(ARM64::new());

    // The caller applies the platform's prefix to C function names; `bl`
    // stores the label as given.
    program.ins.arch.bl(&format!("{}{}", platform.function_prefix(), "printf"));
    program.ins.arch.bl(&format!("{}{}", platform.function_prefix(), "malloc"));

    let instructions = program.ins.arch.get_instructions();
    match &instructions[0] {
        Instruction::Branch(BranchOp::Bl { label }) => {
            assert!(label.starts_with("_"), "MacOS functions should start with underscore");
        }
        _ => panic!("Expected Bl instruction"),
    }
}
