use asm_builder::arch::arm64::Arm64Register;
use asm_builder::instruction::{GenericRegister, Register, RegisterMapping, UnsupportedRegister};
use asm_builder::ir;
use asm_builder::Register as TargetRegister;
use asm_builder::macos_arm64::MacOSRegister;

#[test]
fn every_generic_register_maps_to_its_arm64_namesake() {
    let all = [
        (GenericRegister::X0, "x0"),
        (GenericRegister::X15, "x15"),
        (GenericRegister::X30, "x30"),
        (GenericRegister::V0, "v0"),
        (GenericRegister::V31, "v31"),
        (GenericRegister::SP, "sp"),
        (GenericRegister::LR, "lr"),
        (GenericRegister::XZR, "xzr"),
    ];
    for (g, name) in all {
        let r: Result<Arm64Register, UnsupportedRegister> = g.to_arch_reg();
        assert_eq!(r.unwrap().to_string(), name);
    }
    assert_eq!(Arm64Register::from(GenericRegister::V17), Arm64Register::V17);
}

#[test]
fn arm64_validation_refuses_vector_registers() {
    assert!(GenericRegister::X0.validate_for_arm64().is_ok());
    assert!(GenericRegister::XZR.validate_for_arm64().is_ok());
    assert_eq!(
        GenericRegister::V3.validate_for_arm64(),
        Err("Invalid register for ARM64 architecture")
    );
}

#[test]
fn arm64_register_classes() {
    assert!(Arm64Register::X15.is_general_purpose());
    assert!(!Arm64Register::X16.is_general_purpose());
    assert!(Arm64Register::V7.is_floating_point());
    assert!(!Arm64Register::V8.is_floating_point());
    assert!(Arm64Register::XZR.is_special());
    assert!(!Arm64Register::X0.is_special());
}

#[test]
fn macos_mapping_fails_outside_the_register_file() {
    let r: Result<MacOSRegister, UnsupportedRegister> = ir::Register::Gp(32).to_arch_reg();
    assert_eq!(r, Err(UnsupportedRegister));
    let r: Result<MacOSRegister, UnsupportedRegister> = ir::Register::Fp(200).to_arch_reg();
    assert_eq!(r, Err(UnsupportedRegister));
    let r: Result<MacOSRegister, UnsupportedRegister> = ir::Register::Gp(0).to_arch_reg();
    assert_eq!(r, Ok(MacOSRegister::X0));
    let r: Result<MacOSRegister, UnsupportedRegister> = ir::Register::Fp(31).to_arch_reg();
    assert_eq!(r.unwrap().to_string(), "v31");
    let r: Result<MacOSRegister, UnsupportedRegister> = ir::Register::Lr.to_arch_reg();
    assert_eq!(r, Ok(MacOSRegister::Lr));
    assert_eq!(MacOSRegister::from(ir::Register::Gp(5)), Ok(MacOSRegister::X5));
    assert_eq!(MacOSRegister::from(ir::Register::Gp(99)), Err(UnsupportedRegister));
}

#[test]
fn macos_register_spelling() {
    assert_eq!(MacOSRegister::X12.to_string(), "x12");
    assert_eq!(MacOSRegister::W7.to_string(), "w7");
    assert_eq!(MacOSRegister::V0.to_string(), "v0");
    assert_eq!(MacOSRegister::Sp.to_string(), "sp");
    assert_eq!(MacOSRegister::Pc.to_string(), "pc");
}

fn name_of<R: TargetRegister>(r: &R) -> &'static str {
    r.name()
}

#[test]
fn x86_and_arm64_target_register_names() {
    assert_eq!(name_of(&asm_builder::x86_64::X86Register::RDX), "rdx");
    assert_eq!(name_of(&asm_builder::arm64::Arm64Register::X1), "x1");
}
