use asm_builder::ir::{self, Condition, Directive, Ins, LabelModifier, Op, Operand, SectionType};
use asm_builder::macos_arm64::{LowerError, MacOSDirective, MacOSIns, MacOSOp, MacOSOperand, MacOSSectionType};
use asm_builder::SectionKindError;

#[test]
fn lowers_and_renders_an_add() {
    let ins = Ins {
        op: Op::Add {
            rd: ir::Register::Gp(0),
            rn: ir::Register::Gp(0),
            op: Operand::LabelWithModifier { label: "msg".to_string(), modifier: LabelModifier::PageOff },
        },
        comment: Some("Add offset of msg to x0".to_string()),
    };
    let m = MacOSIns::from_ins(ins).unwrap();
    assert_eq!(m.op, MacOSOp::Add);
    assert_eq!(m.operands.len(), 3);
    assert_eq!(m.to_string(), "\tadd x0, x0, msg@PAGEOFF\t// Add offset of msg to x0");
}

#[test]
fn lowers_calls_moves_and_returns() {
    let call = Ins { op: Op::Call { label: Operand::Label("_printf".to_string()) }, comment: None };
    assert_eq!(MacOSIns::from_ins(call).unwrap().to_string(), "\tbl _printf");
    let mov = Ins { op: Op::Mov { rd: ir::Register::Gp(0), src: Operand::Immediate(0) }, comment: None };
    assert_eq!(MacOSIns::from_ins(mov).unwrap().to_string(), "\tmov x0, #0");
    let ret = Ins { op: Op::Ret, comment: None };
    assert_eq!(MacOSIns::from_ins(ret).unwrap().to_string(), "\tret");
}

#[test]
fn lowering_reports_what_has_no_counterpart() {
    let branch = Ins {
        op: Op::BranchIf { cond: Condition::Eq, label: Operand::Label("l".to_string()) },
        comment: None,
    };
    assert!(matches!(MacOSIns::from_ins(branch), Err(LowerError::UnsupportedOp)));
    let bad_reg = Ins { op: Op::Mov { rd: ir::Register::Gp(40), src: Operand::Immediate(1) }, comment: None };
    assert!(matches!(
        MacOSIns::from_ins(bad_reg),
        Err(LowerError::UnsupportedRegister(ir::Register::Gp(40)))
    ));
    let lo12 = Operand::LabelWithModifier { label: "v".to_string(), modifier: LabelModifier::Lo12 };
    assert!(matches!(
        MacOSOperand::from_operand(lo12),
        Err(LowerError::UnsupportedModifier(LabelModifier::Lo12))
    ));
}

#[test]
fn memory_operands() {
    let off = MacOSOperand::from_operand(Operand::MemoryOffset { base: ir::Register::Sp, offset: -16 }).unwrap();
    assert_eq!(off.to_string(), "[sp, #-16]");
    let idx = MacOSOperand::from_operand(Operand::ScaledIndex {
        base: ir::Register::Gp(1),
        index: ir::Register::Gp(2),
        scale: 3,
    })
    .unwrap();
    assert_eq!(idx.to_string(), "[x1, x2, lsl #3]");
    let addr = MacOSOperand::from_operand(Operand::MemoryAddress("buf".to_string())).unwrap();
    assert_eq!(addr.to_string(), "[buf]");
    let page = MacOSOperand::from_operand(Operand::LabelWithModifier {
        label: "msg".to_string(),
        modifier: LabelModifier::Page,
    })
    .unwrap();
    assert_eq!(page.to_string(), "msg@PAGE");
}

#[test]
fn directives_and_sections() {
    assert_eq!(MacOSDirective::from(Directive::Global("_start".to_string())).to_string(), ".global _start");
    assert_eq!(MacOSDirective::from(Directive::Extern("_exit".to_string())).to_string(), ".extern _exit");
    assert_eq!(MacOSDirective::from(Directive::Section(SectionType::Bss)).to_string(), ".bss");
    assert_eq!(
        MacOSDirective::from(Directive::Section(SectionType::Data)).to_string(),
        ".section __DATA,__data"
    );
    assert_eq!(
        MacOSDirective::from(Directive::Section(SectionType::Text)).to_string(),
        ".section __TEXT,__text"
    );
    assert_eq!(MacOSSectionType::from(SectionType::Const), MacOSSectionType::Const);
    assert_eq!(MacOSSectionType::Data.to_string(), ".data");
    assert_eq!(MacOSSectionType::Text.to_string(), ".text");
}

#[test]
fn neutral_sections_refuse_labels_of_the_other_kind() {
    let code = ir::Label {
        val: ir::LabelVariant::Code(ir::CodeLabel { name: "_start".to_string(), instructions: Vec::new() }),
        comment: None,
    };
    let data = ir::Label {
        val: ir::LabelVariant::Data(ir::DataLabel {
            name: "msg".to_string(),
            directive: ".asciz".to_string(),
            value: "\"hi\"".to_string(),
        }),
        comment: None,
    };
    let mut data_section = ir::Section { section_type: SectionType::Data, labels: Vec::new() };
    assert_eq!(data_section.add_label(code.clone()), Err(SectionKindError::BlockInDataSection));
    assert_eq!(data_section.add_label(data.clone()), Ok(()));
    assert_eq!(data_section.labels.len(), 1);
    let mut text_section = ir::Section { section_type: SectionType::Text, labels: Vec::new() };
    assert_eq!(text_section.add_label(data), Err(SectionKindError::StringInTextSection));
    assert_eq!(text_section.add_label(code), Ok(()));
    assert_eq!(text_section.labels.len(), 1);
}
