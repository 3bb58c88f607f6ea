use asm_builder::context::Context;

#[test]
fn distinct_names_get_labels_in_order() {
    let mut ctx = Context::new();
    assert_eq!(ctx.add_variable("a", "1"), "L0");
    assert_eq!(ctx.add_variable("b", "2"), "L1");
    assert_eq!(ctx.add_variable("c", "3"), "L2");
    assert_eq!(ctx.label_counter, 3);
    let data = &ctx.get_sections().data;
    assert_eq!(data.len(), 3);
    assert_eq!(data[2].name, "c");
    assert_eq!(data[2].value, "3");
    assert_eq!(data[2].label, "L2");
}

#[test]
fn redeclaring_a_name_keeps_its_label() {
    let mut ctx = Context::new();
    assert_eq!(ctx.add_variable("a", "1"), "L0");
    assert_eq!(ctx.add_variable("b", "2"), "L1");
    assert_eq!(ctx.add_variable("a", "other"), "L0");
    assert_eq!(ctx.label_counter, 2);
    assert_eq!(ctx.get_sections().data.len(), 2);
    assert_eq!(ctx.get_variable("a").unwrap().value, "1");
    assert_eq!(ctx.add_variable("c", "3"), "L2");
}

#[test]
fn labels_past_nine_use_all_digits() {
    let mut ctx = Context::new();
    for i in 0..12 {
        ctx.add_variable(&format!("v{}", i), "x");
    }
    assert_eq!(ctx.get_variable("v11").unwrap().label, "L11");
    assert_eq!(ctx.get_variable("v10").unwrap().label, "L10");
}

#[test]
fn unknown_variable_is_none() {
    let ctx = Context::new();
    assert!(ctx.get_variable("nothing").is_none());
}

#[test]
fn repeated_externs_are_kept_once_in_first_order() {
    let mut ctx = Context::new();
    ctx.add_extern("_printf");
    ctx.add_extern("_exit");
    ctx.add_extern("_printf");
    ctx.add_extern("_printf");
    ctx.add_extern("_exit");
    assert_eq!(ctx.get_externs(), &["_printf".to_string(), "_exit".to_string()]);
}

#[test]
fn instruction_text_lines_keep_their_comments() {
    let mut ctx = Context::new();
    ctx.add_instruction("ret".to_string(), Some("done".to_string()));
    ctx.add_instruction("nop".to_string(), None);
    let text = &ctx.get_sections().text;
    assert_eq!(text.len(), 2);
    assert_eq!(text[0], (Some("done".to_string()), "ret".to_string()));
    assert_eq!(text[1], (None, "nop".to_string()));
}
