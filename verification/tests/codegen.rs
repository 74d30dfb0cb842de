use ayysee::compiler::codegen::CodeGenerator;
use ayysee::compiler::stack::Stack;
use ayysee::compiler::util::{assign_variable, function_return, stack_pop, stack_push};
use ayysee::compiler::Location;
use ayysee::mips::instructions::{Instruction, Misc, Stack as StackInstruction};
use ayysee::mips::types::{Device, Number, Register, RegisterOrNumber};
use ayysee::parser::ast::Value;

#[test]
fn a_new_buffer_is_empty() {
    let codegen = CodeGenerator::new();
    assert_eq!(codegen.len(), 0);
    assert_eq!(codegen.get_code(), "");
    assert!(!codegen.has_label("main"));
    assert_eq!(codegen.get_label("main"), None);
    assert_eq!(codegen.get_device("sensor"), None);
    assert_eq!(codegen.get_constant("limit"), None);
    assert_eq!(codegen.instruction(0), None);
    assert_eq!(codegen.comment(0), None);
}

#[test]
fn lines_are_numbered_in_the_order_of_emission() {
    let mut codegen = CodeGenerator::new();
    codegen.add_instruction(Instruction::Misc(Misc::Yield));
    stack_push(&mut codegen, RegisterOrNumber::Number(Number::Int(7)));
    stack_pop(&mut codegen, Register::R1);
    assert_eq!(codegen.len(), 3);
    assert_eq!(codegen.instruction(0), Some(&Instruction::Misc(Misc::Yield)));
    assert_eq!(
        codegen.instruction(2),
        Some(&Instruction::Stack(StackInstruction::Pop { register: Register::R1 }))
    );
    assert_eq!(codegen.instruction(3), None);
    assert_eq!(codegen.get_code(), "yield\npush 7\npop r1");
}

#[test]
fn comments_are_rendered_behind_their_lines() {
    let mut codegen = CodeGenerator::new();
    codegen.add_instruction(Instruction::Misc(Misc::Yield));
    codegen.add_comment("wait".to_string());
    codegen.add_comment_line("alone".to_string());
    codegen.add_instruction(Instruction::Misc(Misc::Halt));
    codegen.insert_comment("first".to_string(), 0);
    codegen.insert_comment("last".to_string(), 2);
    assert_eq!(codegen.comment(0).map(|c| c.as_str()), Some("first"));
    assert_eq!(codegen.comment(1), None);
    assert_eq!(codegen.comment(2).map(|c| c.as_str()), Some("last"));
    assert_eq!(codegen.comment(3), None);
    assert_eq!(codegen.get_code(), "yield # first\n# alone\nhcf # last");
}

#[test]
fn a_label_names_the_line_after_its_marker() {
    let mut codegen = CodeGenerator::new();
    codegen.add_instruction(Instruction::Misc(Misc::Yield));
    codegen.add_label("here".to_string());
    assert!(codegen.has_label("here"));
    assert_eq!(codegen.get_label("here"), Some(2));
    assert_eq!(codegen.len(), 2);
    assert_eq!(codegen.get_code(), "yield\nhere:");
}

#[test]
fn a_label_defined_twice_names_the_later_line() {
    let mut codegen = CodeGenerator::new();
    codegen.add_label("again".to_string());
    assert_eq!(codegen.get_label("again"), Some(1));
    codegen.add_instruction(Instruction::Misc(Misc::Yield));
    codegen.add_instruction(Instruction::Misc(Misc::Yield));
    codegen.add_label("other".to_string());
    codegen.add_label("again".to_string());
    assert_eq!(codegen.get_label("again"), Some(5));
    assert_eq!(codegen.get_label("other"), Some(4));
    assert_eq!(codegen.get_code(), "again:\nyield\nyield\nother:\nagain:");
}

#[test]
fn the_second_pass_starts_with_the_tables_of_the_first() {
    let mut codegen = CodeGenerator::new();
    codegen.add_label("main".to_string());
    codegen.add_comment("note".to_string());
    codegen.add_alias("sensor".to_string(), Device::D2);
    codegen.add_constant("limit".to_string(), Value::Integer(9));
    codegen.clear_first_pass();
    assert_eq!(codegen.len(), 0);
    assert_eq!(codegen.get_code(), "");
    assert_eq!(codegen.comment(0), None);
    assert_eq!(codegen.get_label("main"), Some(1));
    assert_eq!(codegen.get_device("sensor"), Some(Device::D2));
    assert_eq!(codegen.get_constant("limit"), Some(Value::Integer(9)));
}

#[test]
fn aliases_and_constants_are_looked_up_by_name() {
    let mut codegen = CodeGenerator::new();
    codegen.add_alias("a".to_string(), Device::D0);
    codegen.add_alias("b".to_string(), Device::D5);
    codegen.add_alias("a".to_string(), Device::D3);
    assert_eq!(codegen.get_device("a"), Some(Device::D3));
    assert_eq!(codegen.get_device("b"), Some(Device::D5));
    assert_eq!(codegen.get_device("c"), None);
    codegen.add_constant("x".to_string(), Value::Boolean(true));
    codegen.add_constant("y".to_string(), Value::Float("1.5".to_string()));
    assert_eq!(codegen.get_constant("x"), Some(Value::Boolean(true)));
    assert_eq!(codegen.get_constant("y"), Some(Value::Float("1.5".to_string())));
    assert_eq!(codegen.len(), 0);
}

#[test]
fn a_value_is_stored_below_the_stack_pointer() {
    let mut codegen = CodeGenerator::new();
    assign_variable(&mut codegen, Location::Stack(-1));
    assert_eq!(codegen.get_code(), "sub sp sp 1\npush r0\nadd sp sp 1");
    let mut codegen = CodeGenerator::new();
    assign_variable(&mut codegen, Location::Stack(3));
    assert_eq!(codegen.get_code(), "sub sp sp -3\npush r0\nadd sp sp -3");
    let mut codegen = CodeGenerator::new();
    assign_variable(&mut codegen, Location::Register(Register::R2));
    assert_eq!(codegen.get_code(), "add r2 r0 0");
}

#[test]
fn the_return_is_a_branch_that_is_always_taken() {
    let mut codegen = CodeGenerator::new();
    function_return(&mut codegen);
    assert_eq!(codegen.get_code(), "beqz 0 ra");
}

#[test]
fn variables_are_counted_on_the_stack() {
    let mut stack = Stack::new();
    assert_eq!(stack.sp_offset(), 0);
    assert_eq!(stack.get_local("x"), None);
    stack.allocate_local("x".to_string());
    assert_eq!(stack.sp_offset(), 1);
    assert_eq!(stack.get_local("x"), Some(Location::Stack(1)));
    stack.allocate_local("y".to_string());
    assert_eq!(stack.get_local("y"), Some(Location::Stack(2)));
    stack.allocate_local_at("z".to_string(), Location::Stack(-1));
    assert_eq!(stack.sp_offset(), 2);
    assert_eq!(stack.get_local("z"), Some(Location::Stack(-1)));
    stack.allocate_local_at("y".to_string(), Location::Stack(4));
    assert_eq!(stack.get_local("y"), Some(Location::Stack(4)));
    assert_eq!(stack.sp_offset(), 2);
    stack.allocate_local_at("p".to_string(), Location::Register(Register::R3));
    assert_eq!(stack.get_local("p"), Some(Location::Register(Register::R3)));
    assert!(stack.has_local("p"));
    stack.deallocate_local("x");
    assert_eq!(stack.sp_offset(), 1);
    assert!(!stack.has_local("x"));
    assert!(stack.has_local("y"));
    stack.deallocate_local("missing");
    assert_eq!(stack.sp_offset(), 0);
}

#[test]
fn the_stack_offset_may_fall_below_zero() {
    let mut stack = Stack::new();
    stack.deallocate_local("a");
    stack.deallocate_local("b");
    assert_eq!(stack.sp_offset(), -2);
    stack.allocate_local("c".to_string());
    assert_eq!(stack.get_local("c"), Some(Location::Stack(-1)));
    stack.allocate_local_at("far".to_string(), Location::Stack(i32::MIN));
    assert_eq!(stack.get_local("far"), Some(Location::Stack(i32::MIN)));
}

#[test]
fn saved_registers_are_pushed_and_popped() {
    let mut stack = Stack::new();
    let mut codegen = CodeGenerator::new();
    stack.save_register(Register::Ra, &mut codegen);
    stack.save_register(Register::R4, &mut codegen);
    assert_eq!(stack.sp_offset(), 2);
    stack.restore_register(Register::R4, &mut codegen);
    stack.restore_register(Register::Ra, &mut codegen);
    assert_eq!(stack.sp_offset(), 0);
    stack.restore_register(Register::R0, &mut codegen);
    assert_eq!(stack.sp_offset(), -1);
    assert_eq!(codegen.get_code(), "push ra\npush r4\npop r4\npop ra\npop r0");
}

#[test]
fn loops_and_conditionals_are_named_by_their_number() {
    let mut stack = Stack::new();
    assert_eq!(stack.new_loop(), "loop_0");
    assert_eq!(stack.new_loop(), "loop_1");
    assert_eq!(stack.new_if(), "if_0");
    assert_eq!(stack.new_if(), "if_1");
    assert_eq!(stack.new_if(), "if_2");
    assert_eq!(stack.end_loop(), Some("loop_1".to_string()));
    assert_eq!(stack.end_loop(), Some("loop_0".to_string()));
    assert_eq!(stack.end_loop(), None);
    assert_eq!(stack.new_loop(), "loop_2");
    stack.clear();
    assert_eq!(stack.new_loop(), "loop_0");
    assert_eq!(stack.new_if(), "if_0");
    assert_eq!(stack.end_loop(), Some("loop_0".to_string()));
    assert_eq!(stack.end_loop(), Some("loop_2".to_string()));
}
