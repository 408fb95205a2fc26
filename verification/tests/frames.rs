//! Tests for single frames: the per-instruction interpreter.

use minijvm::Opcode;
use minijvm::call_stack::JvmStack;
use minijvm::const_pool::{ConstPool, CpInfo};
use minijvm::error::{FrameFault, VmError};
use minijvm::frame::{Frame, FrameResult};
use minijvm::method_area::{Method, MethodArea};

/// The constant pool of the `Adder` sample class.
fn sample_const_pool() -> ConstPool {
    let items = vec![
        CpInfo::Placeholder,
        CpInfo::MethodRef { class_index: 4, name_and_type_index: 14 },
        CpInfo::MethodRef { class_index: 3, name_and_type_index: 15 },
        CpInfo::ClassRef { name_index: 16 },
        CpInfo::ClassRef { name_index: 17 },
        CpInfo::Utf8("<init>".to_string()),
        CpInfo::Utf8("()V".to_string()),
        CpInfo::Utf8("Code".to_string()),
        CpInfo::Utf8("LineNumberTable".to_string()),
        CpInfo::Utf8("add".to_string()),
        CpInfo::Utf8("(II)I".to_string()),
        CpInfo::Utf8("main".to_string()),
        CpInfo::Utf8("SourceFile".to_string()),
        CpInfo::Utf8("Adder.java".to_string()),
        CpInfo::NameAndType { name_index: 5, descriptor_index: 6 },
        CpInfo::NameAndType { name_index: 9, descriptor_index: 10 },
        CpInfo::Utf8("Adder".to_string()),
        CpInfo::Utf8("java/lang/Object".to_string()),
    ];
    ConstPool::from_vec(items)
}

fn empty_pool() -> ConstPool {
    ConstPool::from_vec(vec![CpInfo::Placeholder])
}

#[test]
fn create_new_stack() {
    let _method_table = MethodArea::new();
    let const_pool = sample_const_pool();
    let frame = Frame::new(Vec::new(), &Method::new(2, 0, vec![], ""), &const_pool);
    let _stack = JvmStack::new(128, frame);
}

#[test]
fn run_single_frame() {
    let const_pool = sample_const_pool();
    let mut frame = Frame::new(
        vec![0; 3],
        &Method::new(
            3,
            0,
            vec![
                Opcode::IConst0,       // 0
                Opcode::IStore1,       // 1
                Opcode::Goto(4),       // 2
                Opcode::IInc(1, 1),    // 3
                Opcode::ILoad1,        // 4
                Opcode::BiPush(10),    // 5
                Opcode::IfICmpLt(3),   // 6
            ],
            "",
        ),
        &const_pool,
    );

    let mut fuel: u64 = 1_000_000;
    assert!(matches!(frame.run(&mut fuel), FrameResult::End));
}

#[test]
fn counting_loop_leaves_limit_in_slot_one() {
    let pool = empty_pool();
    let mut frame = Frame::new(
        vec![0; 3],
        &Method::new(
            2,
            3,
            vec![
                Opcode::IConst0,       // 0
                Opcode::IStore1,       // 1
                Opcode::Goto(4),       // 2
                Opcode::IInc(1, 1),    // 3
                Opcode::ILoad1,        // 4
                Opcode::BiPush(100),   // 5
                Opcode::IfICmpLt(3),   // 6
            ],
            "",
        ),
        &pool,
    );
    let mut fuel: u64 = 1_000_000;
    assert!(matches!(frame.run(&mut fuel), FrameResult::End));
    assert_eq!(frame.local(1), 100);
}

#[test]
fn add_and_return_value() {
    let pool = empty_pool();
    let mut frame = Frame::new(
        vec![],
        &Method::new(
            2,
            0,
            vec![Opcode::IConst1, Opcode::IConst1, Opcode::IAdd, Opcode::IReturn],
            "",
        ),
        &pool,
    );
    let mut fuel: u64 = 100;
    assert!(matches!(frame.run(&mut fuel), FrameResult::ReturnValue(2)));
}

#[test]
fn increment_wraps_like_the_machine() {
    let pool = empty_pool();
    let mut frame = Frame::new(
        vec![i32::MAX],
        &Method::new(1, 1, vec![Opcode::IInc(0, 1)], ""),
        &pool,
    );
    let mut fuel: u64 = 10;
    assert!(matches!(frame.run(&mut fuel), FrameResult::End));
    assert_eq!(frame.local(0), i32::MIN);
}

#[test]
fn branch_pops_two_when_taken() {
    let pool = empty_pool();
    let mut frame = Frame::new(
        vec![],
        &Method::new(2, 0, vec![Opcode::IfICmpLt(0)], ""),
        &pool,
    );
    frame.push(1).unwrap();
    frame.push(2).unwrap();
    assert!(matches!(frame.step(), FrameResult::Running));
    assert_eq!(frame.stack_len(), 0);
}

#[test]
fn branch_pops_two_when_not_taken() {
    let pool = empty_pool();
    let mut frame = Frame::new(
        vec![],
        &Method::new(2, 0, vec![Opcode::IfICmpLt(0)], ""),
        &pool,
    );
    frame.push(2).unwrap();
    frame.push(1).unwrap();
    assert!(matches!(frame.step(), FrameResult::Running));
    assert_eq!(frame.stack_len(), 0);
}

#[test]
fn pop_on_empty_stack_is_a_fault_not_a_zero() {
    let pool = empty_pool();
    let mut frame = Frame::new(vec![], &Method::new(2, 0, vec![], ""), &pool);
    assert!(matches!(
        frame.pop(),
        Err(VmError::Frame(FrameFault::StackUnderflow))
    ));
}

#[test]
fn store_on_empty_stack_faults() {
    let pool = empty_pool();
    let mut frame = Frame::new(
        vec![0],
        &Method::new(2, 1, vec![Opcode::IStore0], ""),
        &pool,
    );
    let mut fuel: u64 = 10;
    assert!(matches!(
        frame.run(&mut fuel),
        FrameResult::Fault(VmError::Frame(FrameFault::StackUnderflow))
    ));
}

#[test]
fn load_outside_declared_slots_faults() {
    let pool = empty_pool();
    let mut frame = Frame::new(vec![], &Method::new(2, 0, vec![Opcode::ILoad1], ""), &pool);
    let mut fuel: u64 = 10;
    assert!(matches!(
        frame.run(&mut fuel),
        FrameResult::Fault(VmError::Frame(FrameFault::InvalidLocalIndex { slot: 1 }))
    ));
}

#[test]
fn jump_outside_code_faults() {
    let pool = empty_pool();
    let mut frame = Frame::new(vec![], &Method::new(2, 0, vec![Opcode::Goto(9)], ""), &pool);
    let mut fuel: u64 = 10;
    assert!(matches!(
        frame.run(&mut fuel),
        FrameResult::Fault(VmError::Frame(FrameFault::InvalidJumpTarget { target: 9 }))
    ));
}

#[test]
fn push_beyond_declared_depth_faults() {
    let pool = empty_pool();
    let mut frame = Frame::new(
        vec![],
        &Method::new(1, 0, vec![Opcode::IConst0, Opcode::IConst0], ""),
        &pool,
    );
    let mut fuel: u64 = 10;
    assert!(matches!(
        frame.run(&mut fuel),
        FrameResult::Fault(VmError::Frame(FrameFault::StackOverflow))
    ));
}

#[test]
fn unresolvable_invoke_target_faults() {
    let pool = empty_pool();
    let mut frame = Frame::new(
        vec![],
        &Method::new(2, 0, vec![Opcode::InvokeStatic(0)], ""),
        &pool,
    );
    let mut fuel: u64 = 10;
    assert!(matches!(
        frame.run(&mut fuel),
        FrameResult::Fault(VmError::ConstantResolution(_))
    ));
}

#[test]
fn invoke_suspends_with_the_resolved_signature() {
    let pool = sample_const_pool();
    let mut frame = Frame::new(
        vec![],
        &Method::new(2, 0, vec![Opcode::InvokeStatic(2)], "Adder"),
        &pool,
    );
    let mut fuel: u64 = 10;
    match frame.run(&mut fuel) {
        FrameResult::Invoke(signature) => assert_eq!(signature, "Adder.add:(II)I"),
        other => panic!("expected an invoke signal, got {:?}", other),
    }
}
