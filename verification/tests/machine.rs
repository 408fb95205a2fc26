//! Tests for the call stack's invoke/return protocol and the
//! load/execute boundary.

use minijvm::Opcode;
use minijvm::call_stack::{ExitStatus, JvmStack};
use minijvm::const_pool::{ConstPool, CpInfo};
use minijvm::error::{FrameFault, LookupError, VmError};
use minijvm::frame::{Frame, FrameResult};
use minijvm::method_area::{Class, Method, MethodArea};
use minijvm::table::Table;
use minijvm::vm::{LoadedClass, MethodInfo, execute, load};

/// The constant pool of the `Adder` sample class.
fn sample_const_pool() -> ConstPool {
    let items = vec![
        CpInfo::Placeholder,
        CpInfo::MethodRef { class_index: 4, name_and_type_index: 14 },
        CpInfo::MethodRef { class_index: 3, name_and_type_index: 15 },
        CpInfo::ClassRef { name_index: 16 },
        CpInfo::ClassRef { name_index: 17 },
        CpInfo::Utf8("<init>".to_string()),
        CpInfo::Utf8("()V".to_string()),
        CpInfo::Utf8("Code".to_string()),
        CpInfo::Utf8("LineNumberTable".to_string()),
        CpInfo::Utf8("add".to_string()),
        CpInfo::Utf8("(II)I".to_string()),
        CpInfo::Utf8("main".to_string()),
        CpInfo::Utf8("SourceFile".to_string()),
        CpInfo::Utf8("Adder.java".to_string()),
        CpInfo::NameAndType { name_index: 5, descriptor_index: 6 },
        CpInfo::NameAndType { name_index: 9, descriptor_index: 10 },
        CpInfo::Utf8("Adder".to_string()),
        CpInfo::Utf8("java/lang/Object".to_string()),
    ];
    ConstPool::from_vec(items)
}

fn main_codes() -> Vec<Opcode> {
    vec![
        Opcode::IConst1,          // 0
        Opcode::IConst1,          // 1
        Opcode::InvokeStatic(2),  // 2
        Opcode::IStore0,          // 3
        Opcode::Return,           // 4
    ]
}

fn add_codes() -> Vec<Opcode> {
    vec![Opcode::ILoad0, Opcode::ILoad1, Opcode::IAdd, Opcode::IReturn]
}

fn adder_class() -> Class {
    Class { super_class: None, const_pool: sample_const_pool(), methods: Table::new() }
}

#[test]
fn simple_loop() {
    // int i;
    // for (i = 0; i < 100; i++) {
    //     ;
    // }
    let _max_stack: u16 = 2;
    let frame_size: usize = 3;
    let _codes = [
        Opcode::IConst0,       // 0
        Opcode::IStore1,       // 1
        Opcode::Goto(4),       // 2
        Opcode::IInc(1, 1),    // 3
        Opcode::ILoad1,        // 4
        Opcode::BiPush(100),   // 5
        Opcode::IfICmpLt(3),   // 6
    ];
    let _locals = vec![0; frame_size];
    assert_eq!(1 + 1, 2)
}

#[test]
fn adder() {
    let _class_table = MethodArea::new();
}

#[test]
fn run_adder() {
    let const_pool = sample_const_pool();
    let main_method = Method::new(2, 1, main_codes(), "Adder");
    let add_method = Method::new(2, 2, add_codes(), "Adder");

    let main_frame = Frame::new(vec![0; 1], &main_method, &const_pool);
    let mut method_area = MethodArea::new();
    method_area.put("Adder.add:(II)I", add_method);
    method_area.put_class("Adder", adder_class());
    let mut jvm_stack = JvmStack::new(256, main_frame);
    let mut fuel: u64 = 100_000;
    assert!(matches!(
        jvm_stack.run(&method_area, &mut fuel),
        ExitStatus::Completed
    ));
}

#[test]
fn call_protocol_leaves_sum_in_callers_slot_zero() {
    let pool = sample_const_pool();
    let main_method = Method::new(2, 1, main_codes(), "Adder");
    let add_method = Method::new(2, 2, add_codes(), "Adder");
    let mut fuel: u64 = 1_000;

    // Run the caller to its invoke signal.
    let mut main_frame = Frame::new(vec![0; 1], &main_method, &pool);
    let signature = match main_frame.run(&mut fuel) {
        FrameResult::Invoke(signature) => signature,
        other => panic!("expected an invoke signal, got {:?}", other),
    };
    assert_eq!(signature, "Adder.add:(II)I");

    // Transfer the callee's local-slot count of arguments: slot 0 takes
    // the caller's top of stack.
    let mut locals = Vec::new();
    locals.push(main_frame.pop().unwrap());
    locals.push(main_frame.pop().unwrap());
    let mut callee = Frame::new(locals, &add_method, &pool);

    // Run the callee to completion and hand its value back.
    let value = match callee.run(&mut fuel) {
        FrameResult::ReturnValue(value) => value,
        other => panic!("expected a returned value, got {:?}", other),
    };
    main_frame.push(value).unwrap();

    // The resumed caller stores the value and ends.
    assert!(matches!(main_frame.run(&mut fuel), FrameResult::End));
    assert_eq!(main_frame.local(0), 2);
}

#[test]
fn execute_runs_the_call_scenario_to_completion() {
    let mut area = MethodArea::new();
    area.put("Adder.main:()V", Method::new(2, 1, main_codes(), "Adder"));
    area.put("Adder.add:(II)I", Method::new(2, 2, add_codes(), "Adder"));
    area.put_class("Adder", adder_class());
    assert!(matches!(
        execute(&area, "Adder.main:()V", 10_000),
        ExitStatus::Completed
    ));
}

#[test]
fn invoking_an_unregistered_signature_names_it() {
    let mut area = MethodArea::new();
    area.put("Adder.main:()V", Method::new(2, 1, main_codes(), "Adder"));
    area.put_class("Adder", adder_class());
    match execute(&area, "Adder.main:()V", 10_000) {
        ExitStatus::Fault(VmError::RegistryLookup(LookupError::MethodNotFound { signature })) => {
            assert_eq!(signature, "Adder.add:(II)I");
        }
        other => panic!("expected MethodNotFound, got {:?}", other),
    }
}

#[test]
fn missing_entry_signature_is_a_lookup_fault() {
    let area = MethodArea::new();
    match execute(&area, "Nope.main:()V", 100) {
        ExitStatus::Fault(VmError::RegistryLookup(LookupError::MethodNotFound { signature })) => {
            assert_eq!(signature, "Nope.main:()V");
        }
        other => panic!("expected MethodNotFound, got {:?}", other),
    }
}

#[test]
fn missing_owning_class_is_a_lookup_fault() {
    let mut area = MethodArea::new();
    area.put("Adder.main:()V", Method::new(2, 1, main_codes(), "Adder"));
    match execute(&area, "Adder.main:()V", 100) {
        ExitStatus::Fault(VmError::RegistryLookup(LookupError::ClassNotFound { name })) => {
            assert_eq!(name, "Adder");
        }
        other => panic!("expected ClassNotFound, got {:?}", other),
    }
}

#[test]
fn value_returned_to_nobody_is_a_fault() {
    let mut area = MethodArea::new();
    area.put(
        "Orphan.main:()V",
        Method::new(1, 0, vec![Opcode::IConst1, Opcode::IReturn], "Orphan"),
    );
    area.put_class(
        "Orphan",
        Class {
            super_class: None,
            const_pool: ConstPool::from_vec(vec![CpInfo::Placeholder]),
            methods: Table::new(),
        },
    );
    assert!(matches!(
        execute(&area, "Orphan.main:()V", 100),
        ExitStatus::Fault(VmError::Frame(FrameFault::CallStackUnderflow))
    ));
}

#[test]
fn endless_loop_exhausts_the_step_budget() {
    let mut area = MethodArea::new();
    area.put("Spin.main:()V", Method::new(1, 0, vec![Opcode::Goto(0)], "Spin"));
    area.put_class(
        "Spin",
        Class {
            super_class: None,
            const_pool: ConstPool::from_vec(vec![CpInfo::Placeholder]),
            methods: Table::new(),
        },
    );
    assert!(matches!(
        execute(&area, "Spin.main:()V", 10),
        ExitStatus::OutOfSteps
    ));
}

#[test]
fn load_registers_methods_under_canonical_signatures() {
    let cls = LoadedClass {
        this_class: "Adder".to_string(),
        super_class: "java/lang/Object".to_string(),
        const_pool: sample_const_pool(),
        methods: vec![
            MethodInfo {
                name_index: 9,
                descriptor_index: 10,
                max_stack: 2,
                max_locals: 2,
                codes: add_codes(),
            },
            MethodInfo {
                name_index: 11,
                descriptor_index: 6,
                max_stack: 2,
                max_locals: 1,
                codes: main_codes(),
            },
        ],
    };
    let area = load(vec![cls]).unwrap();
    assert!(area.resolve_method("Adder.add:(II)I").is_ok());
    assert!(area.resolve_method("Adder.main:()V").is_ok());
    let class = area.resolve_class("Adder").unwrap();
    assert_eq!(class.super_class.as_deref(), Some("java/lang/Object"));
    assert!(matches!(
        execute(&area, "Adder.main:()V", 10_000),
        ExitStatus::Completed
    ));
}

#[test]
fn load_fails_on_an_unresolvable_method_name() {
    let cls = LoadedClass {
        this_class: "Adder".to_string(),
        super_class: "java/lang/Object".to_string(),
        const_pool: sample_const_pool(),
        methods: vec![MethodInfo {
            name_index: 0,
            descriptor_index: 10,
            max_stack: 2,
            max_locals: 2,
            codes: add_codes(),
        }],
    };
    assert!(matches!(
        load(vec![cls]),
        Err(VmError::ConstantResolution(_))
    ));
}
