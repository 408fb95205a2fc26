//! The core's boundary: `load` turns what the loader supplies into a
//! method registry, and `execute` drives an entry signature to its exit
//! status.

use vstd::prelude::*;
use vstd::string::StringExecFns;

use crate::Opcode;
use crate::call_stack::{ExitStatus, JvmStack, RunOut, machine_run};
use crate::const_pool::{ConstPool, CpInfo, resolve_text};
use crate::error::{LookupErrorSpec, VmError, VmErrorSpec};
use crate::frame::{Frame, FrameCtx, FrameState};
use crate::method_area::{AreaSpec, Class, ClassSpec, Method, MethodArea, MethodSpec};
use crate::table::Table;

verus! {

/// One method record as the loader supplies it: where its name and
/// descriptor stand in the class's constant pool, its declared sizes,
/// and its decoded instruction sequence.
pub struct MethodInfo {
    pub name_index: u16,
    pub descriptor_index: u16,
    pub max_stack: u16,
    pub max_locals: u16,
    pub codes: Vec<Opcode>,
}

/// Mathematical image of a [`MethodInfo`].
pub ghost struct MethodInfoSpec {
    pub name_index: u16,
    pub descriptor_index: u16,
    pub max_stack: u16,
    pub max_locals: u16,
    pub codes: Seq<Opcode>,
}

impl View for MethodInfo {
    type V = MethodInfoSpec;

    open spec fn view(&self) -> MethodInfoSpec {
        MethodInfoSpec {
            name_index: self.name_index,
            descriptor_index: self.descriptor_index,
            max_stack: self.max_stack,
            max_locals: self.max_locals,
            codes: self.codes@,
        }
    }
}

/// One class as the loader supplies it: its name, its super-class name
/// (a lookup key), its decoded constant pool, and its method records.
pub struct LoadedClass {
    pub this_class: String,
    pub super_class: String,
    pub const_pool: ConstPool,
    pub methods: Vec<MethodInfo>,
}

/// Mathematical image of a [`LoadedClass`].
pub ghost struct LoadedClassSpec {
    pub this_class: Seq<char>,
    pub super_class: Seq<char>,
    pub pool: Seq<CpInfo>,
    pub methods: Seq<MethodInfoSpec>,
}

impl View for LoadedClass {
    type V = LoadedClassSpec;

    open spec fn view(&self) -> LoadedClassSpec {
        LoadedClassSpec {
            this_class: self.this_class@,
            super_class: self.super_class@,
            pool: self.const_pool@,
            methods: self.methods@.map_values(|m: MethodInfo| m@),
        }
    }
}

/// The canonical signature key exchanged at the loader boundary:
/// `ClassName.name:descriptor`.
pub open spec fn signature_of(class: Seq<char>, name: Seq<char>, descriptor: Seq<char>) -> Seq<
    char,
> {
    class + seq!['.'] + name + seq![':'] + descriptor
}

/// Registers one class's method records in order into `methods`, each
/// under its signature resolved from the class's pool; the first
/// resolution fault aborts the load.
pub open spec fn methods_spec(
    methods: Map<Seq<char>, MethodSpec>,
    pool: Seq<CpInfo>,
    class: Seq<char>,
    infos: Seq<MethodInfoSpec>,
) -> Result<Map<Seq<char>, MethodSpec>, VmErrorSpec>
    decreases infos.len(),
{
    if infos.len() == 0 {
        Ok(methods)
    } else {
        let info = infos.first();
        match resolve_text(pool, info.name_index) {
            Err(e) => Err(VmErrorSpec::ConstantResolution(e)),
            Ok(name) => match resolve_text(pool, info.descriptor_index) {
                Err(e) => Err(VmErrorSpec::ConstantResolution(e)),
                Ok(descriptor) => methods_spec(
                    methods.insert(
                        signature_of(class, name, descriptor),
                        MethodSpec {
                            stack_size: info.max_stack as nat,
                            local_size: info.max_locals as nat,
                            codes: info.codes,
                            class,
                        },
                    ),
                    pool,
                    class,
                    infos.drop_first(),
                ),
            },
        }
    }
}

/// Loads one class into the registry: its methods first, then the class
/// itself under its name, carrying its pool and its super-class name.
pub open spec fn load_class_spec(area: AreaSpec, cls: LoadedClassSpec) -> Result<
    AreaSpec,
    VmErrorSpec,
> {
    match methods_spec(area.methods, cls.pool, cls.this_class, cls.methods) {
        Err(e) => Err(e),
        Ok(methods) => Ok(
            AreaSpec {
                methods,
                classes: area.classes.insert(
                    cls.this_class,
                    ClassSpec {
                        super_class: Some(cls.super_class),
                        pool: cls.pool,
                        methods: Map::empty(),
                    },
                ),
            },
        ),
    }
}

/// Loads the classes in order into `area`.
pub open spec fn load_from_spec(area: AreaSpec, classes: Seq<LoadedClassSpec>) -> Result<
    AreaSpec,
    VmErrorSpec,
>
    decreases classes.len(),
{
    if classes.len() == 0 {
        Ok(area)
    } else {
        match load_class_spec(area, classes.first()) {
            Err(e) => Err(e),
            Ok(next) => load_from_spec(next, classes.drop_first()),
        }
    }
}

/// The registry `load` builds from what the loader supplies, or the
/// first fault met while naming a method.
pub open spec fn load_spec(classes: Seq<LoadedClassSpec>) -> Result<AreaSpec, VmErrorSpec> {
    load_from_spec(
        AreaSpec {
            methods: Map::<Seq<char>, MethodSpec>::empty(),
            classes: Map::<Seq<char>, ClassSpec>::empty(),
        },
        classes,
    )
}

/// Mathematical image of `load`'s executable result.
pub open spec fn area_of(r: Result<MethodArea, VmError>) -> Result<AreaSpec, VmErrorSpec> {
    match r {
        Ok(area) => Ok(area@),
        Err(e) => Err(e@),
    }
}

/// Registers one class's methods and then the class itself, as the
/// loader's per-class step.
#[verifier::loop_isolation(false)]
fn load_class(area: &mut MethodArea, cls: LoadedClass) -> (r: Result<(), VmError>)
    ensures
        match r {
            Ok(()) => load_class_spec(old(area)@, cls@) == Ok::<AreaSpec, VmErrorSpec>(
                final(area)@,
            ),
            Err(e) => load_class_spec(old(area)@, cls@) == Err::<AreaSpec, VmErrorSpec>(e@),
        },
{
    let ghost cls0 = cls@;
    let LoadedClass { this_class, super_class, const_pool, methods } = cls;
    let mut infos = methods;
    while infos.len() > 0
        invariant
            methods_spec(old(area)@.methods, cls0.pool, cls0.this_class, cls0.methods)
                == methods_spec(
                area@.methods,
                cls0.pool,
                cls0.this_class,
                infos@.map_values(|m: MethodInfo| m@),
            ),
            area@.classes == old(area)@.classes,
            this_class@ == cls0.this_class,
            super_class@ == cls0.super_class,
            const_pool@ == cls0.pool,
        decreases infos@.len(),
    {
        let ghost infos_before = infos@.map_values(|m: MethodInfo| m@);
        let info = infos.remove(0);
        proof {
            assert(infos@.map_values(|m: MethodInfo| m@) =~= infos_before.drop_first());
            assert(info@ == infos_before.first());
        }
        let name = match const_pool.resolve(info.name_index) {
            Ok(s) => s,
            Err(e) => {
                return Err(VmError::ConstantResolution(e));
            },
        };
        let descriptor = match const_pool.resolve(info.descriptor_index) {
            Ok(s) => s,
            Err(e) => {
                return Err(VmError::ConstantResolution(e));
            },
        };
        let key = this_class.clone().concat(".").concat(name.as_str()).concat(":").concat(
            descriptor.as_str(),
        );
        proof {
            reveal_strlit(".");
            reveal_strlit(":");
            assert("."@ =~= seq!['.']);
            assert(":"@ =~= seq![':']);
            assert(key@ =~= signature_of(this_class@, name@, descriptor@));
        }
        let method = Method::new(
            info.max_stack as usize,
            info.max_locals as usize,
            info.codes,
            this_class.as_str(),
        );
        area.put(key.as_str(), method);
    }
    area.put_class(
        this_class.as_str(),
        Class { super_class: Some(super_class), const_pool, methods: Table::new() },
    );
    Ok(())
}

/// Builds the registry from the loader's classes: every method record is
/// registered under its canonical signature, every class under its name.
/// The first constant-pool fault met while naming a method aborts the
/// load.
#[verifier::loop_isolation(false)]
pub fn load(classes: Vec<LoadedClass>) -> (r: Result<MethodArea, VmError>)
    ensures
        area_of(r) == load_spec(classes@.map_values(|c: LoadedClass| c@)),
{
    let mut area = MethodArea::new();
    let ghost all = classes@.map_values(|c: LoadedClass| c@);
    proof {
        assert(area@ == (AreaSpec {
            methods: Map::<Seq<char>, MethodSpec>::empty(),
            classes: Map::<Seq<char>, ClassSpec>::empty(),
        }));
    }
    let mut remaining = classes;
    while remaining.len() > 0
        invariant
            load_spec(all) == load_from_spec(
                area@,
                remaining@.map_values(|c: LoadedClass| c@),
            ),
        decreases remaining@.len(),
    {
        let ghost before = remaining@.map_values(|c: LoadedClass| c@);
        let cls = remaining.remove(0);
        proof {
            assert(remaining@.map_values(|c: LoadedClass| c@) =~= before.drop_first());
            assert(cls@ == before.first());
        }
        match load_class(&mut area, cls) {
            Ok(()) => {},
            Err(e) => {
                return Err(e);
            },
        }
    }
    Ok(area)
}

/// What executing `entry` against a loaded registry yields within the
/// step budget: the entry method runs in a fresh frame whose locals are
/// zero-initialized, and the call stack drives it per the protocol.
pub open spec fn execute_spec(area: AreaSpec, entry: Seq<char>, fuel: nat) -> RunOut {
    if !area.methods.contains_key(entry) {
        RunOut::Fault(
            VmErrorSpec::RegistryLookup(LookupErrorSpec::MethodNotFound { signature: entry }),
        )
    } else {
        let m = area.methods[entry];
        if !area.classes.contains_key(m.class) {
            RunOut::Fault(
                VmErrorSpec::RegistryLookup(LookupErrorSpec::ClassNotFound { name: m.class }),
            )
        } else {
            let cls = area.classes[m.class];
            let entry_frame = FrameCtx {
                code: m.codes,
                pool: cls.pool,
                max_stack: m.stack_size,
                state: FrameState {
                    pc: 0,
                    locals: Seq::new(m.local_size, |i: int| 0i32),
                    stack: Seq::empty(),
                },
            };
            machine_run(area, seq![entry_frame], fuel)
        }
    }
}

/// A vector of `n` zeroed local slots.
fn zero_locals(n: usize) -> (r: Vec<i32>)
    ensures
        r@ == Seq::new(n as nat, |i: int| 0i32),
{
    let mut r: Vec<i32> = Vec::new();
    let mut i: usize = 0;
    while i < n
        invariant
            i <= n,
            r@.len() == i,
            forall|j: int| 0 <= j < i ==> r@[j] == 0i32,
        decreases n - i,
    {
        r.push(0);
        i += 1;
    }
    proof {
        assert(r@ =~= Seq::new(n as nat, |i: int| 0i32));
    }
    r
}

/// Runs the method registered under `entry_signature` to its exit
/// status, spending at most `max_steps` instruction steps.
pub fn execute(area: &MethodArea, entry_signature: &str, max_steps: u64) -> (r: ExitStatus)
    ensures
        r@ == execute_spec(area@, entry_signature@, max_steps as nat),
{
    let method = match area.resolve_method(entry_signature) {
        Ok(m) => m,
        Err(e) => {
            return ExitStatus::Fault(e);
        },
    };
    let class = match area.resolve_class(method.class.as_str()) {
        Ok(c) => c,
        Err(e) => {
            return ExitStatus::Fault(e);
        },
    };
    let locals = zero_locals(method.local_size);
    let main_frame = Frame::new(locals, method, &class.const_pool);
    let ghost entry_frame = main_frame@;
    let mut stack = JvmStack::new(256, main_frame);
    let mut fuel = max_steps;
    stack.run(area, &mut fuel)
}

} // verus!
