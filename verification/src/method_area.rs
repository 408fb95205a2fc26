//! The method area: the process-wide registry of loaded classes and
//! methods. Built once by the loader, read-only during execution.

use vstd::prelude::*;

use crate::Opcode;
use crate::const_pool::{ConstPool, CpInfo};
use crate::error::{LookupError, LookupErrorSpec, VmError, VmErrorSpec};
use crate::table::Table;

verus! {

/// An immutable method descriptor: owning class name, declared maximum
/// operand-stack depth, declared local-variable slot count, and the
/// decoded instruction sequence.
#[derive(Debug)]
pub struct Method {
    pub stack_size: usize,
    pub local_size: usize,
    pub codes: Vec<Opcode>,
    pub class: String,
}

/// Mathematical image of a [`Method`].
pub ghost struct MethodSpec {
    pub stack_size: nat,
    pub local_size: nat,
    pub codes: Seq<Opcode>,
    pub class: Seq<char>,
}

impl View for Method {
    type V = MethodSpec;

    open spec fn view(&self) -> MethodSpec {
        MethodSpec {
            stack_size: self.stack_size as nat,
            local_size: self.local_size as nat,
            codes: self.codes@,
            class: self.class@,
        }
    }
}

impl Method {
    /// A method descriptor owned by the class named `class`.
    pub fn new(stack_size: usize, local_size: usize, codes: Vec<Opcode>, class: &str) -> (m:
        Method)
        ensures
            m@ == (MethodSpec {
                stack_size: stack_size as nat,
                local_size: local_size as nat,
                codes: codes@,
                class: class@,
            }),
    {
        Method { stack_size, local_size, codes, class: class.to_owned() }
    }
}

/// A loaded class: its super-class name (a lookup key into the registry,
/// not an owned reference), its constant pool, and its own signature-to-
/// method mapping.
pub struct Class {
    pub super_class: Option<String>,
    pub const_pool: ConstPool,
    pub methods: Table<Method>,
}

/// Mathematical image of a [`Class`].
pub ghost struct ClassSpec {
    pub super_class: Option<Seq<char>>,
    pub pool: Seq<CpInfo>,
    pub methods: Map<Seq<char>, MethodSpec>,
}

impl View for Class {
    type V = ClassSpec;

    open spec fn view(&self) -> ClassSpec {
        ClassSpec {
            super_class: match self.super_class {
                Some(s) => Some(s@),
                None => None,
            },
            pool: self.const_pool@,
            methods: self.methods@,
        }
    }
}

/// The registry's mathematical image: a map from signature to method and
/// a map from class name to class.
pub ghost struct AreaSpec {
    pub methods: Map<Seq<char>, MethodSpec>,
    pub classes: Map<Seq<char>, ClassSpec>,
}

/// The method area. A single writer fills it before execution starts;
/// execution only reads it.
pub struct MethodArea {
    methods: Table<Method>,
    classes: Table<Class>,
}

impl View for MethodArea {
    type V = AreaSpec;

    closed spec fn view(&self) -> AreaSpec {
        AreaSpec { methods: self.methods@, classes: self.classes@ }
    }
}

impl MethodArea {
    /// An empty registry.
    pub fn new() -> (area: MethodArea)
        ensures
            area@.methods == Map::<Seq<char>, MethodSpec>::empty(),
            area@.classes == Map::<Seq<char>, ClassSpec>::empty(),
    {
        MethodArea { methods: Table::new(), classes: Table::new() }
    }

    /// Registers `method` under the canonical signature `key`,
    /// replacing any earlier registration.
    pub fn put(&mut self, key: &str, method: Method)
        ensures
            final(self)@.methods == old(self)@.methods.insert(key@, method@),
            final(self)@.classes == old(self)@.classes,
    {
        self.methods.insert(key, method);
    }

    /// Registers `class` under its name, replacing any earlier
    /// registration.
    pub fn put_class(&mut self, key: &str, class: Class)
        ensures
            final(self)@.classes == old(self)@.classes.insert(key@, class@),
            final(self)@.methods == old(self)@.methods,
    {
        self.classes.insert(key, class);
    }

    /// The method registered under signature `key`; fails with
    /// `MethodNotFound` naming the signature if there is none.
    pub fn resolve_method(&self, key: &str) -> (r: Result<&Method, VmError>)
        ensures
            match r {
                Ok(m) => self@.methods.contains_key(key@) && m@ == self@.methods[key@],
                Err(e) => !self@.methods.contains_key(key@) && e@ == VmErrorSpec::RegistryLookup(
                    LookupErrorSpec::MethodNotFound { signature: key@ },
                ),
            },
    {
        match self.methods.get(key) {
            Some(m) => Ok(m),
            None => Err(
                VmError::RegistryLookup(LookupError::MethodNotFound { signature: key.to_owned() }),
            ),
        }
    }

    /// The class registered under `key`; fails with `ClassNotFound`
    /// naming the class if there is none.
    pub fn resolve_class(&self, key: &str) -> (r: Result<&Class, VmError>)
        ensures
            match r {
                Ok(c) => self@.classes.contains_key(key@) && c@ == self@.classes[key@],
                Err(e) => !self@.classes.contains_key(key@) && e@ == VmErrorSpec::RegistryLookup(
                    LookupErrorSpec::ClassNotFound { name: key@ },
                ),
            },
    {
        match self.classes.get(key) {
            Some(c) => Ok(c),
            None => Err(
                VmError::RegistryLookup(LookupError::ClassNotFound { name: key.to_owned() }),
            ),
        }
    }
}

} // verus!
