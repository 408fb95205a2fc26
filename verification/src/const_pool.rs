//! Per-class constant pool: a table of symbolic and literal entries that
//! resolves composite entries into canonical text keys.

use vstd::prelude::*;
use vstd::string::StringExecFns;

use crate::error::CpError;

verus! {

/// One constant-pool table entry.
///
/// The index space is 1-based: a `Placeholder` occupies position 0.
/// Entries may reference other entries by index, forming an acyclic
/// reference graph. Floating-point literals are carried only as their
/// raw IEEE-754 bit patterns; nothing in this machine reads them, and
/// they resolve to no text.
#[derive(Debug)]
pub enum CpInfo {
    Placeholder,
    ClassRef { name_index: u16 },
    FieldRef { class_index: u16, name_and_type_index: u16 },
    MethodRef { class_index: u16, name_and_type_index: u16 },
    InterfaceMethodRef { class_index: u16, name_and_type_index: u16 },
    StringRef { string_index: u16 },
    Integer(i32),
    /// Raw bit pattern of a single-precision literal.
    Float(u32),
    Long(i64),
    /// Raw bit pattern of a double-precision literal.
    Double(u64),
    NameAndType { name_index: u16, descriptor_index: u16 },
    Utf8(String),
    MethodHandle,
    MethodType,
    Dynamic,
    InvokeDynamic,
    Module,
    Package,
}

/// What resolution of `pool[index]` yields, given at most `fuel` steps of
/// recursion through entry references.
///
/// `Utf8` yields its text. `ClassRef` recurses into its name entry.
/// `NameAndType` yields `"name:descriptor"`, `MethodRef` yields
/// `"ClassName.name:descriptor"` — the canonical signature key. Every
/// other tag lacks a textual representation. A pool whose references are
/// acyclic never exhausts a fuel of `pool.len()`, since a resolution chain
/// visits distinct entries; on a cyclic pool the fuel runs out and the
/// entry counts as unresolvable.
pub open spec fn resolve_entry(pool: Seq<CpInfo>, index: u16, fuel: nat) -> Result<
    Seq<char>,
    CpError,
>
    decreases fuel,
{
    if index >= pool.len() {
        Err(CpError::IndexOutOfRange { index })
    } else {
        match pool[index as int] {
            CpInfo::Utf8(s) => Ok(s@),
            CpInfo::ClassRef { name_index } => {
                if fuel == 0 {
                    Err(CpError::UnresolvableConstant { index })
                } else {
                    resolve_entry(pool, name_index, (fuel - 1) as nat)
                }
            },
            CpInfo::NameAndType { name_index, descriptor_index } => {
                if fuel == 0 {
                    Err(CpError::UnresolvableConstant { index })
                } else {
                    match resolve_entry(pool, name_index, (fuel - 1) as nat) {
                        Err(e) => Err(e),
                        Ok(name) => match resolve_entry(pool, descriptor_index, (fuel - 1) as nat) {
                            Err(e) => Err(e),
                            Ok(descriptor) => Ok(name + seq![':'] + descriptor),
                        },
                    }
                }
            },
            CpInfo::MethodRef { class_index, name_and_type_index } => {
                if fuel == 0 {
                    Err(CpError::UnresolvableConstant { index })
                } else {
                    match resolve_entry(pool, class_index, (fuel - 1) as nat) {
                        Err(e) => Err(e),
                        Ok(class_name) => match resolve_entry(
                            pool,
                            name_and_type_index,
                            (fuel - 1) as nat,
                        ) {
                            Err(e) => Err(e),
                            Ok(name_and_type) => Ok(class_name + seq!['.'] + name_and_type),
                        },
                    }
                }
            },
            _ => Err(CpError::UnresolvableConstant { index }),
        }
    }
}

/// The canonical result of resolving `pool[index]`: resolution with fuel
/// for the longest reference chain an acyclic pool can hold.
pub open spec fn resolve_text(pool: Seq<CpInfo>, index: u16) -> Result<Seq<char>, CpError> {
    resolve_entry(pool, index, pool.len())
}

/// The mathematical image of an executable resolution result.
pub open spec fn text_of(r: Result<String, CpError>) -> Result<Seq<char>, CpError> {
    match r {
        Ok(s) => Ok(s@),
        Err(e) => Err(e),
    }
}

/// Law: resolution is a pure function of the pool's contents and the
/// index. Resolving the same index twice against the same contents — in
/// particular, twice against one unchanged pool — yields identical text
/// both times.
pub proof fn lemma_resolve_deterministic(pool1: Seq<CpInfo>, pool2: Seq<CpInfo>, index: u16)
    requires
        pool1 == pool2,
    ensures
        resolve_text(pool1, index) == resolve_text(pool2, index),
{
}

/// An equal copy of one entry.
fn dup_entry(e: &CpInfo) -> (r: CpInfo)
    ensures
        r == *e,
{
    match e {
        CpInfo::Placeholder => CpInfo::Placeholder,
        CpInfo::ClassRef { name_index } => CpInfo::ClassRef { name_index: *name_index },
        CpInfo::FieldRef { class_index, name_and_type_index } => CpInfo::FieldRef {
            class_index: *class_index,
            name_and_type_index: *name_and_type_index,
        },
        CpInfo::MethodRef { class_index, name_and_type_index } => CpInfo::MethodRef {
            class_index: *class_index,
            name_and_type_index: *name_and_type_index,
        },
        CpInfo::InterfaceMethodRef { class_index, name_and_type_index } => CpInfo::InterfaceMethodRef {
            class_index: *class_index,
            name_and_type_index: *name_and_type_index,
        },
        CpInfo::StringRef { string_index } => CpInfo::StringRef { string_index: *string_index },
        CpInfo::Integer(v) => CpInfo::Integer(*v),
        CpInfo::Float(bits) => CpInfo::Float(*bits),
        CpInfo::Long(v) => CpInfo::Long(*v),
        CpInfo::Double(bits) => CpInfo::Double(*bits),
        CpInfo::NameAndType { name_index, descriptor_index } => CpInfo::NameAndType {
            name_index: *name_index,
            descriptor_index: *descriptor_index,
        },
        CpInfo::Utf8(s) => CpInfo::Utf8(s.clone()),
        CpInfo::MethodHandle => CpInfo::MethodHandle,
        CpInfo::MethodType => CpInfo::MethodType,
        CpInfo::Dynamic => CpInfo::Dynamic,
        CpInfo::InvokeDynamic => CpInfo::InvokeDynamic,
        CpInfo::Module => CpInfo::Module,
        CpInfo::Package => CpInfo::Package,
    }
}

/// The ordered entry table of exactly one class. Immutable after
/// construction.
#[derive(Debug)]
pub struct ConstPool {
    entries: Vec<CpInfo>,
}

impl View for ConstPool {
    type V = Seq<CpInfo>;

    closed spec fn view(&self) -> Seq<CpInfo> {
        self.entries@
    }
}

impl ConstPool {
    /// Wraps an already-decoded entry table, `Placeholder` at position 0
    /// included.
    pub fn from_vec(data: Vec<CpInfo>) -> (pool: ConstPool)
        ensures
            pool@ == data@,
    {
        ConstPool { entries: data }
    }

    /// A structurally equal copy of the pool, for a frame of a second
    /// activation of the same class.
    pub fn duplicate(&self) -> (r: ConstPool)
        ensures
            r@ == self@,
    {
        let mut entries: Vec<CpInfo> = Vec::new();
        let mut i: usize = 0;
        while i < self.entries.len()
            invariant
                i <= self.entries@.len(),
                entries@.len() == i,
                forall|j: int| 0 <= j < i ==> entries@[j] == self.entries@[j],
            decreases self.entries@.len() - i,
        {
            entries.push(dup_entry(&self.entries[i]));
            i += 1;
        }
        proof {
            assert(entries@ =~= self.entries@);
        }
        ConstPool { entries }
    }

    /// Resolves the entry at `index` to its canonical text.
    pub fn resolve(&self, index: u16) -> (r: Result<String, CpError>)
        ensures
            text_of(r) == resolve_text(self@, index),
    {
        let fuel = self.entries.len();
        self.resolve_fuel(index, fuel)
    }

    fn resolve_fuel(&self, index: u16, fuel: usize) -> (r: Result<String, CpError>)
        ensures
            text_of(r) == resolve_entry(self@, index, fuel as nat),
        decreases fuel,
    {
        if index as usize >= self.entries.len() {
            return Err(CpError::IndexOutOfRange { index });
        }
        let entry = &self.entries[index as usize];
        match entry {
            CpInfo::Utf8(s) => Ok(s.clone()),
            CpInfo::ClassRef { name_index } => {
                if fuel == 0 {
                    Err(CpError::UnresolvableConstant { index })
                } else {
                    self.resolve_fuel(*name_index, fuel - 1)
                }
            },
            CpInfo::NameAndType { name_index, descriptor_index } => {
                if fuel == 0 {
                    Err(CpError::UnresolvableConstant { index })
                } else {
                    match self.resolve_fuel(*name_index, fuel - 1) {
                        Err(e) => Err(e),
                        Ok(name) => match self.resolve_fuel(*descriptor_index, fuel - 1) {
                            Err(e) => Err(e),
                            Ok(descriptor) => {
                                proof {
                                    reveal_strlit(":");
                                    assert(":"@ =~= seq![':']);
                                }
                                let joined = name.concat(":").concat(descriptor.as_str());
                                Ok(joined)
                            },
                        },
                    }
                }
            },
            CpInfo::MethodRef { class_index, name_and_type_index } => {
                if fuel == 0 {
                    Err(CpError::UnresolvableConstant { index })
                } else {
                    match self.resolve_fuel(*class_index, fuel - 1) {
                        Err(e) => Err(e),
                        Ok(class_name) => match self.resolve_fuel(*name_and_type_index, fuel - 1) {
                            Err(e) => Err(e),
                            Ok(name_and_type) => {
                                proof {
                                    reveal_strlit(".");
                                    assert("."@ =~= seq!['.']);
                                }
                                let joined = class_name.concat(".").concat(name_and_type.as_str());
                                Ok(joined)
                            },
                        },
                    }
                }
            },
            _ => Err(CpError::UnresolvableConstant { index }),
        }
    }
}

} // verus!
