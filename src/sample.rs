//! The samples that make up each metric category, and how two of them compare.
use vstd::prelude::*;

use crate::usage::{same_usage, usage_equal};

verus! {

/// A sample type that compares by full structural equality and can be copied
/// without loss.
pub trait Sample: Sized {
    /// Whether two samples are equal, field by field.
    spec fn same(&self, other: &Self) -> bool;

    fn same_as(&self, other: &Self) -> (r: bool)
        ensures
            r == self.same(other),
    ;

    fn duplicate(&self) -> (r: Self)
        ensures
            r == *self,
    ;
}

/// Disk traffic of one process, in bytes.
#[derive(Clone, Copy, Debug, PartialEq, Eq, Structural)]
pub struct DiskUsage {
    pub total_written_bytes: u64,
    pub written_bytes: u64,
    pub total_read_bytes: u64,
    pub read_bytes: u64,
}

/// One process as seen in one cycle.
#[derive(Clone, Debug)]
pub struct ProcessSample {
    pub pid: u32,
    pub name: String,
    /// Bits of the process's CPU usage, a single precision float.
    pub usage_bits: u32,
    pub memory_usage: u64,
    pub disk_usage: DiskUsage,
}

/// One logical CPU as seen in one cycle.
#[derive(Clone, Copy, Debug)]
pub struct CpuSample {
    /// Bits of the CPU's usage percentage, a single precision float.
    pub usage_bits: u32,
    pub frequency: u64,
}

/// Whether a unit's definition has been loaded by the service manager.
#[derive(Clone, Copy, Debug, PartialEq, Eq, Structural)]
pub enum LoadState {
    Masked,
    Loaded,
    Unknown,
}

/// A unit's high-level activation state.
#[derive(Clone, Copy, Debug, PartialEq, Eq, Structural)]
pub enum ActiveState {
    Inactive,
    Active,
    Activating,
    Deactivating,
    Failed,
    Reloading,
    Unknown,
}

/// One service-manager unit as seen in one cycle.
#[derive(Clone, Debug)]
pub struct UnitSample {
    pub unit_name: String,
    pub loaded: LoadState,
    pub active: ActiveState,
    pub sub_state: String,
    pub description: String,
}

impl Sample for ProcessSample {
    open spec fn same(&self, other: &Self) -> bool {
        &&& self.pid == other.pid
        &&& self.name@ == other.name@
        &&& same_usage(self.usage_bits, other.usage_bits)
        &&& self.memory_usage == other.memory_usage
        &&& self.disk_usage == other.disk_usage
    }

    fn same_as(&self, other: &Self) -> (r: bool) {
        self.pid == other.pid && self.name == other.name && usage_equal(
            self.usage_bits,
            other.usage_bits,
        ) && self.memory_usage == other.memory_usage && self.disk_usage == other.disk_usage
    }

    fn duplicate(&self) -> (r: Self) {
        ProcessSample {
            pid: self.pid,
            name: self.name.clone(),
            usage_bits: self.usage_bits,
            memory_usage: self.memory_usage,
            disk_usage: self.disk_usage,
        }
    }
}

impl Sample for CpuSample {
    open spec fn same(&self, other: &Self) -> bool {
        same_usage(self.usage_bits, other.usage_bits) && self.frequency == other.frequency
    }

    fn same_as(&self, other: &Self) -> (r: bool) {
        usage_equal(self.usage_bits, other.usage_bits) && self.frequency == other.frequency
    }

    fn duplicate(&self) -> (r: Self) {
        *self
    }
}

impl Sample for UnitSample {
    open spec fn same(&self, other: &Self) -> bool {
        &&& self.unit_name@ == other.unit_name@
        &&& self.loaded == other.loaded
        &&& self.active == other.active
        &&& self.sub_state@ == other.sub_state@
        &&& self.description@ == other.description@
    }

    fn same_as(&self, other: &Self) -> (r: bool) {
        self.unit_name == other.unit_name && self.loaded == other.loaded && self.active
            == other.active && self.sub_state == other.sub_state && self.description
            == other.description
    }

    fn duplicate(&self) -> (r: Self) {
        UnitSample {
            unit_name: self.unit_name.clone(),
            loaded: self.loaded,
            active: self.active,
            sub_state: self.sub_state.clone(),
            description: self.description.clone(),
        }
    }
}

/// Two lists are equal when they have the same length and agree position by
/// position.
pub open spec fn same_lists<T: Sample>(a: Seq<T>, b: Seq<T>) -> bool {
    a.len() == b.len() && forall|i: int| 0 <= i < a.len() ==> (#[trigger] a[i]).same(&b[i])
}

/// Order- and length-sensitive comparison of two lists.
pub fn lists_match<T: Sample>(a: &Vec<T>, b: &Vec<T>) -> (r: bool)
    ensures
        r == same_lists(a@, b@),
{
    if a.len() != b.len() {
        return false;
    }
    let mut i: usize = 0;
    while i < a.len()
        invariant
            a.len() == b.len(),
            0 <= i <= a.len(),
            forall|j: int| 0 <= j < i ==> (#[trigger] a@[j]).same(&b@[j]),
        decreases a.len() - i,
    {
        if !a[i].same_as(&b[i]) {
            return false;
        }
        i += 1;
    }
    true
}

/// A copy of a list, element by element.
pub fn copy_list<T: Sample>(v: &Vec<T>) -> (r: Vec<T>)
    ensures
        r@ == v@,
{
    let mut out: Vec<T> = Vec::new();
    let mut i: usize = 0;
    while i < v.len()
        invariant
            0 <= i <= v.len(),
            out@ == v@.subrange(0, i as int),
        decreases v.len() - i,
    {
        out.push(v[i].duplicate());
        i += 1;
        assert(out@ =~= v@.subrange(0, i as int));
    }
    assert(out@ =~= v@);
    out
}

} // verus!
