//! The library's model of an enumerated device, and the verified listing and
//! search logic over a fresh enumeration.
//!
//! An enumeration is a sequence of descriptors in the order the host yielded
//! them; the logic reads one thing from each device, its system port name.

use vstd::prelude::*;

verus! {

/// What one enumerated device contributes to the logic: the system port name
/// it is addressed by.
#[derive(Clone, Debug)]
pub struct DeviceDescriptor {
    pub system_port: String,
}

/// The port names of a sequence of descriptors, in enumeration order.
pub open spec fn port_names(ds: Seq<DeviceDescriptor>) -> Seq<Seq<char>> {
    ds.map_values(|d: DeviceDescriptor| d.system_port@)
}

/// Some device of the enumeration is addressed by this port.
pub open spec fn has_port(ds: Seq<DeviceDescriptor>, port: Seq<char>) -> bool {
    exists|i: int| 0 <= i < ds.len() && ds[i].system_port@ == port
}

/// The device at index `i` is the first of the enumeration addressed by this
/// port.
pub open spec fn first_match(ds: Seq<DeviceDescriptor>, port: Seq<char>, i: int) -> bool {
    &&& 0 <= i < ds.len()
    &&& ds[i].system_port@ == port
    &&& forall|j: int| 0 <= j < i ==> ds[j].system_port@ != port
}

/// The port names of the given devices, in enumeration order: no sorting, no
/// deduplication.
pub fn list_ports(devices: &Vec<DeviceDescriptor>) -> (r: Vec<String>)
    ensures
        r@.len() == devices@.len(),
        forall|i: int| 0 <= i < devices@.len() ==> r@[i]@ == port_names(devices@)[i],
{
    let mut ports: Vec<String> = Vec::new();
    let mut i: usize = 0;
    while i < devices.len()
        invariant
            i <= devices@.len(),
            ports@.len() == i,
            forall|j: int| 0 <= j < i ==> ports@[j]@ == port_names(devices@)[j],
        decreases devices@.len() - i,
    {
        ports.push(devices[i].system_port.clone());
        i = i + 1;
    }
    ports
}

/// The index of the first device addressed by `port`, searching in
/// enumeration order; `None` exactly when no device matches.
pub fn find_port_index(devices: &Vec<DeviceDescriptor>, port: &String) -> (r: Option<usize>)
    ensures
        r matches Some(i) ==> first_match(devices@, port@, i as int),
        r is None <==> !has_port(devices@, port@),
{
    let mut i: usize = 0;
    while i < devices.len()
        invariant
            i <= devices@.len(),
            forall|j: int| 0 <= j < i ==> devices@[j].system_port@ != port@,
        decreases devices@.len() - i,
    {
        if devices[i].system_port == *port {
            return Some(i);
        }
        i = i + 1;
    }
    None
}

} // verus!
