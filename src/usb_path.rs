//! A position in the USB topology.

use vstd::prelude::*;

verus! {

/// One step of a path through the topology: the root, or a host controller,
/// hub or device known by its name.
#[derive(Debug)]
pub enum Component<'a> {
    Root,
    HostController(&'a [u16]),
    Hub(&'a [u16]),
    Device(&'a [u16]),
}

} // verus!
