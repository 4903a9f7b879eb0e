use vstd::prelude::*;

verus! {

/// Smallest object alignment the binding guarantees.
pub const MIN_ALIGNMENT: usize = 8;

/// Largest object alignment the binding accepts.
pub const MAX_ALIGNMENT: usize = 64;

/// Marker for the hosted runtime this binding serves. The collector engine
/// is instantiated over it; the alignment constants above are the bounds it
/// advertises.
#[derive(Default)]
pub struct PyPy;

/// Capability slot for enumerating the runtime's mutator threads. Full
/// enumeration needs the runtime's thread model, which the runtime itself
/// must supply; until it does, every thread is conservatively treated as a
/// mutator.
pub struct VMActivePlan {}

impl VMActivePlan {
    /// Whether a thread is a mutator: without runtime-supplied thread
    /// introspection, every thread is taken to be one.
    pub fn is_mutator(_tls: usize) -> (b: bool)
        ensures
            b,
    {
        true
    }
}

/// Capability slot for stopping, resuming and preparing mutator threads
/// around a collection cycle; the runtime must supply the thread control
/// this needs.
pub struct VMCollection {}

/// Capability slot for scanning thread stacks and object fields for roots
/// and edges; the runtime must supply the stack and object layout knowledge
/// this needs. Code-unit roots do not wait for it: they are covered by the
/// root registry's scan snapshot.
pub struct VMScanning {}

} // verus!
