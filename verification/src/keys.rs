use vstd::prelude::*;

verus! {

/// An equality-comparable key identity. The key-binding store that
/// produces these values is outside this crate; the viewer only ever
/// compares them for equality.
#[derive(Clone, Copy, Debug, PartialEq, Eq, Structural)]
pub struct Key {
    pub code: u32,
}

/// The injected key bindings the viewer reacts to.
#[derive(Clone, Copy, Debug, PartialEq, Eq, Structural)]
pub struct KeyConfig {
    pub move_down: Key,
    pub move_up: Key,
}

} // verus!
