use vstd::prelude::*;

verus! {

/// Nametable mirroring arrangement of the attached cartridge. This core only
/// carries the value; the memory-bus collaborator interprets it.
#[derive(Clone, Copy, Debug, PartialEq, Eq, Structural)]
pub enum Mirroring {
    Vertical,
    Horizontal,
    FourScreen,
}

} // verus!
