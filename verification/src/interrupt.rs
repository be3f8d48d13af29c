use vstd::prelude::*;

verus! {

/// The interrupt sources of the machine.
#[derive(Clone, Copy, PartialEq, Eq, Structural, Debug)]
pub enum Interrupt {
    VBlank,
    LCDC,
    Timer,
    Serial,  //Unimplemented
    Input,
}

} // verus!
