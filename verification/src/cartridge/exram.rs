use vstd::prelude::*;

verus! {

/// External cartridge RAM, whose size the cartridge type determines; it
/// holds nothing yet.
pub struct ExRam {}

impl ExRam {
    pub fn new(contents: Vec<u8>) -> (r: ExRam) {
        let _ = contents;
        ExRam {}
    }
}

} // verus!
