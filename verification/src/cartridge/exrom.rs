use vstd::prelude::*;

use crate::cartridge::mbc::{zeroed, Bank};

verus! {

/// Cartridge ROM as a list of banks.
pub struct ExROM {
    pub bank_num: u8,
    pub bank_size: u8,
    pub rom: Bank,
    pub banks: Vec<Bank>,
}

impl ExROM {
    /// `2 << contents[0x148]` zeroed banks, bank 1 selected; `bank_size`
    /// is one less than the count. A header code above 6 overflows the
    /// byte count.
    pub fn new(contents: Vec<u8>) -> (r: ExROM)
        requires
            contents@.len() > 0x148,
            contents@[0x148] <= 6,
        ensures
            r.banks.len() == (2u8 << contents@[0x148]) as nat,
            r.bank_num == 1,
            r.bank_size == (2u8 << contents@[0x148]) - 1,
            forall|b: int, a: int| 0 <= b < r.banks.len() && 0 <= a < 16384 ==> #[trigger] r.banks@[b][a] == 0,
            forall|a: int| 0 <= a < 16384 ==> r.rom[a] == 0,
    {
        let code = contents[0x0148];
        assert(2u8 << code >= 2) by (bit_vector)
            requires
                code <= 6,
        ;
        let base_rom: u8 = 2u8 << code;
        //bank_size = 16*1024;
        let mut banks = Vec::<Bank>::new();
        for _i in 0..base_rom
            invariant
                banks.len() == _i,
                forall|b: int, a: int| 0 <= b < banks.len() && 0 <= a < 16384 ==> #[trigger] banks@[b][a] == 0,
        {
            let z: Bank = zeroed();
            banks.push(z);
        }
        let rom: Bank = zeroed();
        ExROM { bank_num: 0x0001, bank_size: base_rom - 1, rom: rom, banks: banks }
    }
}

} // verus!
