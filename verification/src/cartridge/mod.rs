pub mod cartridge;
pub mod exram;
pub mod exrom;
pub mod mbc;
pub mod mbc0;
pub mod mbc1;
pub mod mbc2;
pub mod mbc3;
pub mod mbc5;
pub mod mbc7;
pub mod mmm01;
