pub mod oam;
pub mod pixelqueue;
pub mod ppu;
pub mod screen;
pub mod video_controller;
pub mod vram;
