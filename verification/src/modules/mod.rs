pub mod asr;
pub mod audio;
pub mod hotkey;
pub mod injector;
