//! Decisions around the Win32 calls the orb window needs.
pub mod win32;
