//! A leveled logging facade. Events carry a severity and a text; a
//! configurable threshold decides which events pass at all, and a passing
//! event is fanned out to three sinks — console, append-only file, and a
//! webhook notification with its own threshold and an explicit force
//! override. The facade plans each dispatch exactly; performing the planned
//! I/O is the embedding program's part.

pub mod format;
pub mod logger;
pub mod severity;
