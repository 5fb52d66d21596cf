//! A personal relationship tracker's core: the guided-setup wizard, the
//! record browser with its uniform edit projection, the presentation
//! resolver, and the reminder scheduler, each with verified contracts.

pub mod browser;
pub mod clock;
pub mod data;
pub mod dates;
pub mod editable;
pub mod plan;
pub mod records;
pub mod reminder;
pub mod resolve;
pub mod text;
pub mod wizard;
