//! A single-line terminal progress bar: its state, the text of each frame,
//! the ETA estimate, the tagged info lines, and a registry that holds the
//! active bar.

pub mod color;
pub mod text;
pub mod eta;
pub mod pb;
pub mod progress_bar;
pub mod global;
pub mod logger;

pub use color::{Color, Style};
pub use global::{BarError, Registry};
pub use pb::ProgressBar;
