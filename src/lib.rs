//! A terminal resource monitor's core: bounded sample histories, the
//! redraw-cause set, and the coordinator that decides when to sample,
//! where sensor responses go and when to paint.

pub mod ring;
pub mod redraw;
pub mod registry;
pub mod coordinator;
pub mod settings;
pub mod lines_state;
mod text;
pub mod input;
pub mod units;
pub mod network;
pub mod drive;
pub mod process;
pub mod pci;
pub mod blocks;
pub mod battery;
pub mod gpu;
pub mod fallback;
pub mod memory;
pub mod apps;
pub mod layout;
pub mod sensor;
