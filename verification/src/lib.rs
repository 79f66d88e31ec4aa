//! Register layer for the Synopsys DesignWare APB GPIO block.

mod critical;
pub mod eint;
pub mod eint_with_both_edges;
pub mod flex_pad;
pub mod input;
pub mod laws;
pub mod ops;
pub mod output;
pub mod pad;
pub mod pin_state;
pub mod registers;

pub use eint::{EintPad, Event};
pub use eint_with_both_edges::{EintPadWithBothEdges, EventWithBothEdges};
pub use flex_pad::FlexPad;
pub use input::Input;
pub use output::Output;
pub use pin_state::PinState;
pub use registers::DwApbGpio;
