//! The logic of a driver for the Synopsys DWC2 USB OTG core in device mode.
//!
//! The library decides; it does not touch the hardware. Its operations take what has been read of
//! the core's registers and return the [`action::Action`]s to perform, so that every register
//! access is part of a contract. [`program::Program`] keeps the actions in order, and
//! [`dispatch`] goes on where a value has to be fetched in between.
//!
//! * [`driver`] allocates endpoints, their FIFO space and their packet memory.
//! * [`bus`] initializes and configures the core, and reports bus events.
//! * [`endpoint`] sends and receives packets, [`control`] does so for the control pipe.
//! * [`interrupt`] serves the core's interrupts.
//! * [`laws`] states what holds across these, and [`sections`] what holds of critical sections.
//! * [`allocation`], [`events`], [`serving`] and [`transfers`] state what each operation comes to,
//!   on what it returns and leaves behind.

pub mod action;
pub mod allocation;
pub mod bus;
pub mod cache;
pub mod config;
pub mod control;
pub mod dispatch;
pub mod driver;
pub mod endpoint;
pub mod events;
pub mod fifo;
pub mod interrupt;
pub mod laws;
pub mod program;
pub mod registers;
pub mod sections;
pub mod serving;
pub mod state;
pub mod table;
pub mod transfers;
pub mod types;

pub use bus::Bus;
pub use config::{Config, OtgInstance, PhyType};
pub use control::ControlPipe;
pub use driver::Driver;
pub use endpoint::{Endpoint, In, Out};
pub use interrupt::on_interrupt;
pub use state::State;
