//! A work/rest reminder core: a timer state machine that counts working time,
//! forces a rest overlay when it runs out, and decides when the overlay may
//! be dismissed. Rendering, window handling and persistence live with the
//! host application; this crate only decides what is shown, where and when.
//!
//! * [`timer`] holds the data model and the transition rules as
//!   specification functions; [`machine`] is the executable state machine
//!   that is proved to follow them, and [`laws`] states what follows from
//!   the rules.
//! * [`event`] is the single-slot mailbox through which control events reach
//!   the machine, and [`tray`] names the commands of the tray menu.
//! * [`display`] computes where the overlays go; [`clock`] reads the time
//!   and formats it.
//! * [`counter`] and [`blocker`] are the simpler, seconds-driven workers
//!   that talk to their windows through [`message`]s.

pub mod blocker;
pub mod cancel;
pub mod clock;
pub mod counter;
pub mod display;
pub mod error;
pub mod event;
pub mod laws;
pub mod machine;
pub mod message;
pub mod settings;
pub mod timer;
pub mod tray;
