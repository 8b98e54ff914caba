use vstd::prelude::*;

pub mod clock;
pub mod device;
pub mod text;
pub mod registry;
pub mod heartbeat;
pub mod device_id;
pub mod native;
pub mod case;
pub mod discovery;
pub mod imaging;
pub mod drivers;
pub mod thumbnail;
pub mod simulated;
pub mod rand;
pub mod sequencer;
pub mod polar;
pub mod autofocus;

verus! {
}
