//! A gap-junction synapse for a tick-driven simulation host.
//!
//! The host sets the synapse's inputs and its conductance by name, advances it tick by
//! tick, and reads the current it puts out. The current is proportional to the voltage
//! difference across the junction, and it is always a finite number between minus and
//! plus one million nanoamps: an input that is no finite number, a conductance that is
//! none, a scale near zero and a result out of range each have their fixed answer.
//!
//! Numbers are binary64 and are held as their encodings (`binary64`, with their meaning
//! in `value`). The crate decides everything that can be read off an encoding. The four
//! operations of arithmetic are the caller's (`arithmetic`), and every contract holds
//! whatever they answer.
pub mod arithmetic;
pub mod binary64;
pub mod descriptor;
pub mod json;
pub mod keys;
pub mod laws;
pub mod synapse;
pub mod value;

pub use crate::arithmetic::Arithmetic;
pub use crate::binary64::Binary64;
pub use crate::descriptor::{ExtendableInputs, PluginBehavior, PluginType};
pub use crate::synapse::RthybridElectricalSynapseRust;
