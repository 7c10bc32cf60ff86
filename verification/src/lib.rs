//! Verified core of the browser-side prover client: the circuit parameters the
//! provers are instantiated with, plain-value models of the JSON inputs the
//! client accepts, and the text the input generator reports while it proves.

pub mod client;
pub mod digest;
pub mod inputs;
pub mod params;
pub mod report;
