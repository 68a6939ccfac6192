pub mod addresses;
pub mod control_flow;
pub mod functions;
pub mod input_chord;
pub mod match_flow;
pub mod rectangle;
pub mod references;
pub mod slices;
pub mod structs;
pub mod variables;
