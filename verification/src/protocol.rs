//! The LEGO wireless protocols: constants, the LPF2 codec and the `WeDo 2.0` codec.

pub mod consts;
pub mod message;
pub mod wedo2;
