//! Ground-station link management: the serial connection's state machine, the
//! poll step that frames received bytes into lines, pluggable decoders and the
//! device configuration model.
pub mod board;
pub mod device;
pub mod framing;
pub mod protocol;
pub mod serial;
pub mod state;

