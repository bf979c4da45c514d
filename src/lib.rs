//! Communication core between a field management system and the driver
//! stations of a match: the control/status packet codec, the per-station
//! link session, and the supervisor that drives every station's link.

pub mod status;
pub mod codec;
pub mod session;
pub mod supervisor;
pub mod plc;
