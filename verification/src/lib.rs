//! Session engine of a touch-sensor survey: message catalogue, sensor
//! ingestion, the slide state machines and the rows of the session record.

pub mod msg;
pub mod osc_device;
pub mod slide;
pub mod world;
pub mod ws_server;
