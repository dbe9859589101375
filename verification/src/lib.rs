//! Logic of a network camera appliance: the pixel codec, the bitmap envelope,
//! the sensor's register protocol, the frame streamer and the request
//! orchestrator, each stated over a mathematical model and proved against it.

pub mod clock;
pub mod codec;
pub mod envelope;
pub mod frame;
pub mod orchestrator;
pub mod response;
pub mod sensor;
pub mod session;
pub mod streamer;
