/// Several encoders, one per audio channel.
pub mod bank;
/// The executable per-channel DPCM encoder.
pub mod encoder;
/// Properties of runs of encode steps, proved over the model.
pub mod laws;
/// The mathematical model of the encoder state and of one encode step.
pub mod model;
/// Parameter indices and display names.
pub mod params;
