//! A safe, typed control surface over an astronomy camera's native
//! vendor driver: device enumeration into immutable descriptors, an
//! open/initialize/close lifecycle with idempotent close, validated
//! region-of-interest, binning and pixel-format control, typed
//! configuration access over the driver's untyped value cells, a
//! blocking single-shot capture and a streaming engine, and a closed
//! error taxonomy over the driver's integer status codes.
//!
//! The driver itself is reached through the [`driver::Driver`] trait,
//! whose every operation is bound to a ghost transition function; the
//! crate supplies a fully verified in-memory implementation,
//! [`sim::SimDriver`], a scriptable, call-recording device table that
//! tests play scenarios against.

pub mod acquire;
pub mod camera;
pub mod config;
pub mod driver;
pub mod error;
pub mod properties;
pub mod settings;
pub mod sim;
pub mod text;
pub mod value;

pub use acquire::Consumer;
pub use acquire::FrameCounter;
pub use acquire::StreamEnd;
pub use camera::Camera;
pub use camera::CameraDescription;
pub use camera::ROI;
pub use config::AllConfigBounds;
pub use config::ConfigBounds;
pub use config::ConfigKind;
pub use config::OptionalConfigBounds;
pub use config::RawConfigAttributes;
pub use driver::CameraState;
pub use driver::Driver;
pub use error::Error;
pub use properties::BayerPattern;
pub use properties::CameraProperties;
pub use properties::ImageFormat;
pub use properties::RawCameraProperties;
pub use sim::DriverCall;
pub use sim::FrameOutcome;
pub use sim::SimDevice;
pub use sim::SimDriver;
pub use value::ConfigValue;
pub use value::RawValue;
pub use value::ValueType;
