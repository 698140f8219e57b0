//! Declarative description of a containerised test dependency: the image it
//! runs, the overrides applied on top of the image's defaults, the ordered
//! conditions that tell when a started container is usable, the mapping of
//! its ports, and the commands to run once it has started.

pub mod duration;
pub mod wait_for;
pub mod ports;
pub mod exec;
pub mod keyed;
pub mod image;
pub mod readiness;
pub mod generic;

pub use duration::Duration;
pub use exec::ExecCommand;
pub use image::{Host, Image, ImageArgs, RunnableImage};
pub use ports::{ContainerState, Port, Ports};
pub use readiness::{HealthStatus, Observation, ReadyStep, Readiness};
pub use wait_for::WaitFor;
pub use generic::GenericImage;
