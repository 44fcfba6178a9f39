pub use super::route_structs::{DeviceFoundRequest, NewUserRequest, ReturningUserRequest};
