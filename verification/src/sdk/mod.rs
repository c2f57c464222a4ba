//! Starting the SDK and the services around it.
pub mod flashnet;
pub mod init;
pub mod local;
pub mod rtsync;
