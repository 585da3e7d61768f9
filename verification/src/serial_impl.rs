pub mod portsettings;
pub mod serial_communication;
pub mod worker;

pub use portsettings::PortSettings;
pub use serial_communication::SerialCommunication;
