pub mod channel;
pub mod communicationtrait;
pub mod events;
pub mod generalsettings;
pub mod gui;
pub mod portlist;
pub mod rxformat;
pub mod serial_impl;
