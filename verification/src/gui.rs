pub mod chart_stream;
pub mod connection_panel;
pub mod file_log_panel;
pub mod log_panel;
pub mod menu_bar;
pub mod rx_panel;
pub mod send_panel;
pub mod settings_panel;

pub use connection_panel::ConnectionPanel;
pub use file_log_panel::FileLogPanel;
pub use log_panel::LogPanel;
pub use menu_bar::MenuBar;
pub use rx_panel::RxPanel;
pub use send_panel::SendPanel;
pub use settings_panel::SettingsPanel;
