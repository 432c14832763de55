// Sends a message to a named channel: the configuration maps channel names
// to endpoint URLs, a command either prints its message or posts it as JSON
// to the channel's URL, and every run ends in one of three exit codes.

pub mod body;
pub mod config;
pub mod dispatch;
pub mod exit;
