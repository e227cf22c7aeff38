pub mod homeassistant;
pub mod http;
pub mod modbus;
