//! Decision logic of a laptop power-management service: decimal values of
//! battery charge thresholds, power profiles and their switching, the command
//! line of the client, and the hot-plug events of the service loop.

pub mod charge_thresholds;
pub mod command;
pub mod dbus_api;
pub mod decimal;
pub mod hotplug;
pub mod profile;
pub mod report;
pub mod service;
pub mod text;

use vstd::prelude::*;

verus! {

/// The bus name of the service.
pub const DBUS_NAME: &'static str = "com.system76.PowerDaemon";

/// The object path of the service.
pub const DBUS_PATH: &'static str = "/com/system76/PowerDaemon";

/// The interface of the service.
pub const DBUS_IFACE: &'static str = "com.system76.PowerDaemon";

/// The operations of the power service, as the service provides them and as
/// the client requests them over D-Bus.
pub trait Power {
    fn performance(&self) -> Result<(), String>;

    fn balanced(&self) -> Result<(), String>;

    fn battery(&self) -> Result<(), String>;

    fn get_graphics(&self) -> Result<String, String>;

    fn get_profile(&self) -> Result<String, String>;

    fn get_switchable(&self) -> Result<bool, String>;

    fn set_graphics(&self, vendor: &str) -> Result<(), String>;

    fn get_graphics_power(&self) -> Result<bool, String>;

    fn set_graphics_power(&self, power: bool) -> Result<(), String>;

    fn auto_graphics_power(&self) -> Result<(), String>;
}

} // verus!
