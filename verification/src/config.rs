//! Settings of the service and what they resolve to.

use vstd::prelude::*;
use crate::transport::UsbConfig;

verus! {

/// Vendor id of the standard printer.
pub const STANDARD_VENDOR_ID: u16 = 0x0483;

/// Product id of the standard printer.
pub const STANDARD_PRODUCT_ID: u16 = 0x5840;

/// Vendor id of the ICS Advent adapter.
pub const ICS_ADVENT_VENDOR_ID: u16 = 0x0FE6;

/// Product id of the ICS Advent adapter.
pub const ICS_ADVENT_PRODUCT_ID: u16 = 0x811E;

/// Port that the service listens on unless told otherwise.
pub const DEFAULT_PORT: u16 = 55000;

/// Number of entries that the print log keeps unless told otherwise.
pub const DEFAULT_MAX_LOG_ENTRIES: usize = 100;

/// Which printer the service talks to.
#[derive(Debug, Clone, Copy, PartialEq, Eq, Structural)]
pub enum PrinterPreset {
    /// The standard printer, with its endpoints discovered.
    Standard,
    /// The ICS Advent adapter, with its endpoints pinned.
    IcsAdvent,
    /// Whatever the other settings say.
    Manual,
}

impl Default for PrinterPreset {
    fn default() -> (r: Self)
        ensures
            r == PrinterPreset::Standard,
    {
        PrinterPreset::Standard
    }
}

/// Printer settings.  The identity and the endpoints given here count only
/// with the manual preset.
#[derive(Debug, Clone, Copy)]
pub struct PrinterConfig {
    pub preset: PrinterPreset,
    pub vendor_id: Option<u16>,
    pub product_id: Option<u16>,
    pub endpoint: Option<u8>,
    pub interface: Option<u8>,
}

/// Settings of the listening side.
#[derive(Debug, Clone, Copy)]
pub struct ServerConfig {
    pub port: u16,
}

/// Settings of the desktop side.
#[derive(Debug, Clone, Copy)]
pub struct UiConfig {
    pub max_log_entries: usize,
    pub logging_enabled: bool,
}

/// All settings of the service.
#[derive(Debug, Clone, Copy)]
pub struct AppConfig {
    pub printer: PrinterConfig,
    pub server: ServerConfig,
    pub ui: UiConfig,
}

impl PrinterConfig {
    /// The device selection that these settings amount to.
    pub open spec fn resolved(&self) -> UsbConfig {
        match self.preset {
            PrinterPreset::Standard => UsbConfig {
                vendor_id: STANDARD_VENDOR_ID,
                product_id: STANDARD_PRODUCT_ID,
                endpoint: None,
                interface: None,
            },
            PrinterPreset::IcsAdvent => UsbConfig {
                vendor_id: ICS_ADVENT_VENDOR_ID,
                product_id: ICS_ADVENT_PRODUCT_ID,
                endpoint: Some(1u8),
                interface: Some(0u8),
            },
            PrinterPreset::Manual => UsbConfig {
                vendor_id: match self.vendor_id {
                    Some(id) => id,
                    None => STANDARD_VENDOR_ID,
                },
                product_id: match self.product_id {
                    Some(id) => id,
                    None => STANDARD_PRODUCT_ID,
                },
                endpoint: self.endpoint,
                interface: self.interface,
            },
        }
    }

    /// The vendor id to look for: that of the preset, or with the manual
    /// preset the configured one, the standard one if none is configured.
    pub fn resolved_vendor_id(&self) -> (id: u16)
        ensures
            id == self.resolved().vendor_id,
    {
        match self.preset {
            PrinterPreset::Standard => STANDARD_VENDOR_ID,
            PrinterPreset::IcsAdvent => ICS_ADVENT_VENDOR_ID,
            PrinterPreset::Manual => match self.vendor_id {
                Some(id) => id,
                None => STANDARD_VENDOR_ID,
            },
        }
    }

    /// The product id to look for, resolved like the vendor id.
    pub fn resolved_product_id(&self) -> (id: u16)
        ensures
            id == self.resolved().product_id,
    {
        match self.preset {
            PrinterPreset::Standard => STANDARD_PRODUCT_ID,
            PrinterPreset::IcsAdvent => ICS_ADVENT_PRODUCT_ID,
            PrinterPreset::Manual => match self.product_id {
                Some(id) => id,
                None => STANDARD_PRODUCT_ID,
            },
        }
    }

    /// The output endpoint to pin, if any.
    pub fn resolved_endpoint(&self) -> (endpoint: Option<u8>)
        ensures
            endpoint == self.resolved().endpoint,
    {
        match self.preset {
            PrinterPreset::Standard => None,
            PrinterPreset::IcsAdvent => Some(1),
            PrinterPreset::Manual => self.endpoint,
        }
    }

    /// The interface to pin, if any.
    pub fn resolved_interface(&self) -> (interface: Option<u8>)
        ensures
            interface == self.resolved().interface,
    {
        match self.preset {
            PrinterPreset::Standard => None,
            PrinterPreset::IcsAdvent => Some(0),
            PrinterPreset::Manual => self.interface,
        }
    }

    /// The device selection that these settings amount to.
    pub fn usb_config(&self) -> (config: UsbConfig)
        ensures
            config == self.resolved(),
    {
        UsbConfig {
            vendor_id: self.resolved_vendor_id(),
            product_id: self.resolved_product_id(),
            endpoint: self.resolved_endpoint(),
            interface: self.resolved_interface(),
        }
    }
}

impl Default for AppConfig {
    fn default() -> (r: Self)
        ensures
            r.printer.preset == PrinterPreset::Standard,
            r.printer.vendor_id is None,
            r.printer.product_id is None,
            r.printer.endpoint is None,
            r.printer.interface is None,
            r.server.port == DEFAULT_PORT,
            r.ui.max_log_entries == DEFAULT_MAX_LOG_ENTRIES,
            !r.ui.logging_enabled,
    {
        AppConfig {
            printer: PrinterConfig {
                preset: PrinterPreset::Standard,
                vendor_id: None,
                product_id: None,
                endpoint: None,
                interface: None,
            },
            server: ServerConfig { port: DEFAULT_PORT },
            ui: UiConfig { max_log_entries: DEFAULT_MAX_LOG_ENTRIES, logging_enabled: false },
        }
    }
}

} // verus!
