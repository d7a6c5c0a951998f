use reika_printer::config::{AppConfig, PrinterConfig, PrinterPreset};

fn printer(preset: PrinterPreset) -> PrinterConfig {
    PrinterConfig {
        preset,
        vendor_id: Some(0x1234),
        product_id: Some(0x5678),
        endpoint: Some(3),
        interface: Some(2),
    }
}

#[test]
fn standard_preset_ignores_the_manual_settings() {
    let config = printer(PrinterPreset::Standard);
    assert_eq!(config.resolved_vendor_id(), 0x0483);
    assert_eq!(config.resolved_product_id(), 0x5840);
    assert_eq!(config.resolved_endpoint(), None);
    assert_eq!(config.resolved_interface(), None);
}

#[test]
fn ics_advent_preset_pins_the_endpoints() {
    let config = printer(PrinterPreset::IcsAdvent);
    assert_eq!(config.resolved_vendor_id(), 0x0FE6);
    assert_eq!(config.resolved_product_id(), 0x811E);
    assert_eq!(config.resolved_endpoint(), Some(1));
    assert_eq!(config.resolved_interface(), Some(0));
}

#[test]
fn manual_preset_takes_the_settings_and_falls_back_to_the_standard_ids() {
    let config = printer(PrinterPreset::Manual);
    assert_eq!(config.resolved_vendor_id(), 0x1234);
    assert_eq!(config.resolved_product_id(), 0x5678);
    assert_eq!(config.resolved_endpoint(), Some(3));
    assert_eq!(config.resolved_interface(), Some(2));

    let bare = PrinterConfig {
        preset: PrinterPreset::Manual,
        vendor_id: None,
        product_id: None,
        endpoint: None,
        interface: None,
    };
    assert_eq!(bare.resolved_vendor_id(), 0x0483);
    assert_eq!(bare.resolved_product_id(), 0x5840);
    assert_eq!(bare.resolved_endpoint(), None);
    assert_eq!(bare.resolved_interface(), None);
}

#[test]
fn usb_config_gathers_the_resolved_settings() {
    let usb = printer(PrinterPreset::IcsAdvent).usb_config();
    assert_eq!(
        (usb.vendor_id, usb.product_id, usb.endpoint, usb.interface),
        (0x0FE6, 0x811E, Some(1), Some(0))
    );
    let usb = printer(PrinterPreset::Manual).usb_config();
    assert_eq!(
        (usb.vendor_id, usb.product_id, usb.endpoint, usb.interface),
        (0x1234, 0x5678, Some(3), Some(2))
    );
}

#[test]
fn default_settings() {
    let config = AppConfig::default();
    assert_eq!(config.printer.preset, PrinterPreset::Standard);
    assert_eq!(config.printer.preset, PrinterPreset::default());
    assert_eq!(config.printer.vendor_id, None);
    assert_eq!(config.printer.product_id, None);
    assert_eq!(config.printer.endpoint, None);
    assert_eq!(config.printer.interface, None);
    assert_eq!(config.server.port, 55000);
    assert_eq!(config.ui.max_log_entries, 100);
    assert!(!config.ui.logging_enabled);
}
