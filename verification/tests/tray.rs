use reika_printer::tray::{
    icon_rgba, is_exit_requested, request_exit, request_show, take_show_requested,
    take_status_update, tray_tooltip, update_tray_status, TrayFlags, ICON_SIZE,
};

#[test]
fn requests_stay_raised_until_taken() {
    let mut flags = TrayFlags::new();
    assert!(!is_exit_requested(&flags));
    assert!(!take_show_requested(&mut flags));

    request_show(&mut flags);
    request_show(&mut flags);
    assert!(take_show_requested(&mut flags));
    assert!(!take_show_requested(&mut flags));

    request_exit(&mut flags);
    assert!(is_exit_requested(&flags));
    assert!(is_exit_requested(&flags));
    assert!(!flags.show_requested);
}

#[test]
fn the_icon_changes_only_on_news() {
    let mut flags = TrayFlags::new();
    update_tray_status(&mut flags, false);
    assert_eq!(take_status_update(&mut flags), None);

    update_tray_status(&mut flags, true);
    assert!(flags.online);
    assert_eq!(take_status_update(&mut flags), Some(true));
    assert_eq!(take_status_update(&mut flags), None);

    update_tray_status(&mut flags, true);
    assert_eq!(take_status_update(&mut flags), None);

    // A change asked for survives a change back before it is taken.
    update_tray_status(&mut flags, false);
    update_tray_status(&mut flags, true);
    assert_eq!(take_status_update(&mut flags), Some(true));
}

#[test]
fn tooltip_names_the_state() {
    assert_eq!(tray_tooltip(true), "REIKA Printer Service - Online");
    assert_eq!(tray_tooltip(false), "REIKA Printer Service - Offline");
}

fn pixel(rgba: &[u8], x: usize, y: usize) -> [u8; 4] {
    let at = 4 * (y * 32 + x);
    [rgba[at], rgba[at + 1], rgba[at + 2], rgba[at + 3]]
}

#[test]
fn the_icon_is_a_disc_in_the_color_of_the_state() {
    assert_eq!(ICON_SIZE, 32);
    let online = icon_rgba(true);
    let offline = icon_rgba(false);
    assert_eq!(online.len(), 4096);
    assert_eq!(offline.len(), 4096);

    assert_eq!(pixel(&online, 16, 16), [0, 180, 0, 255]);
    assert_eq!(pixel(&offline, 16, 16), [180, 0, 0, 255]);
    // The rim of the disc lies 14 pixels from the center.
    assert_eq!(pixel(&online, 30, 16), [0, 180, 0, 255]);
    assert_eq!(pixel(&online, 2, 16), [0, 180, 0, 255]);
    assert_eq!(pixel(&online, 16, 30), [0, 180, 0, 255]);
    assert_eq!(pixel(&online, 31, 16), [0, 0, 0, 0]);
    assert_eq!(pixel(&online, 1, 16), [0, 0, 0, 0]);
    assert_eq!(pixel(&online, 26, 26), [0, 0, 0, 0]);
    assert_eq!(pixel(&online, 25, 26), [0, 180, 0, 255]);
    for (x, y) in [(0, 0), (31, 0), (0, 31), (31, 31)] {
        assert_eq!(pixel(&online, x, y), [0, 0, 0, 0]);
        assert_eq!(pixel(&offline, x, y), [0, 0, 0, 0]);
    }

    let mut opaque = 0;
    for y in 0..32usize {
        for x in 0..32usize {
            let dx = x as i32 - 16;
            let dy = y as i32 - 16;
            let inside = dx * dx + dy * dy <= 196;
            assert_eq!(pixel(&offline, x, y)[3] == 255, inside);
            if inside {
                opaque += 1;
            }
        }
    }
    assert_eq!(opaque, 613);
}
