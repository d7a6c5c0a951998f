//! Signals between the tray and the window, and the look of the tray icon.
//!
//! The flags are plain data: whoever shares them between threads guards
//! them.  Each request stays raised until it is taken.

use vstd::prelude::*;

verus! {

/// Width and height of the tray icon in pixels.
pub const ICON_SIZE: u32 = 32;

/// What the tray and the window tell each other.
#[derive(Debug, Clone, Copy, PartialEq, Eq, Structural)]
pub struct TrayFlags {
    pub exit_requested: bool,
    pub show_requested: bool,
    pub online: bool,
    pub status_update_requested: bool,
}

impl TrayFlags {
    /// Nothing requested, printer offline.
    pub fn new() -> (r: Self)
        ensures
            r == (TrayFlags {
                exit_requested: false,
                show_requested: false,
                online: false,
                status_update_requested: false,
            }),
    {
        TrayFlags {
            exit_requested: false,
            show_requested: false,
            online: false,
            status_update_requested: false,
        }
    }
}

/// Whether the user has asked to quit.
pub fn is_exit_requested(flags: &TrayFlags) -> (r: bool)
    ensures
        r == flags.exit_requested,
{
    flags.exit_requested
}

/// Tells whether the window was asked for, and takes the request back.
pub fn take_show_requested(flags: &mut TrayFlags) -> (r: bool)
    ensures
        r == old(flags).show_requested,
        *final(flags) == (TrayFlags { show_requested: false, ..*old(flags) }),
{
    let requested = flags.show_requested;
    flags.show_requested = false;
    requested
}

/// Asks the application to quit.
pub fn request_exit(flags: &mut TrayFlags)
    ensures
        *final(flags) == (TrayFlags { exit_requested: true, ..*old(flags) }),
{
    flags.exit_requested = true;
}

/// Asks for the window.
pub fn request_show(flags: &mut TrayFlags)
    ensures
        *final(flags) == (TrayFlags { show_requested: true, ..*old(flags) }),
{
    flags.show_requested = true;
}

/// Tells the tray whether the printer is online.  The icon is asked to
/// change only if that is news.
pub fn update_tray_status(flags: &mut TrayFlags, online: bool)
    ensures
        *final(flags) == (TrayFlags {
            online,
            status_update_requested: old(flags).status_update_requested || old(flags).online
                != online,
            ..*old(flags)
        }),
{
    let previous = flags.online;
    flags.online = online;
    if previous != online {
        flags.status_update_requested = true;
    }
}

/// Tells which state the icon should change to, if a change was asked for,
/// and takes the request back.
pub fn take_status_update(flags: &mut TrayFlags) -> (r: Option<bool>)
    ensures
        r == if old(flags).status_update_requested {
            Some(old(flags).online)
        } else {
            None
        },
        *final(flags) == (TrayFlags { status_update_requested: false, ..*old(flags) }),
{
    let requested = flags.status_update_requested;
    flags.status_update_requested = false;
    if requested {
        Some(flags.online)
    } else {
        None
    }
}

/// The tooltip of the tray icon.
pub fn tray_tooltip(online: bool) -> (r: &'static str)
    ensures
        r@ == if online {
            "REIKA Printer Service - Online"@
        } else {
            "REIKA Printer Service - Offline"@
        },
{
    if online {
        "REIKA Printer Service - Online"
    } else {
        "REIKA Printer Service - Offline"
    }
}

/// Whether a pixel lies on the disc of the icon: within 14 pixels of the
/// center at (16, 16).
pub open spec fn on_disc(x: int, y: int) -> bool {
    (x - 16) * (x - 16) + (y - 16) * (y - 16) <= 196
}

/// One of the four bytes of a pixel of the icon: red, green, blue, alpha.
/// The disc is opaque, green when online and red when offline; around it the
/// icon is transparent.
pub open spec fn icon_byte(online: bool, x: int, y: int, channel: int) -> u8 {
    if !on_disc(x, y) {
        0
    } else if channel == 3 {
        255
    } else if channel == 0 && !online || channel == 1 && online {
        180
    } else {
        0
    }
}

/// The icon as rows of pixels, four bytes to the pixel.
pub fn icon_rgba(online: bool) -> (rgba: Vec<u8>)
    ensures
        rgba@.len() == 4 * ICON_SIZE * ICON_SIZE,
        forall|x: int, y: int, channel: int|
            0 <= x < ICON_SIZE && 0 <= y < ICON_SIZE && 0 <= channel < 4 ==> rgba@[4 * (y
                * ICON_SIZE + x) + channel] == icon_byte(online, x, y, channel),
{
    let red: u8 = if online { 0 } else { 180 };
    let green: u8 = if online { 180 } else { 0 };
    let mut rgba: Vec<u8> = Vec::new();
    let mut y: u32 = 0;
    while y < ICON_SIZE
        invariant
            y <= ICON_SIZE,
            red == if online { 0u8 } else { 180u8 },
            green == if online { 180u8 } else { 0u8 },
            rgba@.len() == 4 * (y * ICON_SIZE),
            forall|px: int, py: int, channel: int|
                0 <= px < ICON_SIZE && 0 <= py < y && 0 <= channel < 4 ==> rgba@[4 * (py
                    * ICON_SIZE + px) + channel] == icon_byte(online, px, py, channel),
        decreases ICON_SIZE - y,
    {
        let mut x: u32 = 0;
        while x < ICON_SIZE
            invariant
                x <= ICON_SIZE,
                y < ICON_SIZE,
                red == if online { 0u8 } else { 180u8 },
                green == if online { 180u8 } else { 0u8 },
                rgba@.len() == 4 * (y * ICON_SIZE + x),
                forall|px: int, py: int, channel: int|
                    0 <= px < ICON_SIZE && 0 <= channel < 4 && (0 <= py < y || (py == y && px < x))
                        ==> rgba@[4 * (py * ICON_SIZE + px) + channel] == icon_byte(
                        online,
                        px,
                        py,
                        channel,
                    ),
            decreases ICON_SIZE - x,
        {
            let cx: i32 = x as i32 - 16;
            let cy: i32 = y as i32 - 16;
            assert(0 <= cx * cx <= 256 && 0 <= cy * cy <= 256) by (nonlinear_arith)
                requires
                    -16 <= cx <= 16,
                    -16 <= cy <= 16,
            ;
            let inside = cx * cx + cy * cy <= 196;
            let ghost before = rgba@;
            if inside {
                rgba.push(red);
                rgba.push(green);
                rgba.push(0);
                rgba.push(255);
            } else {
                rgba.push(0);
                rgba.push(0);
                rgba.push(0);
                rgba.push(0);
            }
            proof {
                let base = 4 * (y * ICON_SIZE + x);
                assert(before.len() == base);
                assert(inside == on_disc(x as int, y as int));
                assert forall|px: int, py: int, channel: int|
                    0 <= px < ICON_SIZE && 0 <= channel < 4 && (0 <= py < y || (py == y && px < x
                        + 1)) implies rgba@[4 * (py * ICON_SIZE + px) + channel] == icon_byte(
                    online,
                    px,
                    py,
                    channel,
                ) by {
                    let at = 4 * (py * ICON_SIZE + px) + channel;
                    if py == y && px == x {
                        assert(at == base + channel);
                    } else {
                        assert(at < base);
                        assert(rgba@[at] == before[at]);
                    }
                }
            }
            x += 1;
        }
        y += 1;
    }
    rgba
}

} // verus!
