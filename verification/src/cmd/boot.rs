//! Chassis boot-option inspection and override.

use vstd::prelude::*;

use crate::cli::{BootAction, BootArgs, BootDevice};
use crate::cmd::user::{conclude, concluded};
use crate::cmd::NETFN_CHASSIS;
use crate::cmd::{yes_no, yes_no_of};
use crate::conn::{
    bmc_request, check, checked, concat2, concat3, reply_view, request_to_bmc, Reply, Request,
    RequestView,
};
use crate::dialog::{
    aborted, aborted_step, done, done_step, failed, failed_step, quiet_step, quietly, Action,
    ActionView, Step, StepView,
};
use crate::text::{push_text, texts, Chars};
use crate::ui::{green, greened, header, header_lines, kv, kv_line};

verus! {

pub const CMD_SET_SYSTEM_BOOT_OPTIONS: u8 = 0x08;

pub const CMD_GET_SYSTEM_BOOT_OPTIONS: u8 = 0x09;

pub const PARAM_BOOT_FLAGS: u8 = 0x05;

// ---------------------------------------------------------------------
// Boot flags
// ---------------------------------------------------------------------

/// The selector of a boot device.
pub open spec fn selector_of(device: BootDevice) -> u8 {
    match device {
        BootDevice::Pxe => 0x01,
        BootDevice::Disk => 0x02,
        BootDevice::Optical => 0x05,
        BootDevice::Bios => 0x06,
    }
}

pub fn device_selector(device: BootDevice) -> (s: u8)
    ensures
        s == selector_of(device),
{
    match device {
        BootDevice::Pxe => 0x01,
        BootDevice::Disk => 0x02,
        BootDevice::Optical => 0x05,
        BootDevice::Bios => 0x06,
    }
}

/// The name of a boot device.
pub open spec fn name_of_device(device: BootDevice) -> Chars {
    match device {
        BootDevice::Pxe => "PXE/network"@,
        BootDevice::Disk => "default disk"@,
        BootDevice::Optical => "CD/DVD"@,
        BootDevice::Bios => "BIOS setup"@,
    }
}

pub fn device_name(device: BootDevice) -> (s: &'static str)
    ensures
        s@ == name_of_device(device),
{
    match device {
        BootDevice::Pxe => "PXE/network",
        BootDevice::Disk => "default disk",
        BootDevice::Optical => "CD/DVD",
        BootDevice::Bios => "BIOS setup",
    }
}

/// The name of a device selector.
pub open spec fn selector_text(selector: u8) -> Chars {
    if selector == 0x00 {
        "default/no override"@
    } else if selector == 0x01 {
        "PXE/network"@
    } else if selector == 0x02 {
        "default disk"@
    } else if selector == 0x03 {
        "default disk (safe mode)"@
    } else if selector == 0x04 {
        "diagnostic partition"@
    } else if selector == 0x05 {
        "CD/DVD"@
    } else if selector == 0x06 {
        "BIOS setup"@
    } else if selector == 0x0F {
        "removable media"@
    } else {
        "reserved/unknown"@
    }
}

pub fn boot_selector_name(selector: u8) -> (s: &'static str)
    ensures
        s@ == selector_text(selector),
{
    match selector {
        0x00 => "default/no override",
        0x01 => "PXE/network",
        0x02 => "default disk",
        0x03 => "default disk (safe mode)",
        0x04 => "diagnostic partition",
        0x05 => "CD/DVD",
        0x06 => "BIOS setup",
        0x0F => "removable media",
        _ => "reserved/unknown",
    }
}

/// The five bytes of a boot-flags parameter. Without a device they are all
/// zero, which clears the override.
pub open spec fn flag_bytes(device: Option<BootDevice>, persistent: bool, uefi: bool) -> Seq<u8> {
    match device {
        None => seq![0u8, 0, 0, 0, 0],
        Some(device) => seq![
            (0x80 + (if persistent {
                0x40int
            } else {
                0
            }) + (if uefi {
                0x20int
            } else {
                0
            })) as u8,
            (selector_of(device) * 4) as u8,
            0,
            0,
            0,
        ],
    }
}

pub fn encode_flags(device: Option<BootDevice>, persistent: bool, uefi: bool) -> (r: [u8; 5])
    ensures
        r@ == flag_bytes(device, persistent, uefi),
{
    let r = match device {
        None => [0u8, 0, 0, 0, 0],
        Some(device) => {
            let base: u8 = 0x80;
            let scope: u8 = if persistent {
                0x40
            } else {
                0
            };
            let firmware: u8 = if uefi {
                0x20
            } else {
                0
            };
            [base + scope + firmware, device_selector(device) * 4, 0, 0, 0]
        }
    };
    proof {
        assert(r@ =~= flag_bytes(device, persistent, uefi));
    }
    r
}

/// The flags in the data of a Get System Boot Options response.
pub ghost struct BootFlags {
    pub available: bool,
    pub active: bool,
    pub selector: u8,
    pub persistent: bool,
    pub uefi: bool,
}

pub open spec fn flags_of(data: Seq<u8>) -> BootFlags {
    BootFlags {
        available: data[1] & 0x80 == 0,
        active: data[2] & 0x80 != 0,
        selector: (data[3] >> 2) & 0x0F,
        persistent: data[2] & 0x40 != 0,
        uefi: data[2] & 0x20 != 0,
    }
}

/// An override that is set is shown again: its device, its scope and its boot
/// type; and a cleared one is inactive.
pub proof fn law_boot_flags_round_trip(
    device: Option<BootDevice>,
    persistent: bool,
    uefi: bool,
    version: u8,
)
    ensures
        ({
            let flags = flags_of(seq![version, PARAM_BOOT_FLAGS] + flag_bytes(device, persistent, uefi));
            &&& flags.available
            &&& flags.active == device is Some
            &&& device is Some ==> flags.persistent == persistent && flags.uefi == uefi
                && flags.selector == selector_of(device->0) && selector_text(flags.selector)
                == name_of_device(device->0)
            &&& device is None ==> flags.selector == 0
        }),
{
    let data = seq![version, PARAM_BOOT_FLAGS] + flag_bytes(device, persistent, uefi);
    assert(5u8 & 0x80 == 0) by (bit_vector);
    assert(0u8 & 0x80 == 0 && (0u8 >> 2) & 0x0F == 0) by (bit_vector);
    assert(0x80u8 & 0x80 != 0 && 0x80u8 & 0x40 == 0 && 0x80u8 & 0x20 == 0) by (bit_vector);
    assert(0xC0u8 & 0x80 != 0 && 0xC0u8 & 0x40 != 0 && 0xC0u8 & 0x20 == 0) by (bit_vector);
    assert(0xA0u8 & 0x80 != 0 && 0xA0u8 & 0x40 == 0 && 0xA0u8 & 0x20 != 0) by (bit_vector);
    assert(0xE0u8 & 0x80 != 0 && 0xE0u8 & 0x40 != 0 && 0xE0u8 & 0x20 != 0) by (bit_vector);
    assert((4u8 >> 2) & 0x0F == 1 && (8u8 >> 2) & 0x0F == 2 && (20u8 >> 2) & 0x0F == 5 && (24u8 >> 2)
        & 0x0F == 6) by (bit_vector);
    assert(data[1] == PARAM_BOOT_FLAGS);
    assert(data[2] == flag_bytes(device, persistent, uefi)[0]);
    assert(data[3] == flag_bytes(device, persistent, uefi)[1]);
}

// ---------------------------------------------------------------------
// The command
// ---------------------------------------------------------------------

/// A Get System Boot Options request for the boot flags.
pub open spec fn show_request_view() -> RequestView {
    bmc_request(NETFN_CHASSIS, CMD_GET_SYSTEM_BOOT_OPTIONS, seq![PARAM_BOOT_FLAGS, 0, 0])
}

/// A Set System Boot Options request for the boot flags.
pub open spec fn set_request_view(device: Option<BootDevice>, persistent: bool, uefi: bool) -> RequestView {
    bmc_request(
        NETFN_CHASSIS,
        CMD_SET_SYSTEM_BOOT_OPTIONS,
        seq![PARAM_BOOT_FLAGS] + flag_bytes(device, persistent, uefi),
    )
}

fn set_request(device: Option<BootDevice>, persistent: bool, uefi: bool) -> (r: Request)
    ensures
        r@ == set_request_view(device, persistent, uefi),
{
    let flags = encode_flags(device, persistent, uefi);
    let data = vec![PARAM_BOOT_FLAGS, flags[0], flags[1], flags[2], flags[3], flags[4]];
    proof {
        assert(data@ =~= seq![PARAM_BOOT_FLAGS] + flag_bytes(device, persistent, uefi));
    }
    request_to_bmc(NETFN_CHASSIS, CMD_SET_SYSTEM_BOOT_OPTIONS, data)
}

/// The step that begins an action: only a persistent override is confirmed,
/// unless `--yes` is given.
pub open spec fn boot_start(action: BootAction) -> StepView {
    match action {
        BootAction::Show => quietly(ActionView::Send(show_request_view())),
        BootAction::Clear => quietly(ActionView::Send(set_request_view(None, false, false))),
        BootAction::Override { boot_device, persistent, uefi, yes } => if persistent && !yes {
            quietly(
                ActionView::Confirm(
                    "Persistently request "@ + name_of_device(boot_device)
                        + " as the BIOS boot device?"@,
                ),
            )
        } else {
            quietly(ActionView::Send(set_request_view(Some(boot_device), persistent, uefi)))
        },
    }
}

/// What an action is when none is given.
pub open spec fn boot_action(args: BootArgs) -> BootAction {
    match args.action {
        Some(action) => action,
        None => BootAction::Show,
    }
}

/// Begins the command.
pub fn begin(args: &BootArgs) -> (s: Step)
    ensures
        s@ == boot_start(boot_action(*args)),
{
    let action = match args.action {
        Some(action) => action,
        None => BootAction::Show,
    };
    match action {
        BootAction::Show => {
            let data = vec![PARAM_BOOT_FLAGS, 0, 0];
            proof {
                assert(data@ =~= seq![PARAM_BOOT_FLAGS, 0, 0]);
            }
            quiet_step(
                Action::Send(request_to_bmc(NETFN_CHASSIS, CMD_GET_SYSTEM_BOOT_OPTIONS, data)),
            )
        }
        BootAction::Clear => quiet_step(Action::Send(set_request(None, false, false))),
        BootAction::Override { boot_device, persistent, uefi, yes } => {
            if persistent && !yes {
                quiet_step(
                    Action::Confirm(
                        concat3(
                            "Persistently request ",
                            device_name(boot_device),
                            " as the BIOS boot device?",
                        ),
                    ),
                )
            } else {
                quiet_step(Action::Send(set_request(Some(boot_device), persistent, uefi)))
            }
        }
    }
}

/// Goes on after the question about a persistent override.
pub fn answered(boot_device: BootDevice, persistent: bool, uefi: bool, yes: bool) -> (s: Step)
    ensures
        s@ == if yes {
            quietly(ActionView::Send(set_request_view(Some(boot_device), persistent, uefi)))
        } else {
            aborted()
        },
{
    if yes {
        quiet_step(Action::Send(set_request(Some(boot_device), persistent, uefi)))
    } else {
        aborted_step()
    }
}

/// What is shown of the boot flags.
pub open spec fn flag_lines(flags: BootFlags, color: bool) -> Seq<Chars> {
    header_lines("Boot Override"@, color).push(
        kv_line(
            "Parameter"@,
            if flags.available {
                "available"@
            } else {
                "locked/invalid"@
            },
            18,
            color,
        ),
    ).push(kv_line("Active"@, yes_no_of(flags.active), 18, color)).push(
        kv_line("Device"@, selector_text(flags.selector), 18, color),
    ).push(
        kv_line(
            "Scope"@,
            if flags.persistent {
                "persistent request"@
            } else {
                "next boot only"@
            },
            18,
            color,
        ),
    ).push(
        kv_line(
            "Boot type"@,
            if flags.uefi {
                "UEFI"@
            } else {
                "legacy"@
            },
            18,
            color,
        ),
    ).push(seq![])
}

/// Shows the boot flags.
pub fn show(reply: Reply, color: bool) -> (s: Step)
    ensures
        s@ == match reply_view(reply) {
            Err(e) => failed("Get System Boot Options failed: "@ + e),
            Ok(response) => match checked(response.cc, "Get System Boot Options"@) {
                Err(e) => failed(e),
                Ok(_) => if response.data.len() < 7 {
                    failed("Get System Boot Options returned a short boot-flags response"@)
                } else {
                    done(flag_lines(flags_of(response.data), color))
                },
            },
        },
{
    let response = match reply {
        Err(e) => {
            return failed_step(concat2("Get System Boot Options failed: ", e.as_str()));
        }
        Ok(response) => response,
    };
    if let Err(e) = check(response.cc, "Get System Boot Options") {
        return failed_step(e);
    }
    let data = &response.data;
    if data.len() < 7 {
        return failed_step(
            "Get System Boot Options returned a short boot-flags response".to_owned(),
        );
    }
    let parameter_valid = data[1] & 0x80 == 0;
    let flags1: u8 = data[2];
    let flags2: u8 = data[3];
    let mut lines = header("Boot Override", color);
    let parameter = if parameter_valid {
        "available"
    } else {
        "locked/invalid"
    };
    push_text(&mut lines, kv("Parameter", parameter, 18, color));
    push_text(&mut lines, kv("Active", yes_no(flags1 & 0x80 != 0), 18, color));
    push_text(&mut lines, kv("Device", boot_selector_name((flags2 >> 2) & 0x0F), 18, color));
    let scope = if flags1 & 0x40 != 0 {
        "persistent request"
    } else {
        "next boot only"
    };
    push_text(&mut lines, kv("Scope", scope, 18, color));
    let kind = if flags1 & 0x20 != 0 {
        "UEFI"
    } else {
        "legacy"
    };
    push_text(&mut lines, kv("Boot type", kind, 18, color));
    push_text(&mut lines, String::new());
    proof {
        assert(texts(lines@) =~= flag_lines(flags_of(data@), color));
    }
    done_step(lines)
}

/// What is printed when an override is set or cleared.
pub open spec fn override_line(device: Option<BootDevice>, persistent: bool, color: bool) -> Chars {
    match device {
        Some(device) => greened("OK:"@, color) + " "@ + name_of_device(device)
            + " boot override set for "@ + if persistent {
            "future boots"@
        } else {
            "the next boot"@
        },
        None => greened("OK:"@, color) + " boot override cleared"@,
    }
}

/// Concludes setting or clearing an override.
pub fn set_flags(device: Option<BootDevice>, persistent: bool, reply: Reply, color: bool) -> (s:
    Step)
    ensures
        s@ == concluded(
            reply_view(reply),
            "Set System Boot Options"@,
            override_line(device, persistent, color),
        ),
{
    let line = match device {
        Some(device) => {
            let mut line = concat3(green("OK:", color).as_str(), " ", device_name(device));
            line.append(" boot override set for ");
            line.append(
                if persistent {
                    "future boots"
                } else {
                    "the next boot"
                },
            );
            line
        }
        None => concat2(green("OK:", color).as_str(), " boot override cleared"),
    };
    conclude(reply, "Set System Boot Options", line)
}

} // verus!
