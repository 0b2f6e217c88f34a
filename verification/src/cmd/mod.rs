//! Subcommand implementations.

use vstd::prelude::*;

pub mod bmc;
pub mod boot;
pub mod dispatch;
pub mod fujitsu;
pub mod identify;
pub mod inventory;
pub mod inventory_run;
pub mod lan;
pub mod lan_run;
pub mod lan_set;
pub mod power;
pub mod raw;
pub mod sel;
pub mod sel_edit;
pub mod sel_list;
pub mod sel_walk;
pub mod sensor_run;
pub mod sensors;
pub mod simple;
pub mod status;
pub mod user;
pub mod user_list;

use crate::bytes::{byte_at, byte_or_zero};
use crate::conn::{
    bmc_request, check, checked, concat2, reply_view, request_to_bmc, Reply, Request, ResponseView,
};
use crate::text::{lower, lower_text, same_text, trim, trimmed, Chars};

verus! {

pub const NETFN_CHASSIS: u8 = 0x00;

pub const CMD_GET_CHASSIS_STATUS: u8 = 0x01;

/// Decoded "Get Chassis Status" response.
#[derive(Clone, Copy, Debug, PartialEq, Eq, Structural)]
pub struct ChassisStatus {
    pub power_on: bool,
    pub power_overload: bool,
    pub power_fault: bool,
    pub restore_policy: u8,
    pub intrusion: bool,
    pub cooling_fault: bool,
}

/// The Get Chassis Status request (Chassis netfn, cmd 0x01).
pub fn chassis_status_request() -> (r: Request)
    ensures
        r@ == bmc_request(NETFN_CHASSIS, CMD_GET_CHASSIS_STATUS, seq![]),
{
    let data: Vec<u8> = Vec::new();
    proof {
        assert(data@ =~= seq![]);
    }
    request_to_bmc(NETFN_CHASSIS, CMD_GET_CHASSIS_STATUS, data)
}

/// What a Get Chassis Status reply says; bytes that are missing count as zero.
pub open spec fn chassis_status_of(reply: Result<ResponseView, Chars>) -> Result<
    ChassisStatus,
    Chars,
> {
    match reply {
        Err(e) => Err("Get Chassis Status failed: "@ + e),
        Ok(response) => match checked(response.cc, "Get Chassis Status"@) {
            Err(e) => Err(e),
            Ok(_) => {
                let b0 = byte_or_zero(response.data, 0);
                let b2 = byte_or_zero(response.data, 2);
                Ok(
                    ChassisStatus {
                        power_on: b0 & 0x01 != 0,
                        power_overload: b0 & 0x02 != 0,
                        power_fault: b0 & 0x08 != 0,
                        restore_policy: (b0 >> 5) & 0x03,
                        intrusion: b2 & 0x01 != 0,
                        cooling_fault: b2 & 0x08 != 0,
                    },
                )
            },
        },
    }
}

/// Decodes a Get Chassis Status reply.
pub fn chassis_status(reply: Reply) -> (r: Result<ChassisStatus, String>)
    ensures
        crate::dialog::outcome_view(r) == chassis_status_of(reply_view(reply)),
{
    match reply {
        Err(e) => Err(concat2("Get Chassis Status failed: ", e.as_str())),
        Ok(response) => match check(response.cc, "Get Chassis Status") {
            Err(e) => Err(e),
            Ok(_) => {
                let b0: u8 = byte_at(response.data.as_slice(), 0);
                let b2: u8 = byte_at(response.data.as_slice(), 2);
                Ok(
                    ChassisStatus {
                        power_on: b0 & 0x01 != 0,
                        power_overload: b0 & 0x02 != 0,
                        power_fault: b0 & 0x08 != 0,
                        restore_policy: (b0 >> 5) & 0x03,
                        intrusion: b2 & 0x01 != 0,
                        cooling_fault: b2 & 0x08 != 0,
                    },
                )
            }
        },
    }
}

/// The name of a power restore policy.
pub open spec fn policy_name(policy: u8) -> Chars {
    if policy == 0 {
        "always off"@
    } else if policy == 1 {
        "previous state"@
    } else if policy == 2 {
        "always on"@
    } else {
        "unknown"@
    }
}

/// Power restore policy as a human-readable string.
pub fn restore_policy_name(policy: u8) -> (name: &'static str)
    ensures
        name@ == policy_name(policy),
{
    match policy {
        0b00 => "always off",
        0b01 => "previous state",
        0b10 => "always on",
        _ => "unknown",
    }
}

/// The vendor that an IANA enterprise number stands for.
pub open spec fn vendor_name(id: u32) -> Option<Chars> {
    if id == 0x000002 {
        Some("IBM"@)
    } else if id == 0x000009 {
        Some("Cisco"@)
    } else if id == 0x00000B {
        Some("HP"@)
    } else if id == 0x00000E {
        Some("Fujitsu Siemens"@)
    } else if id == 0x000028 {
        Some("Dell"@)
    } else if id == 0x00005D {
        Some("ASUS"@)
    } else if id == 0x0000B0 {
        Some("Lenovo"@)
    } else if id == 0x000137 {
        Some("Fujitsu"@)
    } else if id == 0x000157 {
        Some("Intel"@)
    } else if id == 0x0001AD {
        Some("Gigabyte"@)
    } else if id == 0x00019C {
        Some("Tyan"@)
    } else if id == 0x002A7C {
        Some("Supermicro"@)
    } else if id == 0x00A2B7 {
        Some("Quanta"@)
    } else {
        None
    }
}

/// Map an IANA enterprise number to a vendor name (common server vendors).
pub fn manufacturer_name(id: u32) -> (name: Option<&'static str>)
    ensures
        match name {
            Some(name) => vendor_name(id) == Some(name@),
            None => vendor_name(id) is None,
        },
{
    match id {
        0x000002 => Some("IBM"),
        0x000009 => Some("Cisco"),
        0x00000B => Some("HP"),
        0x00000E => Some("Fujitsu Siemens"),
        0x000028 => Some("Dell"),
        0x00005D => Some("ASUS"),
        0x0000B0 => Some("Lenovo"),
        0x000137 => Some("Fujitsu"),
        0x000157 => Some("Intel"),
        0x0001AD => Some("Gigabyte"),
        0x00019C => Some("Tyan"),
        0x002A7C => Some("Supermicro"),
        0x00A2B7 => Some("Quanta"),
        _ => None,
    }
}

/// Whether a line typed at a yes/no question means yes.
pub open spec fn means_yes(line: Chars) -> bool {
    lower(trimmed(line)) == "y"@ || lower(trimmed(line)) == "yes"@
}

/// Whether a line typed at a yes/no question means yes. Anything else, an empty
/// line included, means no.
pub fn confirmed(line: &str) -> (r: bool)
    ensures
        r == means_yes(line@),
{
    let answer = lower_text(trim(line).as_str());
    same_text(answer.as_str(), "y") || same_text(answer.as_str(), "yes")
}

pub open spec fn yes_no_of(value: bool) -> Chars {
    if value {
        "yes"@
    } else {
        "no"@
    }
}

pub fn yes_no(value: bool) -> (s: &'static str)
    ensures
        s@ == yes_no_of(value),
{
    if value {
        "yes"
    } else {
        "no"
    }
}

} // verus!
