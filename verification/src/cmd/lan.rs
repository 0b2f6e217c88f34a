//! `lan` — what LAN configuration parameters mean, and how settings are
//! written down.

use vstd::prelude::*;

use ipmi_rs::transport::LanConfigParameter as Outside;
use ipmi_rs::transport::LanConfigParameterData as OutsideData;

use crate::bytes::low_byte;
use crate::bytes::u16_low;
use crate::cli::LanSetArgs;
use crate::cmd::{yes_no, yes_no_of};
use crate::conn::{concat2, concat3};
use crate::number::{digit_worth, lemma_dec_reads_back, lemma_hex_reads_back, digits_worth, parse_unsigned, unsigned};
use crate::text::{
    chars_of, copy_chars, dec, dec_text, hex, hex_text, lower, lower_text, same_text, text_of,
    texts, Chars,
};

verus! {

// ---------------------------------------------------------------------
// Parameters
// ---------------------------------------------------------------------

/// The LAN configuration parameters that are used here.
#[derive(Clone, Copy, Debug, PartialEq, Eq, Structural)]
pub enum LanConfigParameter {
    SetInProgress,
    IpAddress,
    IpAddressSource,
    MacAddress,
    SubnetMask,
    DefaultGatewayAddress,
    DefaultGatewayMacAddress,
    VlanId,
    VlanPriority,
    Ipv6Ipv4Support,
    Ipv6Ipv4AddressingEnables,
    Ipv6Status,
    Ipv6StaticAddresses,
    Ipv6DynamicAddress,
}

impl LanConfigParameter {
    /// The selector of a parameter (IPMI 2.0, table 23-4).
    pub open spec fn number(self) -> u8 {
        match self {
            LanConfigParameter::SetInProgress => 0,
            LanConfigParameter::IpAddress => 3,
            LanConfigParameter::IpAddressSource => 4,
            LanConfigParameter::MacAddress => 5,
            LanConfigParameter::SubnetMask => 6,
            LanConfigParameter::DefaultGatewayAddress => 12,
            LanConfigParameter::DefaultGatewayMacAddress => 13,
            LanConfigParameter::VlanId => 20,
            LanConfigParameter::VlanPriority => 21,
            LanConfigParameter::Ipv6Ipv4Support => 50,
            LanConfigParameter::Ipv6Ipv4AddressingEnables => 51,
            LanConfigParameter::Ipv6Status => 55,
            LanConfigParameter::Ipv6StaticAddresses => 56,
            LanConfigParameter::Ipv6DynamicAddress => 59,
        }
    }

    /// The selector of a parameter.
    pub fn value(&self) -> (n: u8)
        ensures
            n == self.number(),
    {
        match self {
            LanConfigParameter::SetInProgress => 0,
            LanConfigParameter::IpAddress => 3,
            LanConfigParameter::IpAddressSource => 4,
            LanConfigParameter::MacAddress => 5,
            LanConfigParameter::SubnetMask => 6,
            LanConfigParameter::DefaultGatewayAddress => 12,
            LanConfigParameter::DefaultGatewayMacAddress => 13,
            LanConfigParameter::VlanId => 20,
            LanConfigParameter::VlanPriority => 21,
            LanConfigParameter::Ipv6Ipv4Support => 50,
            LanConfigParameter::Ipv6Ipv4AddressingEnables => 51,
            LanConfigParameter::Ipv6Status => 55,
            LanConfigParameter::Ipv6StaticAddresses => 56,
            LanConfigParameter::Ipv6DynamicAddress => 59,
        }
    }
}

/// Whether `n` names a channel.
pub fn channel(value: u8) -> (r: Result<u8, String>)
    ensures
        match r {
            Ok(c) => crate::sdr::is_channel(value as int) && c == value,
            Err(e) => !crate::sdr::is_channel(value as int) && e@ == "invalid channel number "@ + dec(
                value as nat,
            ),
        },
{
    if value <= 0x0F && value != 0x0C && value != 0x0D {
        Ok(value)
    } else {
        Err(concat2("invalid channel number ", dec_text(value as u64).as_str()))
    }
}

/// An IPv4 address in dotted form.
pub open spec fn ipv4_form(data: Seq<u8>) -> Chars {
    dec(data[0] as nat) + "."@ + dec(data[1] as nat) + "."@ + dec(data[2] as nat) + "."@ + dec(
        data[3] as nat,
    )
}

/// A MAC address as six hexadecimal pairs.
pub open spec fn mac_form(data: Seq<u8>) -> Chars {
    hex(data[0] as nat, 2) + ":"@ + hex(data[1] as nat, 2) + ":"@ + hex(data[2] as nat, 2) + ":"@
        + hex(data[3] as nat, 2) + ":"@ + hex(data[4] as nat, 2) + ":"@ + hex(data[5] as nat, 2)
}

/// The name of an address source.
pub open spec fn source_form(value: u8) -> Chars {
    let source = value % 16;
    if source == 0 {
        "Unspecified"@
    } else if source == 1 {
        "Static"@
    } else if source == 2 {
        "DHCP"@
    } else if source == 3 {
        "BIOS/System software"@
    } else if source == 4 {
        "Other"@
    } else {
        "Reserved (0x"@ + hex(source as nat, 2) + ")"@
    }
}

/// The name of an addressing mode.
pub open spec fn enables_form(value: u8) -> Chars {
    if value == 0 {
        "IPv6 disabled"@
    } else if value == 1 {
        "IPv6 only"@
    } else if value == 2 {
        "IPv6/IPv4 simultaneous"@
    } else {
        "Reserved (0x"@ + hex(value as nat, 2) + ")"@
    }
}

/// The parameters whose data is shown as one value.
#[derive(Clone, Copy, Debug, PartialEq, Eq, Structural)]
pub enum PlainParameter {
    IpAddress,
    IpAddressSource,
    MacAddress,
    SubnetMask,
    DefaultGatewayAddress,
    DefaultGatewayMacAddress,
    Ipv6Ipv4AddressingEnables,
}

/// What the data of a plain parameter says; nothing when it is too short.
pub open spec fn plain_value(parameter: PlainParameter, data: Seq<u8>) -> Option<Chars> {
    match parameter {
        PlainParameter::IpAddress | PlainParameter::SubnetMask
        | PlainParameter::DefaultGatewayAddress => if data.len() < 4 {
            None
        } else {
            Some(ipv4_form(data))
        },
        PlainParameter::MacAddress | PlainParameter::DefaultGatewayMacAddress => if data.len() < 6 {
            None
        } else {
            Some(mac_form(data))
        },
        PlainParameter::IpAddressSource => if data.len() < 1 {
            None
        } else {
            Some(source_form(data[0]))
        },
        PlainParameter::Ipv6Ipv4AddressingEnables => if data.len() < 1 {
            None
        } else {
            Some(enables_form(data[0]))
        },
    }
}

/// `ipmi_rs::transport::LanConfigParameter::parse` for the plain parameters, and
/// `Display` of the value: addresses in dotted form or as hexadecimal pairs,
/// sources and modes by name; nothing when the data is too short.
#[verifier::external_body]
fn parse_plain(parameter: PlainParameter, data: &[u8]) -> (r: Option<String>)
    ensures
        match r {
            Some(s) => plain_value(parameter, data@) == Some(s@),
            None => plain_value(parameter, data@) is None,
        },
{
    match match parameter {
        PlainParameter::IpAddress => Outside::IpAddress,
        PlainParameter::IpAddressSource => Outside::IpAddressSource,
        PlainParameter::MacAddress => Outside::MacAddress,
        PlainParameter::SubnetMask => Outside::SubnetMask,
        PlainParameter::DefaultGatewayAddress => Outside::DefaultGatewayAddress,
        PlainParameter::DefaultGatewayMacAddress => Outside::DefaultGatewayMacAddress,
        PlainParameter::Ipv6Ipv4AddressingEnables => Outside::Ipv6Ipv4AddressingEnables,
    }.parse(data).ok()? {
        OutsideData::IpAddress(v) | OutsideData::SubnetMask(v) | OutsideData::DefaultGatewayAddress(v) => Some(v.to_string()),
        OutsideData::MacAddress(v) | OutsideData::DefaultGatewayMacAddress(v) => Some(v.to_string()),
        OutsideData::IpAddressSource(v) => Some(v.to_string()),
        OutsideData::Ipv6Ipv4AddressingEnables(v) => Some(v.to_string()),
        _ => None,
    }
}

/// Which IP versions a channel supports.
#[derive(Clone, Copy, Debug, PartialEq, Eq, Structural)]
pub struct Ipv6Ipv4Support {
    pub ipv6_alerting_supported: bool,
    pub dual_stack_supported: bool,
    pub ipv6_only_supported: bool,
}

/// The IPv6 capabilities of a channel.
#[derive(Clone, Copy, Debug, PartialEq, Eq, Structural)]
pub struct Ipv6Status {
    pub static_address_max: u8,
    pub dynamic_address_max: u8,
    pub slaac_supported: bool,
    pub dhcpv6_supported: bool,
}

/// An IPv6 address of a channel, with the address in text form.
pub struct Ipv6Entry {
    pub source_type: u8,
    pub address: String,
    pub prefix_length: u8,
    pub status: u8,
}

/// The text form of an IPv6 address.
pub uninterp spec fn ipv6_form(address: Seq<u8>) -> Seq<char>;

/// `LanConfigParameter::Ipv6Ipv4Support.parse`: the three lowest bits of the
/// first byte; nothing without data.
#[verifier::external_body]
fn parse_ipv6_support(data: &[u8]) -> (r: Option<Ipv6Ipv4Support>)
    ensures
        match r {
            Some(s) => data@.len() > 0 && s.ipv6_only_supported == (data@[0] & 1 == 1)
                && s.dual_stack_supported == (data@[0] & 2 == 2) && s.ipv6_alerting_supported == (
            data@[0] & 4 == 4),
            None => data@.len() == 0,
        },
{
    match Outside::Ipv6Ipv4Support.parse(data).ok()? {
        OutsideData::Ipv6Ipv4Support(v) => Some(Ipv6Ipv4Support {
            ipv6_alerting_supported: v.ipv6_alerting_supported,
            dual_stack_supported: v.dual_stack_supported,
            ipv6_only_supported: v.ipv6_only_supported,
        }),
        _ => None,
    }
}

/// `LanConfigParameter::Ipv6Status.parse`: two counts and two flags; nothing for
/// fewer than three bytes.
#[verifier::external_body]
fn parse_ipv6_status(data: &[u8]) -> (r: Option<Ipv6Status>)
    ensures
        match r {
            Some(s) => data@.len() >= 3 && s.static_address_max == data@[0] && s.dynamic_address_max
                == data@[1] && s.slaac_supported == (data@[2] & 2 == 2) && s.dhcpv6_supported == (
            data@[2] & 1 == 1),
            None => data@.len() < 3,
        },
{
    match Outside::Ipv6Status.parse(data).ok()? {
        OutsideData::Ipv6Status(v) => Some(Ipv6Status {
            static_address_max: v.static_address_max,
            dynamic_address_max: v.dynamic_address_max,
            slaac_supported: v.slaac_supported,
            dhcpv6_supported: v.dhcpv6_supported,
        }),
        _ => None,
    }
}

/// `LanConfigParameter::Ipv6StaticAddresses.parse`: after the selector a byte
/// with the enable bit and the source, the address, its prefix length and its
/// status; nothing for fewer than twenty bytes. The text of the address is
/// named.
#[verifier::external_body]
fn parse_ipv6_static(data: &[u8]) -> (r: Option<(bool, Ipv6Entry)>)
    ensures
        match r {
            Some((enabled, e)) => data@.len() >= 20 && enabled == (data@[1] & 0x80 == 0x80)
                && e.source_type == data@[1] & 0x0F && e.address@ == ipv6_form(
                data@.subrange(2, 18),
            ) && e.prefix_length == data@[18] && e.status == data@[19],
            None => data@.len() < 20,
        },
{
    match Outside::Ipv6StaticAddresses.parse(data).ok()? {
        OutsideData::Ipv6StaticAddresses(v) => {
            let (source_type, address) = (v.source_type, v.address.to_string());
            let (prefix_length, status) = (v.prefix_length, v.status);
            Some((v.enabled, Ipv6Entry { source_type, address, prefix_length, status }))
        }
        _ => None,
    }
}

/// `LanConfigParameter::Ipv6DynamicAddress.parse`: as for a static address, with
/// no enable bit.
#[verifier::external_body]
fn parse_ipv6_dynamic(data: &[u8]) -> (r: Option<Ipv6Entry>)
    ensures
        match r {
            Some(e) => data@.len() >= 20 && e.source_type == data@[1] & 0x0F && e.address@
                == ipv6_form(data@.subrange(2, 18)) && e.prefix_length == data@[18] && e.status
                == data@[19],
            None => data@.len() < 20,
        },
{
    match Outside::Ipv6DynamicAddress.parse(data).ok()? {
        OutsideData::Ipv6DynamicAddress(v) => Some(Ipv6Entry {
            source_type: v.source_type,
            address: v.address.to_string(),
            prefix_length: v.prefix_length,
            status: v.status,
        }),
        _ => None,
    }
}

// ---------------------------------------------------------------------
// How parameters are shown
// ---------------------------------------------------------------------

/// How a VLAN ID parameter is shown: a 12-bit ID, or disabled.
pub open spec fn vlan_text(data: Seq<u8>) -> Option<Chars> {
    if data.len() < 2 {
        None
    } else if data[1] < 0x80 {
        Some("disabled"@)
    } else {
        Some(dec((data[1] % 16 * 256 + data[0]) as nat))
    }
}

/// What the data of a parameter says, if it is shown.
pub open spec fn parameter_text(parameter: LanConfigParameter, data: Seq<u8>) -> Option<Chars> {
    match parameter {
        LanConfigParameter::IpAddress => plain_value(PlainParameter::IpAddress, data),
        LanConfigParameter::IpAddressSource => plain_value(PlainParameter::IpAddressSource, data),
        LanConfigParameter::MacAddress => plain_value(PlainParameter::MacAddress, data),
        LanConfigParameter::SubnetMask => plain_value(PlainParameter::SubnetMask, data),
        LanConfigParameter::DefaultGatewayAddress => plain_value(
            PlainParameter::DefaultGatewayAddress,
            data,
        ),
        LanConfigParameter::DefaultGatewayMacAddress => plain_value(
            PlainParameter::DefaultGatewayMacAddress,
            data,
        ),
        LanConfigParameter::Ipv6Ipv4AddressingEnables => plain_value(
            PlainParameter::Ipv6Ipv4AddressingEnables,
            data,
        ),
        LanConfigParameter::VlanId => vlan_text(data),
        LanConfigParameter::VlanPriority => if data.len() < 1 {
            None
        } else {
            Some(dec((data[0] % 8) as nat))
        },
        LanConfigParameter::Ipv6Ipv4Support => if data.len() < 1 {
            None
        } else {
            Some(
                "IPv4; IPv6-only "@ + yes_no_of(data[0] & 1 == 1) + ", dual-stack "@ + yes_no_of(
                    data[0] & 2 == 2,
                ) + ", IPv6 alerts "@ + yes_no_of(data[0] & 4 == 4),
            )
        },
        LanConfigParameter::Ipv6StaticAddresses => if data.len() < 20 {
            None
        } else {
            Some(
                ipv6_form(data.subrange(2, 18)) + "/"@ + dec(data[18] as nat) + " (enabled "@
                    + yes_no_of(data[1] & 0x80 == 0x80) + ", source "@ + dec(
                    (data[1] & 0x0F) as nat,
                ) + ", status 0x"@ + hex(data[19] as nat, 2) + ")"@,
            )
        },
        LanConfigParameter::Ipv6DynamicAddress => if data.len() < 20 {
            None
        } else {
            Some(
                ipv6_form(data.subrange(2, 18)) + "/"@ + dec(data[18] as nat) + " (source "@ + dec(
                    (data[1] & 0x0F) as nat,
                ) + ", status 0x"@ + hex(data[19] as nat, 2) + ")"@,
            )
        },
        LanConfigParameter::SetInProgress | LanConfigParameter::Ipv6Status => None,
    }
}

/// Shows the data of a parameter.
pub fn render_parameter(parameter: LanConfigParameter, data: &[u8]) -> (r: Option<String>)
    ensures
        match r {
            Some(s) => parameter_text(parameter, data@) == Some(s@),
            None => parameter_text(parameter, data@) is None,
        },
{
    match parameter {
        LanConfigParameter::IpAddress => parse_plain(PlainParameter::IpAddress, data),
        LanConfigParameter::IpAddressSource => parse_plain(PlainParameter::IpAddressSource, data),
        LanConfigParameter::MacAddress => parse_plain(PlainParameter::MacAddress, data),
        LanConfigParameter::SubnetMask => parse_plain(PlainParameter::SubnetMask, data),
        LanConfigParameter::DefaultGatewayAddress => parse_plain(
            PlainParameter::DefaultGatewayAddress,
            data,
        ),
        LanConfigParameter::DefaultGatewayMacAddress => parse_plain(
            PlainParameter::DefaultGatewayMacAddress,
            data,
        ),
        LanConfigParameter::Ipv6Ipv4AddressingEnables => parse_plain(
            PlainParameter::Ipv6Ipv4AddressingEnables,
            data,
        ),
        LanConfigParameter::VlanId => fetch_vlan(data),
        LanConfigParameter::VlanPriority => fetch_vlan_priority(data),
        LanConfigParameter::Ipv6Ipv4Support => match parse_ipv6_support(data) {
            Some(v) => {
                let mut s = concat3(
                    "IPv4; IPv6-only ",
                    yes_no(v.ipv6_only_supported),
                    ", dual-stack ",
                );
                s.append(yes_no(v.dual_stack_supported));
                s.append(", IPv6 alerts ");
                s.append(yes_no(v.ipv6_alerting_supported));
                Some(s)
            }
            None => None,
        },
        LanConfigParameter::Ipv6StaticAddresses => match parse_ipv6_static(data) {
            Some((enabled, v)) => {
                let mut s = concat3(
                    v.address.as_str(),
                    "/",
                    dec_text(v.prefix_length as u64).as_str(),
                );
                s.append(" (enabled ");
                s.append(yes_no(enabled));
                s.append(", source ");
                s.append(dec_text(v.source_type as u64).as_str());
                s.append(", status 0x");
                s.append(hex_text(v.status as u64, 2).as_str());
                s.append(")");
                Some(s)
            }
            None => None,
        },
        LanConfigParameter::Ipv6DynamicAddress => match parse_ipv6_dynamic(data) {
            Some(v) => {
                let mut s = concat3(
                    v.address.as_str(),
                    "/",
                    dec_text(v.prefix_length as u64).as_str(),
                );
                s.append(" (source ");
                s.append(dec_text(v.source_type as u64).as_str());
                s.append(", status 0x");
                s.append(hex_text(v.status as u64, 2).as_str());
                s.append(")");
                Some(s)
            }
            None => None,
        },
        LanConfigParameter::SetInProgress => None,
        LanConfigParameter::Ipv6Status => None,
    }
}

/// Shows a VLAN ID parameter.
pub fn fetch_vlan(data: &[u8]) -> (r: Option<String>)
    ensures
        match r {
            Some(s) => vlan_text(data@) == Some(s@),
            None => vlan_text(data@) is None,
        },
{
    if data.len() < 2 {
        return None;
    }
    let low: u8 = data[0];
    let high: u8 = data[1];
    if high < 0x80 {
        Some("disabled".to_owned())
    } else {
        Some(dec_text((high % 16) as u64 * 256 + low as u64))
    }
}

/// Shows a VLAN priority parameter.
pub fn fetch_vlan_priority(data: &[u8]) -> (r: Option<String>)
    ensures
        match r {
            Some(s) => data@.len() > 0 && s@ == dec((data@[0] % 8) as nat),
            None => data@.len() == 0,
        },
{
    if data.len() < 1 {
        None
    } else {
        Some(dec_text((data[0] % 8) as u64))
    }
}

/// The IPv6 capabilities in a parameter's data.
pub open spec fn status_of(data: Seq<u8>) -> Option<Ipv6Status> {
    if data.len() < 3 {
        None
    } else {
        Some(
            Ipv6Status {
                static_address_max: data[0],
                dynamic_address_max: data[1],
                slaac_supported: data[2] & 2 == 2,
                dhcpv6_supported: data[2] & 1 == 1,
            },
        )
    }
}

pub fn ipv6_status(data: &[u8]) -> (r: Option<Ipv6Status>)
    ensures
        r == status_of(data@),
{
    parse_ipv6_status(data)
}

/// How IPv6 capabilities are shown.
pub open spec fn status_text(status: Ipv6Status) -> Chars {
    dec(status.static_address_max as nat) + " static, "@ + dec(status.dynamic_address_max as nat)
        + " dynamic; SLAAC "@ + yes_no_of(status.slaac_supported) + ", DHCPv6 "@ + yes_no_of(
        status.dhcpv6_supported,
    )
}

pub fn render_status(status: &Ipv6Status) -> (s: String)
    ensures
        s@ == status_text(*status),
{
    let mut s = concat3(
        dec_text(status.static_address_max as u64).as_str(),
        " static, ",
        dec_text(status.dynamic_address_max as u64).as_str(),
    );
    s.append(" dynamic; SLAAC ");
    s.append(yes_no(status.slaac_supported));
    s.append(", DHCPv6 ");
    s.append(yes_no(status.dhcpv6_supported));
    s
}

// ---------------------------------------------------------------------
// Settings
// ---------------------------------------------------------------------

/// The bytes of a VLAN ID parameter: the ID, and the enable bit unless it is
/// zero.
pub open spec fn vlan_bytes(id: u16) -> Seq<u8> {
    seq![
        low_byte(id),
        ((id / 256) % 16 + if id != 0 {
            0x80int
        } else {
            0
        }) as u8,
    ]
}

pub fn encode_vlan(id: u16) -> (r: [u8; 2])
    ensures
        r@ == vlan_bytes(id),
{
    let high: u8 = ((id / 256) % 16) as u8;
    let r = [
        u16_low(id),
        if id != 0 {
            high + 0x80
        } else {
            high
        },
    ];
    proof {
        assert(r@ =~= vlan_bytes(id));
    }
    r
}

/// A VLAN ID that is written is shown again: every ID of twelve bits as it is,
/// and zero as disabled.
pub proof fn law_vlan_round_trip(id: u16)
    requires
        id <= 0xFFF,
    ensures
        vlan_text(vlan_bytes(id)) == if id == 0 {
            Some("disabled"@)
        } else {
            Some(dec(id as nat))
        },
{
}

/// The first index from `i` on of a character that is `a` or `b`, or the end.
pub open spec fn next_break(s: Chars, a: char, b: char, i: int) -> int
    decreases s.len() - i,
{
    if i < 0 || i >= s.len() {
        s.len() as int
    } else if s[i] == a || s[i] == b {
        i
    } else {
        next_break(s, a, b, i + 1)
    }
}

/// The parts of `s` between the characters `a` and `b`, from index `i` on.
pub open spec fn parts_of(s: Chars, a: char, b: char, i: int) -> Seq<Chars>
    decreases s.len() - i,
{
    let end = next_break(s, a, b, i);
    if i < 0 || i > s.len() {
        seq![]
    } else if end < i || end >= s.len() {
        seq![s.subrange(i, s.len() as int)]
    } else {
        seq![s.subrange(i, end)] + parts_of(s, a, b, end + 1)
    }
}

proof fn lemma_next_break(s: Chars, a: char, b: char, i: int, j: int)
    requires
        0 <= i <= j <= s.len(),
        forall|k: int| i <= k < j ==> s[k] != a && s[k] != b,
        j < s.len() ==> s[j] == a || s[j] == b,
    ensures
        next_break(s, a, b, i) == j,
    decreases j - i,
{
    if i < j {
        lemma_next_break(s, a, b, i + 1, j);
    }
}

/// Splits `s` at the characters `a` and `b`.
fn split_at(s: &Vec<char>, a: char, b: char) -> (parts: Vec<String>)
    ensures
        texts(parts@) == parts_of(s@, a, b, 0),
{
    let mut parts: Vec<String> = Vec::new();
    let mut start: usize = 0;
    let mut i: usize = 0;
    let n: usize = s.len();
    proof {
        assert(texts(parts@) + parts_of(s@, a, b, 0) =~= parts_of(s@, a, b, 0));
    }
    while i < n
        invariant
            n == s@.len(),
            start <= i <= n,
            forall|k: int| start <= k < i ==> s@[k] != a && s@[k] != b,
            texts(parts@) + parts_of(s@, a, b, start as int) == parts_of(s@, a, b, 0),
        decreases n - i,
    {
        if s[i] == a || s[i] == b {
            proof {
                lemma_next_break(s@, a, b, start as int, i as int);
            }
            let ghost before = texts(parts@);
            let part = text_of(copy_chars(s.as_slice(), start, i).as_slice());
            crate::text::push_text(&mut parts, part);
            proof {
                let rest = parts_of(s@, a, b, i + 1);
                assert(before + (seq![s@.subrange(start as int, i as int)] + rest) =~= texts(
                    parts@,
                ) + rest);
            }
            start = i + 1;
        }
        i = i + 1;
    }
    proof {
        lemma_next_break(s@, a, b, start as int, n as int);
    }
    let ghost before = texts(parts@);
    let part = text_of(copy_chars(s.as_slice(), start, n).as_slice());
    crate::text::push_text(&mut parts, part);
    proof {
        assert(before + seq![s@.subrange(start as int, n as int)] =~= texts(parts@));
    }
    parts
}

/// One octet in dotted form: one to three digits without a leading zero, worth
/// at most 255.
pub open spec fn octet(s: Chars) -> Option<u8> {
    if !(1 <= s.len() <= 3) || (s.len() > 1 && s[0] == '0') || s[0] == '+' {
        None
    } else {
        match digits_worth(s, false) {
            Some(v) if v <= 255 => Some(v as u8),
            _ => None,
        }
    }
}

fn parse_octet(s: &str) -> (r: Option<u8>)
    ensures
        r == octet(s@),
{
    let n: usize = s.unicode_len();
    if n < 1 || n > 3 {
        return None;
    }
    let first = s.get_char(0);
    if (n > 1 && first == '0') || first == '+' {
        return None;
    }
    match parse_unsigned(s, false, 255) {
        Some(v) => Some(v as u8),
        None => None,
    }
}

/// The four octets of an IPv4 address in dotted form.
pub open spec fn ipv4_of(s: Chars) -> Option<Seq<u8>> {
    let parts = parts_of(s, '.', '.', 0);
    if parts.len() == 4 && octet(parts[0]) is Some && octet(parts[1]) is Some && octet(
        parts[2],
    ) is Some && octet(parts[3]) is Some {
        Some(seq![octet(parts[0])->0, octet(parts[1])->0, octet(parts[2])->0, octet(parts[3])->0])
    } else {
        None
    }
}

pub fn parse_ipv4(value: &str, option: &str) -> (r: Result<[u8; 4], String>)
    ensures
        match r {
            Ok(address) => ipv4_of(value@) == Some(address@),
            Err(e) => ipv4_of(value@) is None && e@ == "invalid "@ + option@ + " '"@ + value@ + "'"@,
        },
{
    let chars = chars_of(value);
    let parts = split_at(&chars, '.', '.');
    let ghost said = parts_of(value@, '.', '.', 0);
    proof {
        assert(texts(parts@).len() == parts@.len());
    }
    if parts.len() == 4 {
        proof {
            assert(said[0] == parts@[0]@ && said[1] == parts@[1]@ && said[2] == parts@[2]@
                && said[3] == parts@[3]@);
        }
        if let (Some(a), Some(b), Some(c), Some(d)) = (
            parse_octet(parts[0].as_str()),
            parse_octet(parts[1].as_str()),
            parse_octet(parts[2].as_str()),
            parse_octet(parts[3].as_str()),
        ) {
            let address = [a, b, c, d];
            proof {
                assert(address@ =~= ipv4_of(value@)->0);
            }
            return Ok(address);
        }
    }
    let mut e = concat3("invalid ", option, " '");
    e.append(value);
    e.append("'");
    Err(e)
}

/// The six bytes of a MAC address: hexadecimal numbers between colons or
/// dashes.
pub open spec fn mac_of(s: Chars) -> Option<Seq<u8>> {
    let parts = parts_of(s, ':', '-', 0);
    if parts.len() == 6 && (forall|i: int|
        0 <= i < 6 ==> (#[trigger] unsigned(parts[i], true, 255)) is Some) {
        Some(Seq::new(6, |i: int| unsigned(parts[i], true, 255)->0 as u8))
    } else {
        None
    }
}

pub fn parse_mac(value: &str) -> (r: Result<[u8; 6], String>)
    ensures
        match r {
            Ok(address) => mac_of(value@) == Some(address@),
            Err(e) => mac_of(value@) is None && e@ == "invalid --gateway-mac '"@ + value@ + "'"@,
        },
{
    let chars = chars_of(value);
    let parts = split_at(&chars, ':', '-');
    let ghost said = parts_of(value@, ':', '-', 0);
    proof {
        assert(texts(parts@).len() == parts@.len());
    }
    if parts.len() == 6 {
        let mut address = [0u8; 6];
        let mut valid: bool = true;
        let mut i: usize = 0;
        while i < 6
            invariant
                i <= 6,
                parts@.len() == 6,
                said == texts(parts@),
                valid ==> forall|k: int|
                    0 <= k < i ==> (#[trigger] unsigned(said[k], true, 255)) is Some && address@[k]
                        == unsigned(said[k], true, 255)->0 as u8,
                !valid ==> exists|k: int|
                    0 <= k < 6 && (#[trigger] unsigned(said[k], true, 255)) is None,
            decreases 6 - i,
        {
            proof {
                assert(said[i as int] == parts@[i as int]@);
            }
            match parse_unsigned(parts[i].as_str(), true, 255) {
                Some(v) => {
                    address[i] = v as u8;
                }
                None => {
                    proof {
                        assert(unsigned(said[i as int], true, 255) is None);
                    }
                    valid = false;
                }
            }
            i = i + 1;
        }
        if valid {
            proof {
                assert(address@ =~= mac_of(value@)->0);
            }
            return Ok(address);
        }
    }
    Err(concat3("invalid --gateway-mac '", value, "'"))
}

/// The parts of a text whose first separator from `i` on is at `j`.
proof fn lemma_next_part(s: Chars, a: char, b: char, i: int, j: int)
    requires
        0 <= i <= j <= s.len(),
        forall|k: int| i <= k < j ==> s[k] != a && s[k] != b,
        j < s.len() ==> s[j] == a || s[j] == b,
    ensures
        parts_of(s, a, b, i) == if j < s.len() {
            seq![s.subrange(i, j)] + parts_of(s, a, b, j + 1)
        } else {
            seq![s.subrange(i, j)]
        },
{
    lemma_next_break(s, a, b, i, j);
}

/// Parts with a separator between each two.
pub open spec fn separated(parts: Seq<Chars>, separator: char) -> Chars
    decreases parts.len(),
{
    if parts.len() == 0 {
        seq![]
    } else if parts.len() == 1 {
        parts[0]
    } else {
        parts[0] + seq![separator] + separated(parts.skip(1), separator)
    }
}

/// A text that is made of parts with separators between them has these parts.
proof fn lemma_separated(parts: Seq<Chars>, a: char, b: char, before: Chars)
    requires
        parts.len() > 0,
        forall|i: int, k: int|
            0 <= i < parts.len() && 0 <= k < parts[i].len() ==> (#[trigger] parts[i][k]) != a
                && parts[i][k] != b,
    ensures
        parts_of(before + separated(parts, a), a, b, before.len() as int) == parts,
    decreases parts.len(),
{
    let s = before + separated(parts, a);
    let i = before.len() as int;
    let first = parts[0];
    let j = i + first.len();
    if parts.len() == 1 {
        assert forall|k: int| i <= k < j implies s[k] != a && s[k] != b by {
            assert(s[k] == parts[0][k - i]);
        }
        lemma_next_part(s, a, b, i, j);
        assert(s.subrange(i, j) =~= first);
        assert(seq![first] =~= parts);
    } else {
        let rest = parts.skip(1);
        let longer = before + first + seq![a];
        assert(s =~= longer + separated(rest, a));
        assert forall|k: int| i <= k < j implies s[k] != a && s[k] != b by {
            assert(s[k] == parts[0][k - i]);
        }
        assert forall|m: int, k: int|
            0 <= m < rest.len() && 0 <= k < rest[m].len() implies (#[trigger] rest[m][k]) != a
            && rest[m][k] != b by {
            assert(rest[m] == parts[m + 1]);
            assert(parts[m + 1][k] != a && parts[m + 1][k] != b);
        }
        lemma_separated(rest, a, b, longer);
        lemma_next_part(s, a, b, i, j);
        assert(s.subrange(i, j) =~= first);
        assert(seq![first] + rest =~= parts);
    }
}

proof fn lemma_octet(b: u8)
    ensures
        octet(dec(b as nat)) == Some(b),
        forall|k: int| 0 <= k < dec(b as nat).len() ==> (#[trigger] dec(b as nat)[k]) != '.',
{
    let s = dec(b as nat);
    lemma_dec_reads_back(b as nat);
    lemma_dec_reads_back(b as nat / 10);
    lemma_dec_reads_back(b as nat / 100);
    assert(b as nat / 10 / 10 == b as nat / 100);
    assert forall|k: int| 0 <= k < s.len() implies (#[trigger] s[k]) != '.' by {
        assert(digit_worth(s[k], false) is Some);
    }
    assert(digit_worth(s[0], false) is Some);
}

/// An IPv4 address that is set is shown as it was given in dotted form, and
/// what is shown can be set again.
pub proof fn law_ipv4_reads_back(data: Seq<u8>)
    requires
        data.len() == 4,
    ensures
        ipv4_of(ipv4_form(data)) == Some(data),
{
    let parts = Seq::new(4, |i: int| dec(data[i] as nat));
    lemma_octet(data[0]);
    lemma_octet(data[1]);
    lemma_octet(data[2]);
    lemma_octet(data[3]);
    reveal_strlit(".");
    reveal_with_fuel(separated, 4);
    let s = ipv4_form(data);
    assert(separated(parts, '.') =~= s);
    assert(Seq::<char>::empty() + s =~= s);
    lemma_separated(parts, '.', '.', seq![]);
    assert(ipv4_of(s)->0 =~= data);
}

proof fn lemma_six_parts(p: Seq<Chars>)
    requires
        p.len() == 6,
    ensures
        separated(p, ':') == p[0] + ":"@ + p[1] + ":"@ + p[2] + ":"@ + p[3] + ":"@ + p[4] + ":"@
            + p[5],
{
    reveal_strlit(":");
    let colon = ":"@;
    assert(colon =~= seq![':']);
    let p1 = p.skip(1);
    let p2 = p1.skip(1);
    let p3 = p2.skip(1);
    let p4 = p3.skip(1);
    let p5 = p4.skip(1);
    assert(separated(p5, ':') == p[5]);
    assert(separated(p4, ':') == p[4] + colon + p[5]);
    assert(separated(p3, ':') == p[3] + colon + separated(p4, ':'));
    assert(separated(p2, ':') == p[2] + colon + separated(p3, ':'));
    assert(separated(p1, ':') == p[1] + colon + separated(p2, ':'));
    assert(separated(p, ':') == p[0] + colon + separated(p1, ':'));
    let s2 = p[0] + colon + p[1] + colon;
    let s3 = s2 + p[2] + colon;
    assert(separated(p, ':') =~= s2 + separated(p2, ':'));
    assert(s2 + separated(p2, ':') =~= s3 + separated(p3, ':'));
    assert(s3 + separated(p3, ':') =~= s3 + p[3] + colon + separated(p4, ':'));
    assert(s3 + p[3] + colon + separated(p4, ':') =~= s3 + p[3] + colon + p[4] + colon + p[5]);
}

/// A MAC address that is set is shown as hexadecimal pairs, and what is shown
/// can be set again.
pub proof fn law_mac_reads_back(data: Seq<u8>)
    requires
        data.len() == 6,
    ensures
        mac_of(mac_form(data)) == Some(data),
{
    let parts = Seq::new(6, |i: int| hex(data[i] as nat, 2));
    assert forall|i: int| 0 <= i < 6 implies (#[trigger] unsigned(parts[i], true, 255)) == Some(
        data[i] as nat,
    ) by {
        lemma_hex_reads_back(data[i] as nat, 2);
        assert(digit_worth(parts[i][0], true) is Some);
    }
    assert forall|i: int, k: int| 0 <= i < 6 && 0 <= k < parts[i].len() implies (
    #[trigger] parts[i][k]) != ':' && parts[i][k] != '-' by {
        lemma_hex_reads_back(data[i] as nat, 2);
        assert(digit_worth(parts[i][k], true) is Some);
    }
    lemma_six_parts(parts);
    let s = mac_form(data);
    assert(separated(parts, ':') == s);
    assert(Seq::<char>::empty() + s =~= s);
    lemma_separated(parts, ':', '-', seq![]);
    assert(mac_of(s)->0 =~= data);
}

/// The source byte that a `--source` argument stands for, whatever its case.
pub open spec fn ip_source(value: Chars) -> Option<u8> {
    if lower(value) == "static"@ {
        Some(1u8)
    } else if lower(value) == "dhcp"@ {
        Some(2u8)
    } else {
        None
    }
}

pub fn parse_ip_source(value: &str) -> (r: Option<u8>)
    ensures
        r == ip_source(value@),
{
    let text = lower_text(value);
    proof {
        reveal_strlit("static");
        reveal_strlit("dhcp");
    }
    if same_text(text.as_str(), "static") {
        Some(1)
    } else if same_text(text.as_str(), "dhcp") {
        Some(2)
    } else {
        None
    }
}

/// One setting to write: a parameter, its bytes, and how it is described.
pub struct Change {
    pub parameter: LanConfigParameter,
    pub data: Vec<u8>,
    pub description: String,
}

/// One setting to write, with texts and bytes as sequences.
pub ghost struct ChangeView {
    pub parameter: LanConfigParameter,
    pub data: Seq<u8>,
    pub description: Chars,
}

impl View for Change {
    type V = ChangeView;

    open spec fn view(&self) -> ChangeView {
        ChangeView {
            parameter: self.parameter,
            data: self.data@,
            description: self.description@,
        }
    }
}

pub open spec fn change_views(changes: Seq<Change>) -> Seq<ChangeView> {
    Seq::new(changes.len(), |i: int| changes[i]@)
}

/// The settings, and one more for an argument that is there and valid.
pub open spec fn with_change(
    changes: Result<Seq<ChangeView>, Chars>,
    change: Option<Result<ChangeView, Chars>>,
) -> Result<Seq<ChangeView>, Chars> {
    match (changes, change) {
        (Err(e), _) => Err(e),
        (Ok(c), None) => Ok(c),
        (Ok(_), Some(Err(e))) => Err(e),
        (Ok(c), Some(Ok(change))) => Ok(c.push(change)),
    }
}

pub open spec fn source_change(arg: Option<String>) -> Option<Result<ChangeView, Chars>> {
    match arg {
        None => None,
        Some(source) => Some(
            match ip_source(source@) {
                Some(value) => Ok(
                    ChangeView {
                        parameter: LanConfigParameter::IpAddressSource,
                        data: seq![value],
                        description: "address source = "@ + source_form(value),
                    },
                ),
                None => Err("invalid --source '"@ + source@ + "' (use static or dhcp)"@),
            },
        ),
    }
}

pub open spec fn address_change(
    arg: Option<String>,
    parameter: LanConfigParameter,
    option: Chars,
    label: Chars,
) -> Option<Result<ChangeView, Chars>> {
    match arg {
        None => None,
        Some(value) => Some(
            match ipv4_of(value@) {
                Some(data) => Ok(ChangeView { parameter, data, description: label + value@ }),
                None => Err("invalid "@ + option + " '"@ + value@ + "'"@),
            },
        ),
    }
}

pub open spec fn mac_change(arg: Option<String>) -> Option<Result<ChangeView, Chars>> {
    match arg {
        None => None,
        Some(value) => Some(
            match mac_of(value@) {
                Some(data) => Ok(
                    ChangeView {
                        parameter: LanConfigParameter::DefaultGatewayMacAddress,
                        data,
                        description: "gateway MAC = "@ + value@,
                    },
                ),
                None => Err("invalid --gateway-mac '"@ + value@ + "'"@),
            },
        ),
    }
}

pub open spec fn vlan_change(arg: Option<u16>) -> Option<Result<ChangeView, Chars>> {
    match arg {
        None => None,
        Some(id) => Some(
            Ok(
                ChangeView {
                    parameter: LanConfigParameter::VlanId,
                    data: vlan_bytes(id),
                    description: if id != 0 {
                        "VLAN ID = "@ + dec(id as nat)
                    } else {
                        "VLAN disabled"@
                    },
                },
            ),
        ),
    }
}

pub open spec fn priority_change(arg: Option<u8>) -> Option<Result<ChangeView, Chars>> {
    match arg {
        None => None,
        Some(priority) => Some(
            Ok(
                ChangeView {
                    parameter: LanConfigParameter::VlanPriority,
                    data: seq![priority],
                    description: "VLAN priority = "@ + dec(priority as nat),
                },
            ),
        ),
    }
}

/// The settings that the arguments ask for, in order; the first argument that
/// cannot be read is the error, and no setting at all is one too.
pub open spec fn planned(args: LanSetArgs) -> Result<Seq<ChangeView>, Chars> {
    let c = with_change(Ok(seq![]), source_change(args.source));
    let c = with_change(
        c,
        address_change(args.ip, LanConfigParameter::IpAddress, "--ip"@, "ip = "@),
    );
    let c = with_change(
        c,
        address_change(args.netmask, LanConfigParameter::SubnetMask, "--netmask"@, "netmask = "@),
    );
    let c = with_change(
        c,
        address_change(
            args.gateway,
            LanConfigParameter::DefaultGatewayAddress,
            "--gateway"@,
            "gateway = "@,
        ),
    );
    let c = with_change(c, mac_change(args.gateway_mac));
    let c = with_change(c, vlan_change(args.vlan_id));
    let c = with_change(c, priority_change(args.vlan_priority));
    match c {
        Ok(changes) if changes.len() == 0 => Err("nothing to set; pass a LAN setting option"@),
        _ => c,
    }
}

fn push_change(changes: &mut Vec<Change>, change: Change)
    ensures
        change_views(final(changes)@) == change_views(old(changes)@).push(change@),
{
    changes.push(change);
    proof {
        assert(change_views(changes@) =~= change_views(old(changes)@).push(change@));
    }
}

fn push_address(
    changes: &mut Vec<Change>,
    arg: &Option<String>,
    parameter: LanConfigParameter,
    option: &str,
    label: &str,
) -> (r: Result<(), String>)
    ensures
        match r {
            Ok(_) => with_change(
                Ok(change_views(old(changes)@)),
                address_change(*arg, parameter, option@, label@),
            ) == Ok::<Seq<ChangeView>, Chars>(change_views(final(changes)@)),
            Err(e) => with_change(
                Ok(change_views(old(changes)@)),
                address_change(*arg, parameter, option@, label@),
            ) == Err::<Seq<ChangeView>, Chars>(e@),
        },
{
    if let Some(value) = arg {
        match parse_ipv4(value.as_str(), option) {
            Err(e) => {
                return Err(e);
            }
            Ok(address) => {
                let data = vec![address[0], address[1], address[2], address[3]];
                proof {
                    assert(data@ =~= address@);
                }
                push_change(
                    changes,
                    Change { parameter, data, description: concat2(label, value.as_str()) },
                );
            }
        }
    }
    Ok(())
}

/// Reads the settings that the arguments ask for.
pub fn plan_changes(args: &LanSetArgs) -> (r: Result<Vec<Change>, String>)
    ensures
        match r {
            Ok(changes) => planned(*args) == Ok::<Seq<ChangeView>, Chars>(change_views(changes@))
                && changes@.len() > 0,
            Err(e) => planned(*args) == Err::<Seq<ChangeView>, Chars>(e@),
        },
{
    let mut changes: Vec<Change> = Vec::new();
    proof {
        assert(change_views(changes@) =~= seq![]);
    }
    if let Some(source) = &args.source {
        match parse_ip_source(source.as_str()) {
            None => {
                return Err(
                    concat3("invalid --source '", source.as_str(), "' (use static or dhcp)"),
                );
            }
            Some(value) => {
                let name = if value == 1 {
                    "Static"
                } else {
                    "DHCP"
                };
                let data = vec![value];
                proof {
                    assert(data@ =~= seq![value]);
                }
                push_change(
                    &mut changes,
                    Change {
                        parameter: LanConfigParameter::IpAddressSource,
                        data,
                        description: concat2("address source = ", name),
                    },
                );
            }
        }
    }
    if let Err(e) = push_address(
        &mut changes,
        &args.ip,
        LanConfigParameter::IpAddress,
        "--ip",
        "ip = ",
    ) {
        return Err(e);
    }
    if let Err(e) = push_address(
        &mut changes,
        &args.netmask,
        LanConfigParameter::SubnetMask,
        "--netmask",
        "netmask = ",
    ) {
        return Err(e);
    }
    if let Err(e) = push_address(
        &mut changes,
        &args.gateway,
        LanConfigParameter::DefaultGatewayAddress,
        "--gateway",
        "gateway = ",
    ) {
        return Err(e);
    }
    if let Some(value) = &args.gateway_mac {
        match parse_mac(value.as_str()) {
            Err(e) => {
                return Err(e);
            }
            Ok(m) => {
                let data = vec![m[0], m[1], m[2], m[3], m[4], m[5]];
                proof {
                    assert(data@ =~= m@);
                }
                push_change(
                    &mut changes,
                    Change {
                        parameter: LanConfigParameter::DefaultGatewayMacAddress,
                        data,
                        description: concat2("gateway MAC = ", value.as_str()),
                    },
                );
            }
        }
    }
    if let Some(id) = args.vlan_id {
        let bytes = encode_vlan(id);
        let data = vec![bytes[0], bytes[1]];
        proof {
            assert(data@ =~= vlan_bytes(id));
        }
        let description = if id != 0 {
            concat2("VLAN ID = ", dec_text(id as u64).as_str())
        } else {
            "VLAN disabled".to_owned()
        };
        push_change(
            &mut changes,
            Change { parameter: LanConfigParameter::VlanId, data, description },
        );
    }
    if let Some(priority) = args.vlan_priority {
        let data = vec![priority];
        proof {
            assert(data@ =~= seq![priority]);
        }
        push_change(
            &mut changes,
            Change {
                parameter: LanConfigParameter::VlanPriority,
                data,
                description: concat2("VLAN priority = ", dec_text(priority as u64).as_str()),
            },
        );
    }
    if changes.len() == 0 {
        return Err("nothing to set; pass a LAN setting option".to_owned());
    }
    Ok(changes)
}

} // verus!
