//! LAN settings.

use vstd::prelude::*;

use crate::cli::{LanSetArgs, LanShowArgs};
use crate::cmd::lan::{
    ip_source, ipv4_of, ipv6_form, law_ipv4_reads_back, law_mac_reads_back, mac_of, next_break,
    octet, parameter_text, parts_of, planned, separated, status_of, status_text, vlan_bytes,
    vlan_text, ChangeView, Ipv6Status, LanConfigParameter,
};
use crate::cmd::lan_run::{kv_or_na, lan_channel, ChannelQuery, ShowPhaseView, ShowView};
use crate::cmd::lan_set::{LanSetView, SetPhaseView};
use crate::dialog::{ActionView, ChannelMediumType, EventView};
use crate::laws::{bit, lemma_bits};
use crate::number::{digit_worth, digits_worth};
use crate::text::{dec, digit, hex, lower, Chars};

verus! {

// ---------------------------------------------------------------------
// Addresses
// ---------------------------------------------------------------------

/// An address in dotted form is its four numbers, in order.
pub proof fn law_dotted_addresses(a: u8, b: u8, c: u8, d: u8)
    ensures
        ipv4_of(
            dec(a as nat) + "."@ + dec(b as nat) + "."@ + dec(c as nat) + "."@ + dec(d as nat),
        ) == Some(seq![a, b, c, d]),
{
    law_ipv4_reads_back(seq![a, b, c, d]);
}

proof fn lemma_digit_char(c: char)
    requires
        digit_worth(c, false) is Some,
    ensures
        digit_worth(c, false)->0 < 10,
        c == digit(digit_worth(c, false)->0 as int),
{
}

/// A run of digits without a leading zero is the decimal form of its worth.
proof fn lemma_only_decimal_form(s: Chars)
    requires
        s.len() > 0,
        s.len() == 1 || s[0] != '0',
        digits_worth(s, false) is Some,
    ensures
        s == dec(digits_worth(s, false)->0),
    decreases s.len(),
{
    let p = s.drop_last();
    let v = digits_worth(s, false)->0;
    lemma_digit_char(s.last());
    let d = digit_worth(s.last(), false)->0;
    assert(p.push(s.last()) =~= s);
    if s.len() == 1 {
        assert(digits_worth(p, false) == Some(0nat));
        assert(s =~= seq![digit(d as int)]);
    } else {
        let w = digits_worth(p, false)->0;
        lemma_only_decimal_form(p);
        assert(p[0] == s[0]);
        if w == 0 {
            assert(p == seq![digit(0)]);
            assert(p[0] == '0');
        }
        assert(v == w * 10 + d);
        assert(v / 10 == w && v % 10 == d);
    }
}

proof fn lemma_break_is_one(s: Chars, a: char, i: int)
    requires
        0 <= i <= s.len(),
    ensures
        i <= next_break(s, a, a, i) <= s.len(),
        next_break(s, a, a, i) < s.len() ==> s[next_break(s, a, a, i)] == a,
    decreases s.len() - i,
{
    if i < s.len() && s[i] != a {
        lemma_break_is_one(s, a, i + 1);
    }
}

/// A text is its parts with the separators between them.
proof fn lemma_parts_rejoin(s: Chars, a: char, i: int)
    requires
        0 <= i <= s.len(),
    ensures
        parts_of(s, a, a, i).len() > 0,
        separated(parts_of(s, a, a, i), a) == s.skip(i),
    decreases s.len() - i,
{
    let parts = parts_of(s, a, a, i);
    let end = next_break(s, a, a, i);
    lemma_break_is_one(s, a, i);
    if end >= s.len() {
        assert(parts[0] =~= s.skip(i));
    } else {
        lemma_parts_rejoin(s, a, end + 1);
        let rest = parts_of(s, a, a, end + 1);
        assert(parts =~= seq![s.subrange(i, end)] + rest);
        assert(parts.skip(1) =~= rest);
        assert(parts[0] + seq![a] + s.skip(end + 1) =~= s.skip(i));
    }
}

/// Nothing else is an address: what is taken for one is the dotted form of the
/// numbers that it is taken for.
pub proof fn law_only_dotted_addresses(text: Chars)
    requires
        ipv4_of(text) is Some,
    ensures
        ({
            let a = ipv4_of(text)->0;
            &&& a.len() == 4
            &&& text == dec(a[0] as nat) + "."@ + dec(a[1] as nat) + "."@ + dec(a[2] as nat) + "."@
                + dec(a[3] as nat)
        }),
{
    let parts = parts_of(text, '.', '.', 0);
    let a = ipv4_of(text)->0;
    lemma_parts_rejoin(text, '.', 0);
    assert(text.skip(0) =~= text);
    assert forall|i: int| 0 <= i < 4 implies #[trigger] parts[i] == dec(a[i] as nat) by {
        assert(octet(parts[i]) == Some(a[i]));
        lemma_only_decimal_form(parts[i]);
    }
    let tail = parts.skip(1).skip(1).skip(1);
    assert(tail.len() == 1 && tail[0] == parts[3]);
    reveal_with_fuel(separated, 5);
    assert(parts.skip(1)[0] == parts[1] && parts.skip(1).skip(1)[0] == parts[2]);
    reveal_strlit(".");
    assert("."@ =~= seq!['.']);
    assert(text =~= dec(a[0] as nat) + "."@ + dec(a[1] as nat) + "."@ + dec(a[2] as nat) + "."@
        + dec(a[3] as nat));
}

/// Hexadecimal digits are read in either case.
pub proof fn law_digits_in_either_case(d: u8)
    requires
        10 <= d < 16,
    ensures
        digit_worth((87 + d) as char, true) == Some(d as nat),
        digit_worth((55 + d) as char, true) == Some(d as nat),
        digit_worth((87 + d) as char, false) is None,
{
}

/// A MAC address is its six pairs, in order.
pub proof fn law_mac_addresses(a: u8, b: u8, c: u8, d: u8, e: u8, f: u8)
    ensures
        mac_of(
            hex(a as nat, 2) + ":"@ + hex(b as nat, 2) + ":"@ + hex(c as nat, 2) + ":"@ + hex(
                d as nat,
                2,
            ) + ":"@ + hex(e as nat, 2) + ":"@ + hex(f as nat, 2),
        ) == Some(seq![a, b, c, d, e, f]),
{
    law_mac_reads_back(seq![a, b, c, d, e, f]);
}

/// Addresses are shown in the form in which they are given, for the parameters
/// that hold one.
pub proof fn law_addresses_are_shown(data: Seq<u8>)
    ensures
        data.len() >= 4 ==> ({
            let dotted = dec(data[0] as nat) + "."@ + dec(data[1] as nat) + "."@ + dec(
                data[2] as nat,
            ) + "."@ + dec(data[3] as nat);
            &&& parameter_text(LanConfigParameter::IpAddress, data) == Some(dotted)
            &&& parameter_text(LanConfigParameter::SubnetMask, data) == Some(dotted)
            &&& parameter_text(LanConfigParameter::DefaultGatewayAddress, data) == Some(dotted)
        }),
        data.len() >= 6 ==> ({
            let pairs = hex(data[0] as nat, 2) + ":"@ + hex(data[1] as nat, 2) + ":"@ + hex(
                data[2] as nat,
                2,
            ) + ":"@ + hex(data[3] as nat, 2) + ":"@ + hex(data[4] as nat, 2) + ":"@ + hex(
                data[5] as nat,
                2,
            );
            &&& parameter_text(LanConfigParameter::MacAddress, data) == Some(pairs)
            &&& parameter_text(LanConfigParameter::DefaultGatewayMacAddress, data) == Some(pairs)
        }),
        data.len() < 4 ==> parameter_text(LanConfigParameter::IpAddress, data) is None,
        data.len() < 6 ==> parameter_text(LanConfigParameter::MacAddress, data) is None,
{
}

/// Addressing modes and IPv6 capabilities are shown by what they are.
pub proof fn law_ipv6_texts(data: Seq<u8>, status: Ipv6Status)
    requires
        data.len() > 0,
    ensures
        ({
            let text = parameter_text(LanConfigParameter::Ipv6Ipv4AddressingEnables, data);
            &&& data[0] == 0 ==> text == Some("IPv6 disabled"@)
            &&& data[0] == 1 ==> text == Some("IPv6 only"@)
            &&& data[0] == 2 ==> text == Some("IPv6/IPv4 simultaneous"@)
            &&& data[0] > 2 ==> text == Some("Reserved (0x"@ + hex(data[0] as nat, 2) + ")"@)
        }),
        status_text(status) == dec(status.static_address_max as nat) + " static, "@ + dec(
            status.dynamic_address_max as nat,
        ) + " dynamic; SLAAC "@ + (if status.slaac_supported {
            "yes"@
        } else {
            "no"@
        }) + ", DHCPv6 "@ + (if status.dhcpv6_supported {
            "yes"@
        } else {
            "no"@
        }),
{
}

/// What is shown of an IPv6 address: the sixteen bytes behind the first two, the
/// length of its prefix behind them, bit 7 of the second byte for one that is
/// enabled and its four lowest bits for the source, and the status at the end.
pub proof fn law_ipv6_addresses_are_shown(data: Seq<u8>)
    ensures
        data.len() < 20 ==> parameter_text(LanConfigParameter::Ipv6StaticAddresses, data) is None
            && parameter_text(LanConfigParameter::Ipv6DynamicAddress, data) is None,
        data.len() >= 20 ==> ({
            let address = ipv6_form(data.subrange(2, 18)) + "/"@ + dec(data[18] as nat);
            let enabled = if data[1] >= 128 {
                "yes"@
            } else {
                "no"@
            };
            let source = dec((data[1] % 16) as nat);
            let status = hex(data[19] as nat, 2);
            &&& parameter_text(LanConfigParameter::Ipv6StaticAddresses, data) == Some(
                address + " (enabled "@ + enabled + ", source "@ + source + ", status 0x"@ + status
                    + ")"@,
            )
            &&& parameter_text(LanConfigParameter::Ipv6DynamicAddress, data) == Some(
                address + " (source "@ + source + ", status 0x"@ + status + ")"@,
            )
        }),
{
    if data.len() >= 20 {
        let b = data[1];
        assert((b & 0x80 == 0x80) == (b >= 128) && b & 0x0F == b % 16) by (bit_vector);
    }
}

/// What is shown of the supported protocols.
pub proof fn law_ip_versions_are_shown(data: Seq<u8>)
    requires
        data.len() > 0,
    ensures
        ({
            let yes_no = |b: bool|
                if b {
                    "yes"@
                } else {
                    "no"@
                };
            parameter_text(LanConfigParameter::Ipv6Ipv4Support, data) == Some(
                "IPv4; IPv6-only "@ + yes_no(bit(data[0], 0)) + ", dual-stack "@ + yes_no(
                    bit(data[0], 1),
                ) + ", IPv6 alerts "@ + yes_no(bit(data[0], 2)),
            )
        }),
{
    let b = data[0];
    lemma_bits(b);
    assert((b & 1 == 1) == (b & 1 != 0) && (b & 2 == 2) == (b & 2 != 0) && (b & 4 == 4) == (b & 4
        != 0)) by (bit_vector);
}

/// A static source is 1 and DHCP is 2, and they are shown as such.
pub proof fn law_address_sources(value: Chars, high: u8)
    requires
        high < 16,
    ensures
        lower(value) == "static"@ ==> ip_source(value) == Some(1u8),
        lower(value) == "dhcp"@ ==> ip_source(value) == Some(2u8),
        lower(value) != "static"@ && lower(value) != "dhcp"@ ==> ip_source(value) is None,
        parameter_text(LanConfigParameter::IpAddressSource, seq![(16 * high) as u8]) == Some(
            "Unspecified"@,
        ),
        parameter_text(LanConfigParameter::IpAddressSource, seq![(16 * high + 1) as u8]) == Some(
            "Static"@,
        ),
        parameter_text(LanConfigParameter::IpAddressSource, seq![(16 * high + 2) as u8]) == Some(
            "DHCP"@,
        ),
        parameter_text(LanConfigParameter::IpAddressSource, seq![(16 * high + 3) as u8]) == Some(
            "BIOS/System software"@,
        ),
        parameter_text(LanConfigParameter::IpAddressSource, seq![(16 * high + 4) as u8]) == Some(
            "Other"@,
        ),
{
    reveal_strlit("static");
    reveal_strlit("dhcp");
    assert("static"@.len() == 6 && "dhcp"@.len() == 4);
}

/// A VLAN ID has twelve bits, the lower eight in the first byte; bit 7 of the
/// second byte enables tagging. An ID other than zero is written enabled, zero
/// disabled.
pub proof fn law_vlan_layout(id: u16, low: u8, high: u8, rest: Seq<u8>)
    requires
        id < 4096,
    ensures
        vlan_bytes(id).len() == 2,
        vlan_bytes(id)[0] == id % 256,
        vlan_bytes(id)[1] == id / 256 + (if id != 0 {
            128int
        } else {
            0
        }),
        vlan_text(seq![low, high] + rest) == Some(
            if high >= 128 {
                dec((low + 256 * (high % 16)) as nat)
            } else {
                "disabled"@
            },
        ),
        parameter_text(LanConfigParameter::VlanId, seq![low, high] + rest) == vlan_text(seq![low, high] + rest),
        parameter_text(LanConfigParameter::VlanPriority, seq![low] + rest) == Some(
            dec((low % 8) as nat),
        ),
{
}

// ---------------------------------------------------------------------
// Setting
// ---------------------------------------------------------------------

/// The number of a parameter and the bytes to write.
pub ghost struct Written {
    pub parameter: u8,
    pub data: Seq<u8>,
}

/// The settings that are given, among the first `n`, in order.
pub open spec fn given(settings: Seq<Option<Written>>, n: int) -> Seq<Written>
    decreases n,
{
    if n <= 0 {
        seq![]
    } else {
        match settings[n - 1] {
            Some(setting) => given(settings, n - 1).push(setting),
            None => given(settings, n - 1),
        }
    }
}

/// What planned changes write.
pub open spec fn writes(changes: Seq<ChangeView>) -> Seq<Written> {
    Seq::new(
        changes.len(),
        |i: int| Written { parameter: changes[i].parameter.number(), data: changes[i].data },
    )
}

/// The settings of a command line by parameter: 4 is the address source, 3 the
/// address, 6 the mask, 12 the gateway, 13 its MAC address, 20 the VLAN ID and 21
/// its priority.
pub open spec fn settings(args: LanSetArgs) -> Seq<Option<Written>> {
    seq![
        (match args.source {
            Some(s) => Some(Written { parameter: 4, data: seq![ip_source(s@)->0] }),
            None => None,
        }),
        (match args.ip {
            Some(s) => Some(Written { parameter: 3, data: ipv4_of(s@)->0 }),
            None => None,
        }),
        (match args.netmask {
            Some(s) => Some(Written { parameter: 6, data: ipv4_of(s@)->0 }),
            None => None,
        }),
        (match args.gateway {
            Some(s) => Some(Written { parameter: 12, data: ipv4_of(s@)->0 }),
            None => None,
        }),
        (match args.gateway_mac {
            Some(s) => Some(Written { parameter: 13, data: mac_of(s@)->0 }),
            None => None,
        }),
        (match args.vlan_id {
            Some(id) => Some(Written { parameter: 20, data: vlan_bytes(id) }),
            None => None,
        }),
        (match args.vlan_priority {
            Some(priority) => Some(Written { parameter: 21, data: seq![priority] }),
            None => None,
        }),
    ]
}

/// Whether every given setting can be read.
pub open spec fn readable(args: LanSetArgs) -> bool {
    &&& args.source is Some ==> ip_source(args.source->0@) is Some
    &&& args.ip is Some ==> ipv4_of(args.ip->0@) is Some
    &&& args.netmask is Some ==> ipv4_of(args.netmask->0@) is Some
    &&& args.gateway is Some ==> ipv4_of(args.gateway->0@) is Some
    &&& args.gateway_mac is Some ==> mac_of(args.gateway_mac->0@) is Some
}

proof fn lemma_one_more(changes: Seq<ChangeView>, change: ChangeView)
    ensures
        writes(changes.push(change)) == writes(changes).push(
            Written { parameter: change.parameter.number(), data: change.data },
        ),
{
    assert(writes(changes.push(change)) =~= writes(changes).push(
        Written { parameter: change.parameter.number(), data: change.data },
    ));
}

/// Exactly the settings that are given are written, each to its own parameter,
/// in a fixed order; a setting that cannot be read, and a command line without
/// any, is refused and nothing is written.
pub proof fn law_given_settings_are_written(args: LanSetArgs)
    ensures
        planned(args) is Ok <==> readable(args) && given(settings(args), 7).len() > 0,
        planned(args) is Ok ==> writes(planned(args)->Ok_0) == given(settings(args), 7),
{
    let s = settings(args);
    let c0: Result<Seq<ChangeView>, Chars> = Ok(seq![]);
    let c1 = crate::cmd::lan::with_change(c0, crate::cmd::lan::source_change(args.source));
    let c2 = crate::cmd::lan::with_change(
        c1,
        crate::cmd::lan::address_change(
            args.ip,
            LanConfigParameter::IpAddress,
            "--ip"@,
            "ip = "@,
        ),
    );
    let c3 = crate::cmd::lan::with_change(
        c2,
        crate::cmd::lan::address_change(
            args.netmask,
            LanConfigParameter::SubnetMask,
            "--netmask"@,
            "netmask = "@,
        ),
    );
    let c4 = crate::cmd::lan::with_change(
        c3,
        crate::cmd::lan::address_change(
            args.gateway,
            LanConfigParameter::DefaultGatewayAddress,
            "--gateway"@,
            "gateway = "@,
        ),
    );
    let c5 = crate::cmd::lan::with_change(c4, crate::cmd::lan::mac_change(args.gateway_mac));
    let c6 = crate::cmd::lan::with_change(c5, crate::cmd::lan::vlan_change(args.vlan_id));
    let c7 = crate::cmd::lan::with_change(c6, crate::cmd::lan::priority_change(args.vlan_priority));
    assert(writes(seq![]) =~= seq![]);
    assert(given(s, 0) == Seq::<Written>::empty());
    lemma_step(c0, crate::cmd::lan::source_change(args.source), s, 0);
    lemma_step(
        c1,
        crate::cmd::lan::address_change(args.ip, LanConfigParameter::IpAddress, "--ip"@, "ip = "@),
        s,
        1,
    );
    lemma_step(
        c2,
        crate::cmd::lan::address_change(
            args.netmask,
            LanConfigParameter::SubnetMask,
            "--netmask"@,
            "netmask = "@,
        ),
        s,
        2,
    );
    lemma_step(
        c3,
        crate::cmd::lan::address_change(
            args.gateway,
            LanConfigParameter::DefaultGatewayAddress,
            "--gateway"@,
            "gateway = "@,
        ),
        s,
        3,
    );
    lemma_step(c4, crate::cmd::lan::mac_change(args.gateway_mac), s, 4);
    lemma_step(c5, crate::cmd::lan::vlan_change(args.vlan_id), s, 5);
    lemma_step(c6, crate::cmd::lan::priority_change(args.vlan_priority), s, 6);
    if c7 is Ok {
        assert(writes(c7->Ok_0).len() == c7->Ok_0.len());
    }
}

/// One more setting: left out, refused, or written.
proof fn lemma_step(
    changes: Result<Seq<ChangeView>, Chars>,
    change: Option<Result<ChangeView, Chars>>,
    settings: Seq<Option<Written>>,
    n: int,
)
    requires
        0 <= n < settings.len(),
        changes is Ok ==> writes(changes->Ok_0) == given(settings, n),
        change is None <==> settings[n] is None,
        change is Some && change->0 is Ok ==> settings[n] == Some(
            Written {
                parameter: change->0->Ok_0.parameter.number(),
                data: change->0->Ok_0.data,
            },
        ),
    ensures
        ({
            let after = crate::cmd::lan::with_change(changes, change);
            &&& after is Ok <==> changes is Ok && !(change is Some && change->0 is Err)
            &&& after is Ok ==> writes(after->Ok_0) == given(settings, n + 1)
        }),
{
    if changes is Ok && change is Some && change->0 is Ok {
        lemma_one_more(changes->Ok_0, change->0->Ok_0);
    }
}

/// A change is made in a transaction: parameter 0 is set to 1, then each change is
/// written to its own parameter on the chosen channel, then 2 commits and 0
/// releases, and every parameter that was written is read again.
pub proof fn law_transaction_steps(s: LanSetView, k: int)
    ensures
        s.at(SetPhaseView::Begin).action() == (ActionView::SetLanParameter {
            channel: s.args.channel,
            parameter: 0,
            data: seq![1u8],
        }),
        s.at(SetPhaseView::Commit).action() == (ActionView::SetLanParameter {
            channel: s.args.channel,
            parameter: 0,
            data: seq![2u8],
        }),
        s.at(SetPhaseView::Release).action() == (ActionView::SetLanParameter {
            channel: s.args.channel,
            parameter: 0,
            data: seq![0u8],
        }),
        0 <= k < s.changes.len() ==> s.at(SetPhaseView::Write(k)).action() == (
        ActionView::SetLanParameter {
            channel: s.args.channel,
            parameter: writes(s.changes)[k].parameter,
            data: writes(s.changes)[k].data,
        }),
        0 <= k < s.applied.len() && 0 <= s.applied[k] < s.changes.len() ==> s.at(
            SetPhaseView::Verify(k),
        ).action() == (ActionView::GetLanParameter {
            channel: s.args.channel,
            parameter: writes(s.changes)[s.applied[k]].parameter,
            selector: 0,
        }),
{
}

/// Changes are written one after the other, whether or not one fails; after the
/// last one the transaction is committed if none failed, and released in any
/// case if it was begun.
pub proof fn law_order_of_writing(s: LanSetView, k: int, e: Chars)
    requires
        0 <= k < s.changes.len(),
    ensures
        k + 1 < s.changes.len() ==> s.after_write(k, Ok(())).set.phase == SetPhaseView::Write(k + 1)
            && s.after_write(k, Err(e)).set.phase == SetPhaseView::Write(k + 1),
        k + 1 == s.changes.len() && s.begun && s.failures.len() == 0 ==> s.after_write(
            k,
            Ok(()),
        ).set.phase == SetPhaseView::Commit,
        k + 1 == s.changes.len() && s.begun ==> s.after_write(k, Err(e)).set.phase
            == SetPhaseView::Release,
        s.after_write(k, Ok(())).set.applied == s.applied.push(k),
        s.after_write(k, Err(e)).set.applied == s.applied,
        s.after_write(k, Err(e)).set.failures.len() == s.failures.len() + 1,
        s.at(SetPhaseView::Commit).next(EventView::LanWritten(Err(e))).set.phase
            == SetPhaseView::Release,
{
}

/// A setting is verified when the controller gives back what was written, and
/// every other answer is a failure, so the command fails.
pub proof fn law_what_is_verified(s: LanSetView, j: int, actual: Seq<u8>, e: Chars)
    requires
        0 <= j < s.applied.len(),
        0 <= s.applied[j] < s.changes.len(),
    ensures
        ({
            let written = s.changes[s.applied[j]].data;
            let n = written.len() as int;
            let after = s.after_verify(j, Ok(actual)).set;
            &&& actual.len() >= n && actual.take(n) == written <==> after.failures == s.failures
            &&& !(actual.len() >= n && actual.take(n) == written) ==> after.failures.len()
                == s.failures.len() + 1
            &&& s.after_verify(j, Err(e)).set.failures.len() == s.failures.len() + 1
            &&& j + 1 == s.applied.len() ==> (after.phase is Finished <==> after.failures.len()
                == 0)
            &&& j + 1 < s.applied.len() ==> after.phase == SetPhaseView::Verify(j + 1)
        }),
{
    let written = s.changes[s.applied[j]].data;
    let n = written.len() as int;
    if actual.len() >= n && actual.take(n) == written {
        assert(written.is_prefix_of(actual)) by {
            assert(actual.subrange(0, n) =~= actual.take(n));
        }
    }
    if written.is_prefix_of(actual) {
        assert(actual.take(n) =~= actual.subrange(0, n));
    }
    let after = s.after_verify(j, Ok(actual)).set;
    if !written.is_prefix_of(actual) {
        assert(after.failures.len() == s.failures.len() + 1);
    }
}

// ---------------------------------------------------------------------
// Showing
// ---------------------------------------------------------------------

/// The parameters that are shown of a channel, by number.
pub open spec fn shown_numbers() -> Seq<u8> {
    seq![4u8, 3, 6, 12, 13, 5, 20, 21, 50, 51]
}

/// Their labels.
pub open spec fn shown_names() -> Seq<Chars> {
    seq![
        "Address source"@,
        "IP address"@,
        "Subnet mask"@,
        "Gateway"@,
        "Gateway MAC"@,
        "BMC MAC"@,
        "VLAN"@,
        "VLAN priority"@,
        "IP versions"@,
        "IPv6 mode"@,
    ]
}

/// A channel is shown parameter by parameter: each is asked for by its number
/// and shown under its own label, as the text of its data or as not available.
pub proof fn law_parameters_are_labelled(s: ShowView, i: usize, data: Seq<u8>, e: Chars)
    requires
        i < 10,
    ensures
        ({
            let q = ChannelQuery::Plain(i);
            let parameter = q.asked().0;
            &&& s.at(ShowPhaseView::Query(q)).action() == (ActionView::GetLanParameter {
                channel: s.channel,
                parameter: shown_numbers()[i as int],
                selector: 0,
            })
            &&& parameter.number() == shown_numbers()[i as int]
            &&& q.shown(Ok(data), s.color) == seq![
                kv_or_na(shown_names()[i as int], parameter_text(parameter, data), s.color),
            ]
            &&& q.shown(Err(e), s.color) == seq![
                kv_or_na(shown_names()[i as int], None, s.color),
            ]
            &&& i < 9 ==> q.next(Ok(data)) == ChannelQuery::Plain((i + 1) as usize)
            &&& i == 9 ==> q.next(Ok(data)) == ChannelQuery::Status
        }),
{
}

/// The numbers of all parameters, and that no two have the same.
pub proof fn law_parameter_numbers(a: LanConfigParameter, b: LanConfigParameter)
    ensures
        LanConfigParameter::SetInProgress.number() == 0,
        LanConfigParameter::IpAddress.number() == 3,
        LanConfigParameter::IpAddressSource.number() == 4,
        LanConfigParameter::MacAddress.number() == 5,
        LanConfigParameter::SubnetMask.number() == 6,
        LanConfigParameter::DefaultGatewayAddress.number() == 12,
        LanConfigParameter::DefaultGatewayMacAddress.number() == 13,
        LanConfigParameter::VlanId.number() == 20,
        LanConfigParameter::VlanPriority.number() == 21,
        LanConfigParameter::Ipv6Ipv4Support.number() == 50,
        LanConfigParameter::Ipv6Ipv4AddressingEnables.number() == 51,
        LanConfigParameter::Ipv6Status.number() == 55,
        LanConfigParameter::Ipv6StaticAddresses.number() == 56,
        LanConfigParameter::Ipv6DynamicAddress.number() == 59,
        a.number() == b.number() ==> a == b,
{
}

/// The IPv6 capabilities are two counts and two bits, and as many addresses are
/// asked for as there can be, but no more than sixteen of either kind.
pub proof fn law_ipv6_addresses(b0: u8, b1: u8, b2: u8, rest: Seq<u8>)
    ensures
        status_of(seq![b0, b1, b2] + rest) == Some(
            Ipv6Status {
                static_address_max: b0,
                dynamic_address_max: b1,
                slaac_supported: bit(b2, 1),
                dhcpv6_supported: bit(b2, 0),
            },
        ),
        ({
            let status = status_of(seq![b0, b1, b2] + rest)->0;
            &&& ChannelQuery::Status.next(Ok(seq![b0, b1, b2] + rest)) == ChannelQuery::static_from(
                status,
                0,
            )
            &&& forall|k: u8|
                k < 255 ==> #[trigger] ChannelQuery::Static(status, k).next(Ok(seq![])) == (if k + 1
                    < b0 && k + 1 < 16 {
                    ChannelQuery::Static(status, (k + 1) as u8)
                } else {
                    ChannelQuery::dynamic_from(status, 0)
                })
            &&& forall|k: u8|
                k < 255 ==> #[trigger] ChannelQuery::Dynamic(status, k).next(Ok(seq![])) == (if k
                    + 1 < b1 && k + 1 < 16 {
                    ChannelQuery::Dynamic(status, (k + 1) as u8)
                } else {
                    ChannelQuery::Done
                })
        }),
        ChannelQuery::Status.asked().0.number() == 55,
        forall|status: Ipv6Status, k: u8|
            (#[trigger] ChannelQuery::Static(status, k).asked()).0.number() == 56
                && ChannelQuery::Static(status, k).asked().1 == k,
        forall|status: Ipv6Status, k: u8|
            (#[trigger] ChannelQuery::Dynamic(status, k).asked()).0.number() == 59
                && ChannelQuery::Dynamic(status, k).asked().1 == k,
{
    lemma_bits(b2);
    assert((b2 & 2 == 2) == (b2 & 2 != 0) && (b2 & 1 == 1) == (b2 & 1 != 0)) by (bit_vector);
}

/// Without a selection the channels 0 to 11, 14 and 15 are looked at in this
/// order; with one only that channel is. A channel is shown exactly when it
/// carries LAN traffic.
pub proof fn law_channels_in_turn(s: ShowView, channel: u8, lines: Seq<Chars>)
    ensures
        ShowView::start(LanShowArgs { channel: None }, s.color).channel == 0,
        ShowView::start(LanShowArgs { channel: Some(channel) }, s.color).channel == channel,
        !s.selected && s.channel < 11 ==> s.onward(lines).show.channel == s.channel + 1
            && s.onward(lines).show.phase is Info,
        !s.selected && s.channel == 11 ==> s.onward(lines).show.channel == 14,
        !s.selected && s.channel == 14 ==> s.onward(lines).show.channel == 15,
        !s.selected && s.channel == 15 ==> s.onward(lines).show.phase is Finished,
        s.selected ==> s.onward(lines).show.phase is Finished,
        lan_channel(channel, Ok(ChannelMediumType::Lan802_3)) is Ok,
        lan_channel(channel, Ok(ChannelMediumType::OtherLan)) is Ok,
        lan_channel(channel, Ok(ChannelMediumType::Other)) is Err,
        s.at(ShowPhaseView::Info).action() == (ActionView::GetChannelInfo { channel: s.channel }),
{
}

} // verus!
