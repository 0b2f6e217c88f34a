//! Command-line arguments as plain values, and the parsers of their texts.

use vstd::prelude::*;

use core::time::Duration;

use crate::conn::{concat2, concat3, Target};
use crate::number::{digit_worth, lemma_hex_reads_back, parse_unsigned, unsigned};
use crate::text::{
    chars_of, contains, contains_text, copy_chars, find_char, first_index, hex, text_of, Chars,
};

verus! {

/// The arguments of the tool.
pub struct Cli {
    pub conn: ConnOpts,
    /// Disable colored output.
    pub no_color: bool,
    pub command: Command,
}

/// What the tool does.
pub enum Command {
    /// Show a one-screen overview: identity, power state and capabilities.
    Status,
    /// Read and display sensor values (temperatures, fans, voltages, ...).
    Sensors(SensorsArgs),
    /// Inspect or clear the System Event Log (SEL).
    Sel(SelArgs),
    /// Show hardware inventory: BMC identity, FRU data and detected devices.
    Inventory(InventoryArgs),
    /// View or change the BMC LAN (network) configuration.
    Lan(LanArgs),
    /// Inspect or override the host boot device.
    Boot(BootArgs),
    /// List and administer BMC users.
    User(UserArgs),
    /// Query or control chassis power.
    Power(PowerArgs),
    /// Blink the chassis identify (locate) LED.
    Identify(IdentifyArgs),
    /// Maintain the BMC itself: reset it or run its self test.
    Bmc(BmcArgs),
    /// Send a guarded raw IPMI request.
    Raw(RawArgs),
}

/// How to reach the BMC.
pub struct ConnOpts {
    /// Remote BMC over LAN, as `user:password@host[:port]` (uses RMCP/RMCP+).
    /// When omitted, the local device is used.
    pub host: Option<String>,
    /// Local IPMI device path (used when no host is given).
    pub device: String,
    /// Response timeout in milliseconds.
    pub timeout_ms: u64,
}

/// A target, with texts as characters.
pub ghost enum TargetView {
    Device(Chars),
    Lan { address: Chars, username: Chars, password: Chars },
}

impl View for Target {
    type V = TargetView;

    open spec fn view(&self) -> TargetView {
        match *self {
            Target::Device(path) => TargetView::Device(path@),
            Target::Lan { address, username, password } => TargetView::Lan {
                address: address@,
                username: username@,
                password: password@,
            },
        }
    }
}

/// The duration of a number of milliseconds.
pub uninterp spec fn millis_duration(millis: u64) -> Duration;

/// `Duration::from_millis`: the duration of a number of milliseconds. The value
/// is named.
#[verifier::external_body]
fn duration_from_millis(millis: u64) -> (d: Duration)
    ensures
        d == millis_duration(millis),
{
    Duration::from_millis(millis)
}

/// The number of colons in a text.
pub open spec fn colons(s: Chars) -> nat
    decreases s.len(),
{
    if s.len() == 0 {
        0
    } else {
        colons(s.drop_last()) + if s.last() == ':' {
            1nat
        } else {
            0
        }
    }
}

/// An address with a port: one that carries none gets the RMCP default port. A
/// bracketed IPv6 address carries a port behind its bracket, any other address
/// behind its only colon.
pub open spec fn with_port(address: Chars) -> Chars {
    let has_port = if address.len() > 0 && address[0] == '[' {
        contains(address, "]:"@)
    } else {
        colons(address) == 1
    };
    if has_port {
        address
    } else {
        address + ":623"@
    }
}

fn count_colons(s: &str) -> (n: usize)
    ensures
        n == colons(s@),
{
    let chars = chars_of(s);
    let mut n: usize = 0;
    let mut i: usize = 0;
    proof {
        assert(s@.take(0) =~= seq![]);
    }
    while i < chars.len()
        invariant
            i <= chars.len(),
            n <= i,
            chars@ == s@,
            n == colons(s@.take(i as int)),
        decreases chars.len() - i,
    {
        proof {
            assert(s@.take(i + 1).drop_last() =~= s@.take(i as int));
        }
        if chars[i] == ':' {
            n = n + 1;
        }
        i = i + 1;
    }
    proof {
        assert(s@.take(s@.len() as int) =~= s@);
    }
    n
}

/// Append `:623` to an address that does not already carry a port.
///
/// Handles bare IPv4/hostnames (`10.0.0.5`), already-ported addresses
/// (`10.0.0.5:623`), and bracketed IPv6 (`[::1]` / `[::1]:623`).
pub fn with_default_port(address: &str) -> (s: String)
    ensures
        s@ == with_port(address@),
{
    let bracketed = !address.is_empty() && address.get_char(0) == '[';
    let has_port = if bracketed {
        contains_text(address, "]:")
    } else {
        count_colons(address) == 1
    };
    if has_port {
        address.to_owned()
    } else {
        concat2(address, ":623")
    }
}

proof fn lemma_colons_concat(a: Chars, b: Chars)
    ensures
        colons(a + b) == colons(a) + colons(b),
    decreases b.len(),
{
    if b.len() == 0 {
        assert(a + b =~= a);
    } else {
        assert((a + b).drop_last() =~= a + b.drop_last());
        lemma_colons_concat(a, b.drop_last());
    }
}

/// A port is added at most once: giving the default port to an address that has
/// it already changes nothing, for host names and IPv4 addresses, and for
/// bracketed IPv6 addresses.
pub proof fn law_default_port_is_stable(address: Chars)
    requires
        if address.len() > 0 && address[0] == '[' {
            address.last() == ']' || contains(address, "]:"@)
        } else {
            colons(address) <= 1
        },
    ensures
        with_port(with_port(address)) == with_port(address),
{
    let ported = address + ":623"@;
    reveal_strlit(":623");
    reveal_strlit("]:");
    lemma_colons_concat(address, ":623"@);
    assert(colons(":623"@) == 1) by {
        let s = ":623"@;
        reveal_with_fuel(colons, 5);
        assert(s.drop_last().drop_last().drop_last() =~= seq![':']);
        assert(s.drop_last().drop_last().drop_last().drop_last() =~= seq![]);
    }
    if address.len() > 0 && address[0] == '[' {
        if with_port(address) == ported && address.last() == ']' {
            let i = address.len() - 1;
            assert(ported.subrange(i, i + 2) =~= "]:"@);
            assert(crate::text::occurs_at(ported, "]:"@, i));
        }
    }
}

/// The parts of a `--host` argument, or why it is rejected.
pub open spec fn host_target(spec_text: Chars) -> Result<TargetView, Chars> {
    let at = first_index(spec_text, '@');
    let creds = spec_text.take(at);
    let colon = first_index(creds, ':');
    if at == spec_text.len() {
        Err("invalid --host: expected `user:password@host[:port]`"@)
    } else if colon == creds.len() {
        Err("invalid --host: missing password (expected `user:password@host`)"@)
    } else if at + 1 == spec_text.len() {
        Err("invalid --host: empty address"@)
    } else {
        Ok(
            TargetView::Lan {
                address: with_port(spec_text.skip(at + 1)),
                username: creds.take(colon),
                password: creds.skip(colon + 1),
            },
        )
    }
}

impl ConnOpts {
    pub fn timeout(&self) -> (d: Duration)
        ensures
            d == millis_duration(self.timeout_ms),
    {
        duration_from_millis(self.timeout_ms)
    }

    /// Resolve the connection target from the provided options.
    pub fn target(&self) -> (r: Result<Target, String>)
        ensures
            match (self.host, r) {
                (None, Ok(target)) => target@ == TargetView::Device(self.device@),
                (None, Err(_)) => false,
                (Some(host), Ok(target)) => host_target(host@) == Ok::<TargetView, Chars>(target@),
                (Some(host), Err(e)) => host_target(host@) == Err::<TargetView, Chars>(e@),
            },
    {
        let host = match &self.host {
            None => {
                return Ok(Target::Device(self.device.clone()));
            }
            Some(host) => host,
        };
        let chars = chars_of(host.as_str());
        let n: usize = chars.len();
        let at: usize = find_char(chars.as_slice(), '@');
        if at == n {
            return Err("invalid --host: expected `user:password@host[:port]`".to_owned());
        }
        let creds = copy_chars(chars.as_slice(), 0, at);
        proof {
            assert(creds@ =~= host@.take(at as int));
        }
        let colon: usize = find_char(creds.as_slice(), ':');
        if colon == creds.len() {
            return Err(
                "invalid --host: missing password (expected `user:password@host`)".to_owned(),
            );
        }
        if at + 1 == n {
            return Err("invalid --host: empty address".to_owned());
        }
        let address = text_of(copy_chars(chars.as_slice(), at + 1, n).as_slice());
        let username = text_of(copy_chars(creds.as_slice(), 0, colon).as_slice());
        let password = text_of(copy_chars(creds.as_slice(), colon + 1, creds.len()).as_slice());
        proof {
            assert(address@ =~= host@.skip(at + 1));
            assert(username@ =~= creds@.take(colon as int));
            assert(password@ =~= creds@.skip(colon + 1));
        }
        Ok(Target::Lan { address: with_default_port(address.as_str()), username, password })
    }
}

// ---------------------------------------------------------------------
// Values of arguments
// ---------------------------------------------------------------------

/// Whether a text starts with `0x` or `0X`.
pub open spec fn is_hex_literal(s: Chars) -> bool {
    s.len() >= 2 && s[0] == '0' && (s[1] == 'x' || s[1] == 'X')
}

/// The number that a text writes in decimal, or in hexadecimal behind `0x`, if
/// it is at most `max`.
pub open spec fn literal(s: Chars, max: nat) -> Option<nat> {
    if is_hex_literal(s) {
        unsigned(s.skip(2), true, max)
    } else {
        unsigned(s, false, max)
    }
}

/// A record ID reads back as it is shown, so that what `sel` lists can be given
/// to `sel delete`.
pub proof fn law_shown_ids_read_back(id: u16)
    ensures
        literal("0x"@ + hex(id as nat, 4), 0xFFFF) == Some(id as nat),
{
    let digits = hex(id as nat, 4);
    reveal_strlit("0x");
    lemma_hex_reads_back(id as nat, 4);
    assert(("0x"@ + digits).skip(2) =~= digits);
    assert(digit_worth(digits[0], true) is Some);
}

fn parse_literal(value: &str, max: u64) -> (r: Option<u64>)
    ensures
        match r {
            Some(v) => literal(value@, max as nat) == Some(v as nat) && v <= max,
            None => literal(value@, max as nat) is None,
        },
{
    let chars = chars_of(value);
    if chars.len() >= 2 && chars[0] == '0' && (chars[1] == 'x' || chars[1] == 'X') {
        let rest = text_of(copy_chars(chars.as_slice(), 2, chars.len()).as_slice());
        proof {
            assert(rest@ =~= value@.skip(2));
        }
        parse_unsigned(rest.as_str(), true, max)
    } else {
        parse_unsigned(value, false, max)
    }
}

/// Reads a record ID, in decimal or hexadecimal (for example `0x003A`).
pub fn parse_u16(value: &str) -> (r: Result<u16, String>)
    ensures
        match r {
            Ok(n) => literal(value@, 0xFFFF) == Some(n as nat),
            Err(e) => literal(value@, 0xFFFF) is None && e@ == "invalid record ID '"@ + value@
                + "'"@,
        },
{
    match parse_literal(value, 0xFFFF) {
        Some(n) => Ok(n as u16),
        None => Err(concat3("invalid record ID '", value, "'")),
    }
}

/// Reads a byte of a raw request, in decimal or hexadecimal.
pub fn parse_byte(value: &str) -> (r: Result<u8, String>)
    ensures
        match r {
            Ok(n) => literal(value@, 0xFF) == Some(n as nat),
            Err(e) => literal(value@, 0xFF) is None && e@ == "invalid byte '"@ + value@ + "'"@,
        },
{
    match parse_literal(value, 0xFF) {
        Some(n) => Ok(n as u8),
        None => Err(concat3("invalid byte '", value, "'")),
    }
}

/// The count that a text writes, if it is not zero.
pub open spec fn count_of(value: Chars) -> Option<nat> {
    match unsigned(value, false, usize::MAX as nat) {
        Some(n) if n > 0 => Some(n),
        _ => None,
    }
}

/// The user ID that a text writes.
pub open spec fn user_id_of(value: Chars) -> Option<nat> {
    match unsigned(value, false, 255) {
        Some(n) if 1 <= n <= 63 => Some(n),
        _ => None,
    }
}

/// Reads a count that is not zero.
pub fn parse_positive_usize(value: &str) -> (r: Result<usize, String>)
    ensures
        match r {
            Ok(n) => count_of(value@) == Some(n as nat),
            Err(_) => count_of(value@) is None,
        },
        match r {
            Ok(n) => n > 0 && unsigned(value@, false, usize::MAX as nat) == Some(n as nat),
            Err(e) => match unsigned(value@, false, usize::MAX as nat) {
                Some(n) => n == 0 && e@ == "value must be greater than zero"@,
                None => e@ == "invalid positive integer '"@ + value@ + "'"@,
            },
        },
{
    match parse_unsigned(value, false, usize::MAX as u64) {
        None => Err(concat3("invalid positive integer '", value, "'")),
        Some(n) => {
            if n == 0 {
                Err("value must be greater than zero".to_owned())
            } else {
                Ok(n as usize)
            }
        }
    }
}

/// Reads a user ID, 1 to 63.
pub fn parse_user_id(value: &str) -> (r: Result<u8, String>)
    ensures
        match r {
            Ok(id) => user_id_of(value@) == Some(id as nat),
            Err(_) => user_id_of(value@) is None,
        },
        match r {
            Ok(id) => 1 <= id <= 63 && unsigned(value@, false, 255) == Some(id as nat),
            Err(e) => match unsigned(value@, false, 255) {
                Some(n) => !(1 <= n <= 63) && e@ == "user ID must be between 1 and 63"@,
                None => e@ == "invalid user ID '"@ + value@ + "'"@,
            },
        },
{
    match parse_unsigned(value, false, 255) {
        None => Err(concat3("invalid user ID '", value, "'")),
        Some(n) => {
            if 1 <= n && n <= 63 {
                Ok(n as u8)
            } else {
                Err("user ID must be between 1 and 63".to_owned())
            }
        }
    }
}

// ---------------------------------------------------------------------
// Arguments of the commands
// ---------------------------------------------------------------------

/// Arguments of `lan show`.
#[derive(Clone, Copy, Debug, PartialEq, Eq, Structural)]
pub struct LanShowArgs {
    /// Show only this LAN channel.
    pub channel: Option<u8>,
}

/// Arguments of `lan set`.
pub struct LanSetArgs {
    /// LAN channel number to configure.
    pub channel: u8,
    /// Address source: `static` or `dhcp`.
    pub source: Option<String>,
    /// Static IPv4 address.
    pub ip: Option<String>,
    /// Subnet mask.
    pub netmask: Option<String>,
    /// Default gateway address.
    pub gateway: Option<String>,
    /// Default gateway MAC address.
    pub gateway_mac: Option<String>,
    /// 802.1Q VLAN ID (1-4094); 0 disables VLAN tagging.
    pub vlan_id: Option<u16>,
    /// 802.1Q VLAN priority (0-7).
    pub vlan_priority: Option<u8>,
    /// Apply changes without the confirmation prompt.
    pub yes: bool,
}

/// What `lan` does; showing all channels when nothing is said.
pub enum LanAction {
    Show(LanShowArgs),
    Configure(LanSetArgs),
}

/// The devices that can be selected for booting.
#[derive(Clone, Copy, Debug, PartialEq, Eq, Structural)]
pub enum BootDevice {
    Pxe,
    Disk,
    Optical,
    Bios,
}

/// What `boot` does.
#[derive(Clone, Copy, Debug, PartialEq, Eq, Structural)]
pub enum BootAction {
    /// Show the current boot override flags (default).
    Show,
    /// Set a boot-device override.
    Override { boot_device: BootDevice, persistent: bool, uefi: bool, yes: bool },
    /// Clear the active boot override.
    Clear,
}

/// Arguments of `boot`.
pub struct BootArgs {
    pub action: Option<BootAction>,
}

/// What `bmc` does.
#[derive(Clone, Copy, Debug, PartialEq, Eq, Structural)]
pub enum BmcAction {
    /// Restart the BMC. The host keeps running, but the BMC (and this
    /// connection) goes offline for a minute or two.
    Reset { warm: bool, yes: bool },
    /// Report the BMC self test result.
    Selftest,
}

/// Arguments of `bmc`.
pub struct BmcArgs {
    pub action: BmcAction,
}

/// What `power` does.
#[derive(Clone, Copy, Debug, PartialEq, Eq, Structural)]
pub enum PowerAction {
    /// Show current power state (default).
    Status,
    /// Power on.
    On,
    /// Hard power off.
    Off,
    /// Power cycle (off, then on).
    Cycle,
    /// Hard reset.
    Reset,
    /// Graceful (ACPI) shutdown request.
    Soft,
    /// Pulse a diagnostic interrupt (NMI).
    Diag,
}

/// Arguments of `power`.
pub struct PowerArgs {
    pub action: Option<PowerAction>,
}

/// What `identify` does.
#[derive(Clone, Copy, Debug, PartialEq, Eq, Structural)]
pub enum IdentifyAction {
    /// Blink the LED for a number of seconds (default).
    On { seconds: u8 },
    /// Keep the LED on until explicitly turned off.
    Force,
    /// Turn the LED off.
    Off,
}

/// Arguments of `identify`.
pub struct IdentifyArgs {
    pub action: Option<IdentifyAction>,
}

/// Arguments of `lan`.
pub struct LanArgs {
    pub action: Option<LanAction>,
}

/// The privilege levels that a user can have on a channel.
#[derive(Clone, Copy, Debug, PartialEq, Eq, Structural)]
pub enum UserPrivilege {
    Callback,
    User,
    Operator,
    Administrator,
    Oem,
    NoAccess,
}

/// What `user` does.
pub enum UserAction {
    /// List users and their access on a channel.
    List { channel: u8 },
    /// Enable a user ID.
    Enable { user_id: u8, yes: bool },
    /// Disable a user ID.
    Disable { user_id: u8, yes: bool },
    /// Set a user's maximum privilege on a channel.
    Privilege { user_id: u8, level: UserPrivilege, channel: u8, yes: bool },
    /// Set a user's login name.
    Name { user_id: u8, name: String, yes: bool },
    /// Rotate a user's password without placing it on the command line.
    Password { user_id: u8, password_file: Option<String>, yes: bool },
}

/// Arguments of `user`.
pub struct UserArgs {
    pub action: UserAction,
}

/// Arguments of `inventory`.
pub struct InventoryArgs {
    /// Read only this logical FRU device ID.
    pub fru_id: Option<u8>,
    /// Export the selected FRU's raw image to this file.
    pub raw: Option<String>,
}

/// A health state to select sensors by.
#[derive(Clone, Copy, Debug, PartialEq, Eq, Structural)]
pub enum SensorState {
    Okay,
    Warn,
    Critical,
    Unknown,
}

/// Arguments of `sensors`.
pub struct SensorsArgs {
    /// Only show sensors whose type name contains one of these strings.
    pub types: Vec<String>,
    /// Only show sensors whose name contains one of these strings.
    pub name: Vec<String>,
    /// Only show sensors with one of these health states.
    pub state: Vec<SensorState>,
    /// Also list discrete (non-analog) sensors.
    pub all: bool,
    /// Display configured threshold values for analog sensors.
    pub thresholds: bool,
    /// Refresh readings every N seconds until interrupted.
    pub watch: Option<u64>,
    /// Show individual sensor read errors.
    pub verbose: bool,
}

/// The severity of an event.
#[derive(Clone, Copy, Debug, PartialEq, Eq, Structural)]
pub enum SelSeverity {
    Normal,
    Warning,
    Critical,
    Unknown,
}

/// What `sel` does.
pub enum SelAction {
    /// List SEL entries (default).
    List,
    /// Show SEL summary information.
    Info,
    /// Erase all SEL entries.
    Clear { yes: bool },
    /// Delete one SEL entry (when supported by the BMC).
    Delete { record_id: u16, yes: bool },
    /// Ask a Fujitsu controller to translate its own records.
    Decode { record_ids: Vec<u16>, debug: bool },
}

/// Arguments of `sel`.
pub struct SelArgs {
    pub action: Option<SelAction>,
    /// Show every OEM record as a raw hex dump instead of reassembling
    /// multi-part OEM text messages into a single row.
    pub raw: bool,
    /// Only show entries at or after this RFC 3339 or Unix timestamp.
    pub since: Option<String>,
    /// Only show entries at or before this RFC 3339 or Unix timestamp.
    pub until: Option<String>,
    /// Only show entries whose sensor name/type contains this string.
    pub sensor: Option<String>,
    /// Only show entries with the inferred severity.
    pub severity: Option<SelSeverity>,
    /// Show at most the newest N matching entries.
    pub limit: Option<usize>,
    /// Keep polling and print newly added matching entries.
    pub follow: bool,
    /// Use local decoding only, without vendor queries.
    pub no_oem_decode: bool,
}

/// Arguments of `raw`.
pub struct RawArgs {
    pub netfn: u8,
    pub command: u8,
    pub data: Vec<u8>,
    /// Skip the confirmation prompt.
    pub yes: bool,
}

} // verus!
