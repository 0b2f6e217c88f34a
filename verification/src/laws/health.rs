//! Sensors, and the reports on the health of a system.

use vstd::prelude::*;

use crate::cli::{SensorState, SensorsArgs};
use crate::cmd::power::{power_lines, power_text, with_faults};
use crate::cmd::sensor_run::{is_analog, SweepView};
use crate::cmd::sensors::{
    analog_of, asserted_texts, discrete_of, label_of, raw_reading, raw_thresholds, state_matches,
    state_status, state_text, text_matches, threshold_parts, thresholds_of, worse, worst_of,
    Counts,
};
use crate::cmd::status::{capability_names, sensors_line, RECENT_EVENTS};
use crate::cmd::ChassisStatus;
use crate::conn::{Recipient, RequestView, ResponseView};
use crate::dialog::DeviceId;
use crate::laws::{answer, bit, byte, lemma_bits, lemma_mask_bit};
use crate::sdr::EventReadingTypeCodes;
use crate::text::{contains, joined, lower, texts, Chars};
use crate::ui::{greened, kv_line, reddened, yellowed, Status};

verus! {

/// Whether the status bits of a threshold sensor say that a critical or
/// non-recoverable threshold was passed, lower or upper. The bits are, from the
/// lowest: lower non-critical, lower critical, lower non-recoverable, upper
/// non-critical, upper critical, upper non-recoverable.
pub open spec fn passed_critical(b: u8) -> bool {
    bit(b, 1) || bit(b, 2) || bit(b, 4) || bit(b, 5)
}

/// Whether they say that a non-critical threshold was passed.
pub open spec fn passed_non_critical(b: u8) -> bool {
    bit(b, 0) || bit(b, 3)
}

/// The health of a threshold sensor follows from the thresholds that it has
/// passed, as the third byte says, which may be missing: critical with any
/// critical or non-recoverable one, a warning with only non-critical ones, fine
/// with none. A reading that is unavailable (bit 5 of the second byte) says
/// nothing.
pub proof fn law_health_follows_thresholds(data: Seq<u8>, shown: Option<Chars>)
    requires
        data.len() >= 2,
    ensures
        ({
            let health = analog_of(answer(data), shown)->Ok_0.1;
            let b = byte(data, 2);
            &&& analog_of(answer(data), shown) is Ok
            &&& bit(data[1], 5) <==> health == Status::Unknown
            &&& !bit(data[1], 5) ==> (health == Status::Crit <==> passed_critical(b))
            &&& !bit(data[1], 5) ==> (health == Status::Warn <==> passed_non_critical(b)
                && !passed_critical(b))
            &&& !bit(data[1], 5) ==> (health == Status::Okay <==> !passed_non_critical(b)
                && !passed_critical(b))
        }),
{
    let b = byte(data, 2);
    lemma_bits(data[1]);
    lemma_bits(b);
    assert({
        &&& (b & 0x36 != 0) == (b & 0x02 != 0 || b & 0x04 != 0 || b & 0x10 != 0 || b & 0x20 != 0)
        &&& (b & 0x09 != 0) == (b & 0x01 != 0 || b & 0x08 != 0)
    }) by (bit_vector);
}

/// Lower and upper thresholds weigh the same: exchanging the three lower status
/// bits with the three upper ones does not change the health.
pub proof fn law_health_is_symmetric(data: Seq<u8>, c: u8, shown: Option<Chars>)
    requires
        data.len() >= 3,
        bit(c, 0) == bit(data[2], 3),
        bit(c, 1) == bit(data[2], 4),
        bit(c, 2) == bit(data[2], 5),
        bit(c, 3) == bit(data[2], 0),
        bit(c, 4) == bit(data[2], 1),
        bit(c, 5) == bit(data[2], 2),
    ensures
        analog_of(answer(data), shown) == analog_of(answer(data.update(2, c)), shown),
{
    law_health_follows_thresholds(data, shown);
    law_health_follows_thresholds(data.update(2, c), shown);
    lemma_bits(data[1]);
}

/// What is shown of a threshold sensor is the conversion of its first byte, or
/// that byte where it has none; an unavailable reading is not shown.
pub proof fn law_reading_is_the_first_byte(data: Seq<u8>, shown: Option<Chars>)
    requires
        data.len() >= 2,
    ensures
        raw_reading(answer(data)) == if bit(data[1], 5) {
            None
        } else {
            Some(data[0])
        },
        ({
            let text = analog_of(answer(data), shown)->Ok_0.0;
            &&& bit(data[1], 5) ==> text == "n/a"@
            &&& !bit(data[1], 5) && shown is Some ==> text == shown->0
            &&& !bit(data[1], 5) && shown is None ==> text == "raw 0x"@ + crate::text::hex(
                data[0] as nat,
                2,
            )
        }),
{
    lemma_bits(data[1]);
}

/// A reply that is refused or too short gives no reading, no states and no
/// thresholds.
pub proof fn law_refused_readings(
    response: ResponseView,
    shown: Option<Chars>,
    limits: Seq<Option<Chars>>,
    ty: u8,
    code: EventReadingTypeCodes,
)
    ensures
        analog_of(Ok(response), shown) is Ok <==> response.cc == 0 && response.data.len() >= 2,
        discrete_of(Ok(response), ty, code) is Ok <==> response.cc == 0 && response.data.len() >= 2,
        thresholds_of(Ok(response), limits) is Ok <==> response.cc == 0 && response.data.len() >= 7,
        raw_reading(Ok(response)) is Some ==> response.cc == 0,
        raw_thresholds(Ok(response)) is Some <==> response.cc == 0 && response.data.len() >= 7,
{
}

/// Trouble is not hidden: of two healths the worse one counts, critical before a
/// warning, a warning before an unknown state, and that before a good one.
pub proof fn law_worse_health_wins(a: Status)
    ensures
        worse(a, Status::Crit) == Status::Crit && worse(Status::Crit, a) == Status::Crit,
        a != Status::Crit ==> worse(a, Status::Warn) == Status::Warn && worse(Status::Warn, a)
            == Status::Warn,
        a != Status::Crit && a != Status::Warn ==> worse(a, Status::Unknown) == Status::Unknown
            && worse(Status::Unknown, a) == Status::Unknown,
{
}

/// Whether a text says a word, in any case.
pub open spec fn says(text: Chars, word: Chars) -> bool {
    contains(lower(text), word)
}

/// Whether the description of a state calls for attention.
pub open spec fn calls_for_attention(text: Chars) -> bool {
    says(text, "predictive failure"@) || says(text, "warning"@) || says(text, "degraded"@) || says(
        text,
        "not present"@,
    ) || says(text, "absent"@)
}

/// Whether the description of a state speaks of trouble.
pub open spec fn speaks_of_trouble(text: Chars) -> bool {
    says(text, "failure"@) || says(text, "failed"@) || says(text, "fault"@) || says(
        text,
        "critical"@,
    ) || says(text, "non-recoverable"@) || says(text, "nonrecoverable"@) || says(text, "lost"@)
        || says(text, "unavailable"@) || says(text, "thermal trip"@) || says(
        text,
        "limit exceeded"@,
    ) || says(text, "uncorrectable"@)
}

/// Whether the description of a state is good news.
pub open spec fn is_good_news(text: Chars) -> bool {
    says(text, "present"@) || says(text, "enabled"@) || says(text, "fully redundant"@) || says(
        text,
        "power on"@,
    ) || says(text, "running"@)
}

/// An asserted state is critical when its description speaks of trouble and does
/// not only call for attention; it is fine when it is good news and nothing
/// else; in every other case it is a warning.
pub proof fn law_state_health(text: Chars)
    ensures
        state_status(text) == Status::Crit <==> speaks_of_trouble(text) && !calls_for_attention(
            text,
        ),
        state_status(text) == Status::Okay <==> is_good_news(text) && !speaks_of_trouble(text)
            && !calls_for_attention(text),
        state_status(text) != Status::Unknown,
{
    let t = lower(text);
    let w = crate::cmd::sensors::warn_words();
    let c = crate::cmd::sensors::crit_words();
    let o = crate::cmd::sensors::okay_words();
    assert(crate::text::contains_any(t, w) == calls_for_attention(text)) by {
        assert(w[0] == "predictive failure"@ && w[1] == "warning"@ && w[2] == "degraded"@ && w[3]
            == "not present"@ && w[4] == "absent"@);
    }
    assert(crate::text::contains_any(t, c) == speaks_of_trouble(text)) by {
        assert(c[0] == "failure"@ && c[1] == "failed"@ && c[2] == "fault"@ && c[3] == "critical"@
            && c[4] == "non-recoverable"@ && c[5] == "nonrecoverable"@ && c[6] == "lost"@ && c[7]
            == "unavailable"@ && c[8] == "thermal trip"@ && c[9] == "limit exceeded"@ && c[10]
            == "uncorrectable"@);
    }
    assert(crate::text::contains_any(t, o) == is_good_news(text)) by {
        assert(o[0] == "present"@ && o[1] == "enabled"@ && o[2] == "fully redundant"@ && o[3]
            == "power on"@ && o[4] == "running"@);
    }
}

/// The states of a discrete sensor are bits 0 to 14 of the third and fourth
/// byte: each set bit adds its text and no other does.
pub proof fn law_states_are_the_set_bits(ty: u8, code: EventReadingTypeCodes, mask: u16, n: int)
    requires
        0 <= n < 15,
    ensures
        asserted_texts(ty, code, mask, 0) == Seq::<Chars>::empty(),
        (mask >> (n as u16)) & 1 == 1 ==> asserted_texts(ty, code, mask, n + 1) == asserted_texts(
            ty,
            code,
            mask,
            n,
        ).push(state_text(ty, code, n as u8)),
        (mask >> (n as u16)) & 1 == 0 ==> asserted_texts(ty, code, mask, n + 1) == asserted_texts(
            ty,
            code,
            mask,
            n,
        ),
{
    let i = n as u16;
    assert(((mask >> i) & 1 == 1) == (mask & (1u16 << i) != 0)) by (bit_vector)
        requires
            i < 15,
    ;
    assert((mask >> i) & 1 == 0 || (mask >> i) & 1 == 1) by (bit_vector);
}

/// A discrete sensor is as bad as the worst of its states, and no worse than
/// one of them.
pub proof fn law_sensor_is_as_bad_as_its_worst_state(states: Seq<Chars>, i: int)
    requires
        0 <= i < states.len(),
    ensures
        worse(worst_of(states), state_status(states[i])) == worst_of(states),
        worst_of(states) == Status::Okay || exists|k: int|
            0 <= k < states.len() && state_status(#[trigger] states[k]) == worst_of(states),
    decreases states.len(),
{
    let before = states.drop_last();
    if before.len() > 0 {
        let j = if i < before.len() {
            i
        } else {
            0
        };
        law_sensor_is_as_bad_as_its_worst_state(before, j);
        if worst_of(before) != Status::Okay {
            let k = choose|k: int|
                0 <= k < before.len() && state_status(#[trigger] before[k]) == worst_of(before);
            assert(states[k] == before[k]);
        }
        assert(i < before.len() ==> before[i] == states[i]);
    }
    assert(state_status(states[states.len() - 1]) == state_status(states.last()));
}

/// A discrete reading: nothing asserted is fine, an unavailable one (bit 5 of the
/// second byte) is unknown, and so is a state that only the vendor knows; the
/// fifteen state bits are the third byte and the lower seven bits of the fourth.
pub proof fn law_discrete_reading(
    data: Seq<u8>,
    ty: u8,
    code: EventReadingTypeCodes,
)
    requires
        data.len() >= 2,
    ensures
        ({
            let reading = discrete_of(answer(data), ty, code);
            let mask = (byte(data, 2) + 256 * (byte(data, 3) % 128)) as u16;
            let states = asserted_texts(ty, code, mask, 15);
            &&& reading is Ok
            &&& bit(data[1], 5) ==> reading->Ok_0.0 == Status::Unknown
            &&& !bit(data[1], 5) && mask == 0 ==> reading->Ok_0.0 == Status::Okay
            &&& !bit(data[1], 5) && mask != 0 && (code is Unspecified || code is Oem
                || code is Reserved) ==> reading->Ok_0.0 == Status::Unknown
            &&& !bit(data[1], 5) && mask != 0 && !(code is Unspecified || code is Oem
                || code is Reserved) ==> reading->Ok_0 == (
                worst_of(states),
                joined(states, ", "@) + " (raw 0x"@ + crate::text::hex(mask as nat, 4) + ")"@,
            )
        }),
{
    lemma_bits(data[1]);
    let high = byte(data, 3);
    assert(high & 0x7F == high % 128) by (bit_vector);
}

/// Each of the six thresholds is shown under its own label, in the order of its
/// status bit, exactly when it is configured and its value converts. The values
/// stand in the order of the bits, behind the mask.
pub proof fn law_thresholds_are_labelled(
    mask: u8,
    values: Seq<u8>,
    rest: Seq<u8>,
    shown: Seq<Option<Chars>>,
    i: int,
)
    requires
        0 <= i < 6,
        shown.len() == 6,
        values.len() == 6,
    ensures
        raw_thresholds(answer(seq![mask] + values + rest)) == Some(values),
        ({
            let label = seq!["LNC="@, "LC="@, "LNR="@, "UNC="@, "UC="@, "UNR="@][i];
            let before = threshold_parts(mask, shown, i);
            let after = threshold_parts(mask, shown, i + 1);
            if bit(mask, i as u8) && shown[i] is Some {
                after == before.push(label + shown[i]->0)
            } else {
                after == before
            }
        }),
        threshold_parts(mask, shown, 0) == Seq::<Chars>::empty(),
        thresholds_of(answer(seq![mask] + values + rest), shown) == Ok::<Chars, Chars>(
            if threshold_parts(mask, shown, 6).len() == 0 {
                "none configured"@
            } else {
                joined(threshold_parts(mask, shown, 6), "  "@)
            },
        ),
{
    assert((seq![mask] + values + rest).subrange(1, 7) =~= values);
    lemma_mask_bit(mask, i as u8);
    let label = seq!["LNC="@, "LC="@, "LNR="@, "UNC="@, "UC="@, "UNR="@][i];
    reveal_strlit("LNC");
    reveal_strlit("LC");
    reveal_strlit("LNR");
    reveal_strlit("UNC");
    reveal_strlit("UC");
    reveal_strlit("UNR");
    reveal_strlit("=");
    reveal_strlit("LNC=");
    reveal_strlit("LC=");
    reveal_strlit("LNR=");
    reveal_strlit("UNC=");
    reveal_strlit("UC=");
    reveal_strlit("UNR=");
    assert(crate::cmd::sensors::threshold_label(i) + "="@ =~= label);
}

/// A sensor is asked by its number, at the controller that owns it: Get Sensor
/// Reading is Sensor/Event (network function 4) command 0x2D, Get Sensor
/// Thresholds 0x27. A sweep asks for the thresholds after the reading.
pub proof fn law_sensor_requests(s: SweepView)
    requires
        !s.is_over(),
    ensures
        s.request() == Some(
            RequestView {
                netfn: 4,
                cmd: if s.pending is Some {
                    0x27
                } else {
                    0x2D
                },
                data: seq![s.sensor().key.sensor_number],
                recipient: Recipient::BmcOrIpmb {
                    address: s.sensor().key.owner_id,
                    channel: s.sensor().key.owner_channel,
                    lun: s.sensor().key.owner_lun,
                },
            },
        ),
{
}

/// Counting a health raises its own count by one and no other.
pub proof fn law_counting(c: Counts, status: Status)
    requires
        c.ok < usize::MAX,
        c.warn < usize::MAX,
        c.crit < usize::MAX,
        c.unknown < usize::MAX,
    ensures
        c.with(status).ok == c.ok + (if status == Status::Okay {
            1int
        } else {
            0
        }),
        c.with(status).warn == c.warn + (if status == Status::Warn {
            1int
        } else {
            0
        }),
        c.with(status).crit == c.crit + (if status == Status::Crit {
            1int
        } else {
            0
        }),
        c.with(status).unknown == c.unknown + (if status == Status::Unknown {
            1int
        } else {
            0
        }),
{
}

/// A sweep counts the health that the reply of each sensor says, unknown if it
/// says none, whether or not that health is asked for.
pub proof fn law_sweep_counts_health(
    s: SweepView,
    args: SensorsArgs,
    color: bool,
    reply: Result<ResponseView, Chars>,
    shown: Seq<Option<Chars>>,
)
    requires
        !s.is_over(),
        s.pending is None,
    ensures
        ({
            let analog = analog_of(reply, shown[0]);
            let discrete = discrete_of(reply, s.sensor().ty, s.sensor().event_code);
            let health = if is_analog(s.record()) {
                if analog is Ok {
                    analog->Ok_0.1
                } else {
                    Status::Unknown
                }
            } else if discrete is Ok {
                discrete->Ok_0.0
            } else {
                Status::Unknown
            };
            let after = s.next(args, color, reply, shown);
            let wanted = state_matches(args, health);
            &&& after.counts == s.counts.with(health)
            &&& is_analog(s.record()) && wanted && !args.thresholds ==> after.analog.rows.len()
                == s.analog.rows.len() + 1
            &&& is_analog(s.record()) && !wanted ==> after.analog == s.analog && after.pending is None
            &&& is_analog(s.record()) && wanted && args.thresholds ==> after.pending is Some
            &&& is_analog(s.record()) ==> after.discrete == s.discrete && after.hidden == s.hidden
            &&& !is_analog(s.record()) ==> after.analog == s.analog
            &&& !is_analog(s.record()) ==> after.hidden == s.hidden + (if wanted {
                1int
            } else {
                0
            })
            &&& !is_analog(s.record()) ==> after.discrete.rows.len() == s.discrete.rows.len() + (
            if wanted && args.all {
                1int
            } else {
                0
            })
        }),
{
}

/// Selecting by health keeps the sensors whose health is one of those named.
pub proof fn law_state_filter(args: SensorsArgs, status: Status)
    ensures
        args.state@.len() > 0 ==> (state_matches(args, status) <==> ({
            ||| status == Status::Okay && args.state@.contains(SensorState::Okay)
            ||| status == Status::Warn && args.state@.contains(SensorState::Warn)
            ||| status == Status::Crit && args.state@.contains(SensorState::Critical)
            ||| status == Status::Unknown && args.state@.contains(SensorState::Unknown)
        })),
{
    let wanted = match status {
        Status::Okay => SensorState::Okay,
        Status::Warn => SensorState::Warn,
        Status::Crit => SensorState::Critical,
        Status::Unknown => SensorState::Unknown,
    };
    if args.state@.contains(wanted) {
        let i = choose|i: int| 0 <= i < args.state@.len() && args.state@[i] == wanted;
        assert(crate::cmd::sensors::state_is(args.state@[i], status));
    }
}

/// Selecting by type and name keeps a sensor exactly when its type contains one
/// of the types and its name one of the names, in any case; an empty list does
/// not restrict.
pub proof fn law_text_filter(args: SensorsArgs, kind: Chars, name: Chars)
    ensures
        text_matches(args, kind, name) <==> ({
            &&& args.types@.len() == 0 || exists|i: int|
                0 <= i < args.types@.len() && contains(lower(kind), lower(#[trigger] args.types@[i]@))
            &&& args.name@.len() == 0 || exists|i: int|
                0 <= i < args.name@.len() && contains(lower(name), lower(#[trigger] args.name@[i]@))
        }),
{
    let t = texts(args.types@);
    let n = texts(args.name@);
    assert(forall|i: int| 0 <= i < t.len() ==> (#[trigger] t[i]) == args.types@[i]@);
    assert(forall|i: int| 0 <= i < n.len() ==> (#[trigger] n[i]) == args.name@[i]@);
    assert(forall|i: int| 0 <= i < t.len() ==> t[i] == (#[trigger] args.types@[i])@);
    assert(forall|i: int| 0 <= i < n.len() ==> n[i] == (#[trigger] args.name@[i])@);
}

/// The labels and colors of health: green for OK, yellow for WARN, red for CRIT,
/// dim for unknown.
pub proof fn law_health_labels()
    ensures
        label_of(Status::Okay) == "OK  "@,
        label_of(Status::Warn) == "WARN"@,
        label_of(Status::Crit) == "CRIT"@,
        label_of(Status::Unknown) == " -- "@,
        Status::Okay.spec_badge(true) == "\x1b[32m"@ + "OK  "@ + "\x1b[0m"@,
        Status::Warn.spec_badge(true) == "\x1b[33m"@ + "WARN"@ + "\x1b[0m"@,
        Status::Crit.spec_badge(true) == "\x1b[31m"@ + "CRIT"@ + "\x1b[0m"@,
        Status::Unknown.spec_badge(true) == "\x1b[2m"@ + " -- "@ + "\x1b[0m"@,
        forall|s: Status| #[trigger] s.spec_badge(false) == label_of(s),
{
    reveal_strlit("\x1b[");
    reveal_strlit("m");
    reveal_strlit("32");
    reveal_strlit("33");
    reveal_strlit("31");
    reveal_strlit("2");
    reveal_strlit("\x1b[32m");
    reveal_strlit("\x1b[33m");
    reveal_strlit("\x1b[31m");
    reveal_strlit("\x1b[2m");
    assert("\x1b["@ + "32"@ + "m"@ =~= "\x1b[32m"@);
    assert("\x1b["@ + "33"@ + "m"@ =~= "\x1b[33m"@);
    assert("\x1b["@ + "31"@ + "m"@ =~= "\x1b[31m"@);
    assert("\x1b["@ + "2"@ + "m"@ =~= "\x1b[2m"@);
}

/// The items whose flag is set, among the first `n`, in order.
pub open spec fn flagged(flags: Seq<bool>, items: Seq<Chars>, n: int) -> Seq<Chars>
    decreases n,
{
    if n <= 0 {
        seq![]
    } else if flags[n - 1] {
        flagged(flags, items, n - 1).push(items[n - 1])
    } else {
        flagged(flags, items, n - 1)
    }
}

/// The power report shows the state, the restore policy, and a line for each
/// fault that is there and for no other.
pub proof fn law_power_report(cs: ChassisStatus, color: bool, lines: Seq<Chars>, width: nat)
    ensures
        power_text(true, color) == greened("ON"@, color),
        power_text(false, color) == reddened("OFF"@, color),
        with_faults(lines, cs, width, color) == lines + flagged(
            seq![cs.power_fault, cs.power_overload, cs.cooling_fault, cs.intrusion],
            seq![
                kv_line("Power fault"@, reddened("yes"@, color), width, color),
                kv_line("Power overload"@, reddened("yes"@, color), width, color),
                kv_line("Cooling fault"@, reddened("yes"@, color), width, color),
                kv_line("Chassis intrusion"@, yellowed("detected"@, color), width, color),
            ],
            4,
        ),
        power_lines(cs, color).len() >= 6,
        power_lines(cs, color)[3] == kv_line("State"@, power_text(cs.power_on, color), 18, color),
        power_lines(cs, color)[4] == kv_line(
            "Restore policy"@,
            crate::cmd::policy_name(cs.restore_policy),
            18,
            color,
        ),
{
    reveal_with_fuel(flagged, 5);
    let flags = seq![cs.power_fault, cs.power_overload, cs.cooling_fault, cs.intrusion];
    let items = seq![
        kv_line("Power fault"@, reddened("yes"@, color), width, color),
        kv_line("Power overload"@, reddened("yes"@, color), width, color),
        kv_line("Cooling fault"@, reddened("yes"@, color), width, color),
        kv_line("Chassis intrusion"@, yellowed("detected"@, color), width, color),
    ];
    assert(with_faults(lines, cs, width, color) =~= lines + flagged(flags, items, 4));
}

/// The capabilities that are listed are those that the controller claims.
pub proof fn law_capabilities(device: DeviceId)
    ensures
        ({
            let flags = seq![
                device.sensor_device_support,
                device.sdr_repository_support,
                device.sel_device_support,
                device.fru_inventory_support,
                device.chassis_support,
                device.bridge_support,
            ];
            let names = seq![
                "Sensors"@,
                "SDR repository"@,
                "SEL"@,
                "FRU inventory"@,
                "Chassis"@,
                "Bridge"@,
            ];
            capability_names(device) == if flagged(flags, names, 6).len() == 0 {
                seq!["none reported"@]
            } else {
                flagged(flags, names, 6)
            }
        }),
{
    reveal_with_fuel(flagged, 7);
    let flags = seq![
        device.sensor_device_support,
        device.sdr_repository_support,
        device.sel_device_support,
        device.fru_inventory_support,
        device.chassis_support,
        device.bridge_support,
    ];
    let names = seq![
        "Sensors"@,
        "SDR repository"@,
        "SEL"@,
        "FRU inventory"@,
        "Chassis"@,
        "Bridge"@,
    ];
    assert(seq![].push("none reported"@) =~= seq!["none reported"@]);
}

/// The overview shows the four counts in order, red with any critical sensor,
/// else yellow with any warning, else green; and three recent critical events.
pub proof fn law_overview_of_sensors(c: Counts, color: bool)
    ensures
        RECENT_EVENTS == 3,
        c.sum() > 0 ==> sensors_line(c, color) == kv_line(
            "Sensors"@,
            ({
                let text = crate::text::dec(c.ok as nat) + " OK, "@ + crate::text::dec(
                    c.warn as nat,
                ) + " WARN, "@ + crate::text::dec(c.crit as nat) + " CRIT, "@ + crate::text::dec(
                    c.unknown as nat,
                ) + " unknown"@;
                if c.crit > 0 {
                    reddened(text, color)
                } else if c.warn > 0 {
                    yellowed(text, color)
                } else {
                    greened(text, color)
                }
            }),
            22,
            color,
        ),
{
}

} // verus!
