//! `bmc` — management-controller maintenance: Cold/Warm Reset (cmds
//! 0x02/0x03) and Get Self Test Results (cmd 0x04) on the App netfn.

use vstd::prelude::*;

use crate::bytes::{byte_at, byte_or_zero};
use crate::conn::{
    bmc_request, check, checked, completion, completion_text, concat2, concat3, reply_view,
    request_to_bmc, Reply, NETFN_APP,
};
use crate::dialog::{
    aborted, aborted_step, done, done_with, failed, failed_after, failed_step, quiet_step, quietly,
    Action, ActionView, Step, StepView,
};
use crate::text::{hex, hex_text, push_text, texts, Chars};
use crate::ui::{green, greened, red, reddened, yellow, yellowed};

verus! {

pub const CMD_COLD_RESET: u8 = 0x02;

pub const CMD_WARM_RESET: u8 = 0x03;

pub const CMD_GET_SELF_TEST_RESULTS: u8 = 0x04;

// ---------------------------------------------------------------------
// `bmc reset`
// ---------------------------------------------------------------------

pub open spec fn reset_kind(warm: bool) -> Chars {
    if warm {
        "warm"@
    } else {
        "cold"@
    }
}

fn kind_of(warm: bool) -> (s: &'static str)
    ensures
        s@ == reset_kind(warm),
{
    if warm {
        "warm"
    } else {
        "cold"
    }
}

pub open spec fn reset_sending(warm: bool) -> StepView {
    quietly(
        ActionView::Send(
            bmc_request(
                NETFN_APP,
                if warm {
                    CMD_WARM_RESET
                } else {
                    CMD_COLD_RESET
                },
                seq![],
            ),
        ),
    )
}

fn reset_send(warm: bool) -> (s: Step)
    ensures
        s@ == reset_sending(warm),
{
    let data: Vec<u8> = Vec::new();
    proof {
        assert(data@ =~= seq![]);
    }
    let command: u8 = if warm {
        CMD_WARM_RESET
    } else {
        CMD_COLD_RESET
    };
    quiet_step(Action::Send(request_to_bmc(NETFN_APP, command, data)))
}

/// Begins a reset: confirmed first unless `--yes` is given.
pub fn reset(warm: bool, yes: bool) -> (s: Step)
    ensures
        s@ == if yes {
            reset_sending(warm)
        } else {
            quietly(
                ActionView::Confirm(
                    "This will "@ + reset_kind(warm)
                        + "-reset the BMC. The host keeps running, but the BMC goes offline for a minute or two. Continue?"@,
                ),
            )
        },
{
    if yes {
        reset_send(warm)
    } else {
        quiet_step(
            Action::Confirm(
                concat3(
                    "This will ",
                    kind_of(warm),
                    "-reset the BMC. The host keeps running, but the BMC goes offline for a minute or two. Continue?",
                ),
            ),
        )
    }
}

/// Goes on after the question.
pub fn reset_answered(warm: bool, yes: bool) -> (s: Step)
    ensures
        s@ == if yes {
            reset_sending(warm)
        } else {
            aborted()
        },
{
    if yes {
        reset_send(warm)
    } else {
        aborted_step()
    }
}

/// Concludes a reset. Many BMCs reset before answering, so no response means
/// that it took effect.
pub fn reset_replied(warm: bool, reply: Reply, color: bool) -> (s: Step)
    ensures
        s@ == match reply_view(reply) {
            Ok(response) => if response.cc == 0 {
                done(
                    seq![
                        greened("OK:"@, color) + " "@ + reset_kind(warm)
                            + " reset issued; BMC is restarting"@,
                    ],
                )
            } else {
                failed(reset_kind(warm) + " reset rejected: "@ + completion(response.cc))
            },
            Err(e) => done(
                seq![
                    yellowed("note:"@, color) + " no response ("@ + e
                        + "); the BMC most likely reset before replying"@,
                ],
            ),
        },
{
    match reply {
        Ok(response) => {
            if response.cc == 0 {
                let mut line = concat3(green("OK:", color).as_str(), " ", kind_of(warm));
                line.append(" reset issued; BMC is restarting");
                done_with(line)
            } else {
                failed_step(
                    concat3(
                        kind_of(warm),
                        " reset rejected: ",
                        completion_text(response.cc).as_str(),
                    ),
                )
            }
        }
        Err(e) => {
            let mut line = concat3(
                yellow("note:", color).as_str(),
                " no response (",
                e.as_str(),
            );
            line.append("); the BMC most likely reset before replying");
            done_with(line)
        }
    }
}

// ---------------------------------------------------------------------
// `bmc selftest`
// ---------------------------------------------------------------------

/// The fault that bit `i` of the self-test detail byte stands for.
pub open spec fn fault_text(i: int) -> Chars {
    if i == 0 {
        "cannot access SEL device"@
    } else if i == 1 {
        "cannot access SDR repository"@
    } else if i == 2 {
        "cannot access BMC FRU device"@
    } else if i == 3 {
        "IPMB signal lines do not respond"@
    } else if i == 4 {
        "SDR repository is empty"@
    } else if i == 5 {
        "internal use area of BMC FRU corrupted"@
    } else if i == 6 {
        "controller update (boot block) firmware corrupted"@
    } else {
        "controller operational firmware corrupted"@
    }
}

/// One line for each fault below bit `n`, lowest first.
pub open spec fn fault_lines(detail: u8, n: int) -> Seq<Chars>
    decreases n,
{
    if n <= 0 {
        seq![]
    } else {
        let before = fault_lines(detail, n - 1);
        if detail & (1u8 << ((n - 1) as u8)) != 0 {
            before.push("  - "@ + fault_text(n - 1))
        } else {
            before
        }
    }
}

/// The step that asks for the self-test result.
pub fn selftest() -> (s: Step)
    ensures
        s@ == quietly(ActionView::Send(bmc_request(NETFN_APP, CMD_GET_SELF_TEST_RESULTS, seq![]))),
{
    let data: Vec<u8> = Vec::new();
    proof {
        assert(data@ =~= seq![]);
    }
    quiet_step(Action::Send(request_to_bmc(NETFN_APP, CMD_GET_SELF_TEST_RESULTS, data)))
}

/// What a self-test result means.
pub open spec fn selftest_step(result: u8, detail: u8, color: bool) -> StepView {
    if result == 0x55 {
        done(seq![greened("OK:"@, color) + " self test passed"@])
    } else if result == 0x56 {
        done(seq!["self test not implemented on this BMC"@])
    } else if result == 0x57 {
        failed_after(
            seq![reddened("FAIL:"@, color) + " self test found problems:"@] + fault_lines(detail, 8),
            "BMC self test failed"@,
        )
    } else if result == 0x58 {
        failed(
            "self test: fatal hardware error (device-specific code 0x"@ + hex(detail as nat, 2)
                + ")"@,
        )
    } else {
        failed(
            "self test: device-specific failure (0x"@ + hex(result as nat, 2) + " 0x"@ + hex(
                detail as nat,
                2,
            ) + ")"@,
        )
    }
}

fn faults(detail: u8, lines: Vec<String>) -> (r: Vec<String>)
    ensures
        texts(r@) == texts(lines@) + fault_lines(detail, 8),
{
    let names = [
        "cannot access SEL device",
        "cannot access SDR repository",
        "cannot access BMC FRU device",
        "IPMB signal lines do not respond",
        "SDR repository is empty",
        "internal use area of BMC FRU corrupted",
        "controller update (boot block) firmware corrupted",
        "controller operational firmware corrupted",
    ];
    let ghost head = texts(lines@);
    let mut r = lines;
    let mut bit: usize = 0;
    proof {
        assert(texts(r@) =~= head + fault_lines(detail, 0));
    }
    while bit < 8
        invariant
            bit <= 8,
            names@.len() == 8,
            forall|k: int| 0 <= k < 8 ==> (#[trigger] names@[k])@ == fault_text(k),
            texts(r@) == head + fault_lines(detail, bit as int),
        decreases 8 - bit,
    {
        let shift: u8 = bit as u8;
        if detail & (1u8 << shift) != 0 {
            push_text(&mut r, concat2("  - ", names[bit]));
        }
        proof {
            assert(texts(r@) =~= head + fault_lines(detail, bit + 1));
        }
        bit = bit + 1;
    }
    r
}

/// Concludes the self test; bytes that are missing count as zero.
pub fn selftest_replied(reply: Reply, color: bool) -> (s: Step)
    ensures
        s@ == match reply_view(reply) {
            Err(e) => failed("Get Self Test Results failed: "@ + e),
            Ok(response) => match checked(response.cc, "Get Self Test Results"@) {
                Err(e) => failed(e),
                Ok(_) => selftest_step(
                    byte_or_zero(response.data, 0),
                    byte_or_zero(response.data, 1),
                    color,
                ),
            },
        },
{
    let response = match reply {
        Err(e) => {
            return failed_step(concat2("Get Self Test Results failed: ", e.as_str()));
        }
        Ok(response) => response,
    };
    if let Err(e) = check(response.cc, "Get Self Test Results") {
        return failed_step(e);
    }
    let result: u8 = byte_at(response.data.as_slice(), 0);
    let detail: u8 = byte_at(response.data.as_slice(), 1);
    match result {
        0x55 => done_with(concat2(green("OK:", color).as_str(), " self test passed")),
        0x56 => done_with("self test not implemented on this BMC".to_owned()),
        0x57 => {
            let mut lines: Vec<String> = Vec::new();
            push_text(
                &mut lines,
                concat2(red("FAIL:", color).as_str(), " self test found problems:"),
            );
            proof {
                assert(texts(lines@) =~= seq![
                    reddened("FAIL:"@, color) + " self test found problems:"@,
                ]);
            }
            let lines = faults(detail, lines);
            Step { lines, action: Action::Finish(Err("BMC self test failed".to_owned())) }
        }
        0x58 => failed_step(
            concat3(
                "self test: fatal hardware error (device-specific code 0x",
                hex_text(detail as u64, 2).as_str(),
                ")",
            ),
        ),
        other => {
            let mut e = concat3(
                "self test: device-specific failure (0x",
                hex_text(other as u64, 2).as_str(),
                " 0x",
            );
            e.append(hex_text(detail as u64, 2).as_str());
            e.append(")");
            failed_step(e)
        }
    }
}

} // verus!
