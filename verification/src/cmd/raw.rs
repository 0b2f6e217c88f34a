//! `raw` — guarded arbitrary IPMI requests for protocol diagnostics.

use vstd::prelude::*;

use crate::bytes::copy_range;
use crate::cli::RawArgs;
use crate::conn::{
    bmc_request, completion, completion_text, concat2, concat3, reply_view, request_to_bmc, Reply,
    ResponseView,
};
use crate::dialog::{
    failed, failed_after, failed_step, quiet_step, quietly, step, Action, ActionView, Step, StepView,
};
use crate::text::{
    ascii_gutter, ascii_gutter_text, hex, hex_dump, hex_dump_text, hex_text, push_text, texts, Chars,
};
use crate::ui::{green, greened, header, header_lines, kv, kv_line, red, reddened};

verus! {

/// Bytes as hexadecimal pairs.
pub open spec fn hex_form(bytes: Seq<u8>) -> Chars {
    if bytes.len() == 0 {
        "(empty)"@
    } else {
        hex_dump(bytes)
    }
}

pub fn hex_bytes(bytes: &[u8]) -> (s: String)
    ensures
        s@ == hex_form(bytes@),
{
    if bytes.len() == 0 {
        "(empty)".to_owned()
    } else {
        hex_dump_text(bytes)
    }
}

/// Bytes as characters, with a dot for each that is not printable.
pub open spec fn ascii_form(bytes: Seq<u8>) -> Chars {
    if bytes.len() == 0 {
        "(empty)"@
    } else {
        ascii_gutter(bytes)
    }
}

pub fn ascii_bytes(bytes: &[u8]) -> (s: String)
    ensures
        s@ == ascii_form(bytes@),
{
    if bytes.len() == 0 {
        "(empty)".to_owned()
    } else {
        ascii_gutter_text(bytes)
    }
}

/// A byte as `0x` and two digits.
pub open spec fn hex_byte(b: u8) -> Chars {
    "0x"@ + hex(b as nat, 2)
}

pub fn hex_byte_text(b: u8) -> (s: String)
    ensures
        s@ == hex_byte(b),
{
    concat2("0x", hex_text(b as u64, 2).as_str())
}

/// The question before a raw request.
pub open spec fn raw_question(netfn: u8, command: u8) -> Chars {
    "Send raw IPMI request netfn "@ + hex_byte(netfn) + ", command "@ + hex_byte(command)
        + "? Arbitrary commands may change BMC state."@
}

/// The request is shown, then sent.
pub open spec fn raw_sending(netfn: u8, command: u8, data: Seq<u8>, color: bool) -> StepView {
    step(
        header_lines("Raw IPMI Request"@, color).push(
            kv_line("NetFn"@, hex_byte(netfn), 16, color),
        ).push(kv_line("Command"@, hex_byte(command), 16, color)).push(
            kv_line("Request data"@, hex_form(data), 16, color),
        ),
        ActionView::Send(bmc_request(netfn, command, data)),
    )
}

fn sending(args: &RawArgs, color: bool) -> (s: Step)
    ensures
        s@ == raw_sending(args.netfn, args.command, args.data@, color),
{
    let mut lines = header("Raw IPMI Request", color);
    push_text(&mut lines, kv("NetFn", hex_byte_text(args.netfn).as_str(), 16, color));
    push_text(&mut lines, kv("Command", hex_byte_text(args.command).as_str(), 16, color));
    push_text(
        &mut lines,
        kv("Request data", hex_bytes(args.data.as_slice()).as_str(), 16, color),
    );
    let data = copy_range(args.data.as_slice(), 0, args.data.len());
    proof {
        assert(data@ =~= args.data@);
    }
    Step { lines, action: Action::Send(request_to_bmc(args.netfn, args.command, data)) }
}

/// Begins the command: every request is confirmed first unless `--yes` is given.
pub fn begin(args: &RawArgs, color: bool) -> (s: Step)
    ensures
        s@ == if args.yes {
            raw_sending(args.netfn, args.command, args.data@, color)
        } else {
            quietly(ActionView::Confirm(raw_question(args.netfn, args.command)))
        },
{
    if args.yes {
        sending(args, color)
    } else {
        let mut prompt = concat3(
            "Send raw IPMI request netfn ",
            hex_byte_text(args.netfn).as_str(),
            ", command ",
        );
        prompt.append(hex_byte_text(args.command).as_str());
        prompt.append("? Arbitrary commands may change BMC state.");
        quiet_step(Action::Confirm(prompt))
    }
}

/// Goes on after the question.
pub fn answered(args: &RawArgs, yes: bool, color: bool) -> (s: Step)
    ensures
        s@ == if yes {
            raw_sending(args.netfn, args.command, args.data@, color)
        } else {
            failed("cancelled"@)
        },
{
    if yes {
        sending(args, color)
    } else {
        failed_step("cancelled".to_owned())
    }
}

/// What is shown of a response.
pub open spec fn raw_response_lines(response: ResponseView, color: bool) -> Seq<Chars> {
    header_lines("Raw IPMI Response"@, color).push(
        kv_line(
            "Completion code"@,
            if response.cc == 0 {
                greened("0x00 (success)"@, color)
            } else {
                reddened(hex_byte(response.cc), color)
            },
            16,
            color,
        ),
    ).push(kv_line("Response data"@, hex_form(response.data), 16, color)).push(
        kv_line("ASCII"@, ascii_form(response.data), 16, color),
    ).push(seq![])
}

/// Shows the response; a completion code other than zero is an error.
pub fn replied(reply: Reply, color: bool) -> (s: Step)
    ensures
        s@ == match reply_view(reply) {
            Err(e) => failed("raw IPMI request failed: "@ + e),
            Ok(response) => if response.cc == 0 {
                crate::dialog::done(raw_response_lines(response, color))
            } else {
                failed_after(
                    raw_response_lines(response, color),
                    "raw command returned "@ + completion(response.cc),
                )
            },
        },
{
    let response = match reply {
        Err(e) => {
            return failed_step(concat2("raw IPMI request failed: ", e.as_str()));
        }
        Ok(response) => response,
    };
    let mut lines = header("Raw IPMI Response", color);
    let code = if response.cc == 0 {
        green("0x00 (success)", color)
    } else {
        red(hex_byte_text(response.cc).as_str(), color)
    };
    push_text(&mut lines, kv("Completion code", code.as_str(), 16, color));
    push_text(
        &mut lines,
        kv("Response data", hex_bytes(response.data.as_slice()).as_str(), 16, color),
    );
    push_text(
        &mut lines,
        kv("ASCII", ascii_bytes(response.data.as_slice()).as_str(), 16, color),
    );
    push_text(&mut lines, String::new());
    proof {
        assert(texts(lines@) =~= raw_response_lines(response@, color));
    }
    let result = if response.cc == 0 {
        Ok(())
    } else {
        Err(concat2("raw command returned ", completion_text(response.cc).as_str()))
    };
    Step { lines, action: Action::Finish(result) }
}

} // verus!
