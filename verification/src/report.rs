//! What a server tells about a connection that has ended.
use crate::error::{Error, ErrorView};
use crate::text;
use crate::text::push_decimal;
use vstd::prelude::*;
use vstd::string::*;

verus! {

/// The line on a connection from `peer`: how many bytes were relayed each way,
/// or the error that ended it.
pub open spec fn report_text(
    outcome: Result<(u64, u64), ErrorView>,
    peer: Seq<char>,
) -> Seq<char> {
    match outcome {
        Ok((a, b)) => "proxied "@ + text::decimal(a as nat) + "/"@ + text::decimal(b as nat)
            + " bytes for "@ + peer,
        Err(e) => "error for "@ + peer + ": "@ + e.message,
    }
}

/// Tells how a connection from `peer` ended.
pub fn report(outcome: &Result<(u64, u64), Error>, peer: &str) -> (line: String)
    ensures
        line@ == report_text(
            match *outcome {
                Ok(amounts) => Ok(amounts),
                Err(e) => Err(e@),
            },
            peer@,
        ),
        match *outcome {
            Ok((to_client, to_server)) => line@ == "proxied "@ + text::decimal(to_client as nat)
                + "/"@ + text::decimal(to_server as nat) + " bytes for "@ + peer@,
            Err(e) => line@ == "error for "@ + peer@ + ": "@ + e.message@,
        },
{
    match outcome {
        Ok(amounts) => {
            let mut line = "proxied ".to_owned();
            push_decimal(&mut line, amounts.0);
            line.append("/");
            push_decimal(&mut line, amounts.1);
            line.append(" bytes for ");
            line.append(peer);
            line
        },
        Err(e) => {
            let mut line = "error for ".to_owned();
            line.append(peer);
            line.append(": ");
            line.append(e.message.as_str());
            line
        },
    }
}

} // verus!
