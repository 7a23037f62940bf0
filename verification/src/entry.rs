//! The isolate and unisolate entry points.
//!
//! Each entry point reads `endpoint_id` from the parsed arguments. When
//! it is present the outcome is exit code 0, a success record whose
//! message and details carry the endpoint id, and a simulation line for
//! the error stream; the real call to an endpoint-isolation service is
//! deliberately not made. When it is absent the outcome is exit code 1
//! and an error record naming the missing parameter. Either way, one
//! warning line per malformed token precedes any simulation line on the
//! error stream, and standard output gets exactly one line.

use vstd::prelude::*;

use crate::args::malformed;
use crate::args::parse_args;
use crate::args::parsed_map;
use crate::json::json_line;
use crate::response::error_response;
use crate::response::lemma_response_is_single_line;
use crate::response::single_line;
use crate::response::success_response;
use crate::response::Status;

verus! {

/// The two actions an entry point can simulate.
#[derive(Clone, Copy, Debug, PartialEq, Eq, Structural)]
pub enum Action {
    Isolate,
    Unisolate,
}

/// The success message of an action, around the endpoint id.
pub open spec fn action_message(action: Action, id: Seq<char>) -> Seq<char> {
    match action {
        Action::Isolate => "Successfully submitted network isolation request for endpoint '"@ + id
            + "'."@,
        Action::Unisolate => "Successfully submitted request to UNISOLATE endpoint '"@ + id
            + "'."@,
    }
}

/// The simulation line an action writes to the error stream in place of
/// the real service call.
pub open spec fn simulation_line(action: Action, id: Seq<char>) -> Seq<char> {
    match action {
        Action::Isolate => "*** SIMULATION: Would trigger network isolation for endpoint '"@ + id
            + "' ***"@,
        Action::Unisolate => "*** SIMULATION: Would remove network isolation for endpoint '"@ + id
            + "' ***"@,
    }
}

/// The warning written to the error stream for one malformed token.
pub open spec fn warning_line(token: Seq<char>) -> Seq<char> {
    "Warning: Malformed argument ignored: "@ + token
}

/// The error message for a missing `endpoint_id`.
pub open spec fn missing_endpoint_message() -> Seq<char> {
    "Missing parameter: endpoint_id"@
}

/// The warning lines for the malformed tokens of a token list, in order.
pub open spec fn warning_lines(tokens: Seq<Seq<char>>) -> Seq<Seq<char>> {
    malformed(tokens).map_values(|t: Seq<char>| warning_line(t))
}

/// Everything a finished invocation asks of the process: the exit code,
/// the one line for standard output, and the diagnostic lines for the
/// error stream, in order.
pub struct Outcome {
    /// The process exit code.
    pub exit_code: i32,
    /// The one line to write to standard output.
    pub stdout_line: String,
    /// The diagnostic lines to write to the error stream, in order.
    pub stderr_lines: Vec<String>,
}

/// Decides an entry point's whole outcome from its command-line tokens:
/// success with the endpoint id when `endpoint_id` is bound, the missing
/// parameter error with exit code 1 when it is not.
pub fn run_action(action: Action, tokens: &Vec<String>) -> (r: Outcome)
    ensures
        ({
            let m = parsed_map(tokens.deep_view());
            let warnings = warning_lines(tokens.deep_view());
            &&& single_line(r.stdout_line@)
            &&& if m.contains_key("endpoint_id"@) {
                let id = m["endpoint_id"@];
                &&& r.exit_code == 0
                &&& r.stdout_line@ == json_line(
                    Status::Success.text(),
                    action_message(action, id),
                    Some(id),
                )
                &&& r.stderr_lines.deep_view() == warnings.push(simulation_line(action, id))
            } else {
                &&& r.exit_code == 1
                &&& r.stdout_line@ == json_line(
                    Status::Error.text(),
                    missing_endpoint_message(),
                    None,
                )
                &&& r.stderr_lines.deep_view() == warnings
            }
        }),
{
    let (params, bad) = parse_args(tokens);
    let ghost warnings = warning_lines(tokens.deep_view());
    let mut stderr_lines: Vec<String> = Vec::new();
    let mut i: usize = 0;
    while i < bad.len()
        invariant
            i <= bad.len(),
            bad.deep_view() == malformed(tokens.deep_view()),
            warnings == warning_lines(tokens.deep_view()),
            stderr_lines.deep_view() == warnings.take(i as int),
        decreases bad.len() - i,
    {
        let mut line = String::from_str("Warning: Malformed argument ignored: ");
        line.append(bad[i].as_str());
        let ghost line_view = line@;
        let ghost lines_before = stderr_lines.deep_view();
        stderr_lines.push(line);
        proof {
            assert(line_view == warning_line(bad.deep_view()[i as int]));
            assert(warnings[i as int] == warning_line(bad.deep_view()[i as int]));
            assert(stderr_lines.deep_view() =~= lines_before.push(line_view));
            assert(stderr_lines.deep_view() =~= warnings.take(i as int + 1));
        }
        i = i + 1;
    }
    proof {
        assert(warnings.take(bad.len() as int) =~= warnings);
    }
    match params.get("endpoint_id") {
        Option::Some(id_ref) => {
            let id = id_ref.clone();
            let mut sim = match action {
                Action::Isolate => String::from_str(
                    "*** SIMULATION: Would trigger network isolation for endpoint '",
                ),
                Action::Unisolate => String::from_str(
                    "*** SIMULATION: Would remove network isolation for endpoint '",
                ),
            };
            sim.append(id.as_str());
            sim.append("' ***");
            let ghost lines_before = stderr_lines.deep_view();
            stderr_lines.push(sim);
            let mut message = match action {
                Action::Isolate => String::from_str(
                    "Successfully submitted network isolation request for endpoint '",
                ),
                Action::Unisolate => String::from_str(
                    "Successfully submitted request to UNISOLATE endpoint '",
                ),
            };
            message.append(id.as_str());
            message.append("'.");
            let response = success_response(message.as_str(), Some(id.as_str()));
            proof {
                assert(stderr_lines.deep_view() =~= lines_before.push(
                    simulation_line(action, id@),
                ));
                lemma_response_is_single_line(
                    Status::Success,
                    action_message(action, id@),
                    Some(id@),
                );
            }
            Outcome {
                exit_code: response.exit_code,
                stdout_line: response.stdout_line,
                stderr_lines,
            }
        },
        Option::None => {
            let response = error_response("Missing parameter: endpoint_id", 1, None);
            proof {
                lemma_response_is_single_line(Status::Error, missing_endpoint_message(), None);
            }
            Outcome {
                exit_code: response.exit_code,
                stdout_line: response.stdout_line,
                stderr_lines,
            }
        },
    }
}

/// The isolate entry point's outcome for the given command-line tokens.
pub fn run_isolate(tokens: &Vec<String>) -> (r: Outcome)
    ensures
        ({
            let m = parsed_map(tokens.deep_view());
            let warnings = warning_lines(tokens.deep_view());
            &&& single_line(r.stdout_line@)
            &&& if m.contains_key("endpoint_id"@) {
                let id = m["endpoint_id"@];
                &&& r.exit_code == 0
                &&& r.stdout_line@ == json_line(
                    Status::Success.text(),
                    action_message(Action::Isolate, id),
                    Some(id),
                )
                &&& r.stderr_lines.deep_view() == warnings.push(
                    simulation_line(Action::Isolate, id),
                )
            } else {
                &&& r.exit_code == 1
                &&& r.stdout_line@ == json_line(
                    Status::Error.text(),
                    missing_endpoint_message(),
                    None,
                )
                &&& r.stderr_lines.deep_view() == warnings
            }
        }),
{
    run_action(Action::Isolate, tokens)
}

/// The unisolate entry point's outcome for the given command-line tokens.
pub fn run_unisolate(tokens: &Vec<String>) -> (r: Outcome)
    ensures
        ({
            let m = parsed_map(tokens.deep_view());
            let warnings = warning_lines(tokens.deep_view());
            &&& single_line(r.stdout_line@)
            &&& if m.contains_key("endpoint_id"@) {
                let id = m["endpoint_id"@];
                &&& r.exit_code == 0
                &&& r.stdout_line@ == json_line(
                    Status::Success.text(),
                    action_message(Action::Unisolate, id),
                    Some(id),
                )
                &&& r.stderr_lines.deep_view() == warnings.push(
                    simulation_line(Action::Unisolate, id),
                )
            } else {
                &&& r.exit_code == 1
                &&& r.stdout_line@ == json_line(
                    Status::Error.text(),
                    missing_endpoint_message(),
                    None,
                )
                &&& r.stderr_lines.deep_view() == warnings
            }
        }),
{
    run_action(Action::Unisolate, tokens)
}

} // verus!
