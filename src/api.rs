//! The request contract of the rover's HTTP surface: which command each
//! route runs, and the status and JSON body that answer it.
use vstd::prelude::*;
use vstd::string::*;

use crate::error::{stage_message, RoverError};
use crate::plan::{construct_plan, enable_plan, reset_plan, speed_plan, stop_plan, Step, Trace};
use crate::rover::{lemma_appended_failed_early, lemma_appended_fresh, lemma_appended_then, ran, Rover};

verus! {

/// The PWM chip that carries both wheels' channels.
pub const PWM_CHIP: u32 = 0;

/// The channel of the left wheel.
pub const LEFT_PWM: u32 = 0;

/// The channel of the right wheel.
pub const RIGHT_PWM: u32 = 1;

/// The status of a request that was carried out.
pub const STATUS_OK: u16 = 200;

/// The status of a request whose body is not a valid speed request.
pub const STATUS_BAD_REQUEST: u16 = 400;

/// The status of a request that failed on the hardware.
pub const STATUS_SERVER_ERROR: u16 = 500;

/// The lower-case hexadecimal digit of a value below 16.
pub open spec fn hex_digit(n: u32) -> char {
    if n < 10 {
        seq!['0', '1', '2', '3', '4', '5', '6', '7', '8', '9'][n as int]
    } else {
        seq!['a', 'b', 'c', 'd', 'e', 'f'][n - 10]
    }
}

/// One character as it stands inside a JSON string: quote and backslash
/// escaped, the five short escapes, other control characters as `\u00xx`,
/// anything else unchanged.
pub open spec fn json_escape_char(c: char) -> Seq<char> {
    let n = c as u32;
    if c == '"' {
        seq!['\\', '"']
    } else if c == '\\' {
        seq!['\\', '\\']
    } else if n == 8 {
        seq!['\\', 'b']
    } else if n == 9 {
        seq!['\\', 't']
    } else if n == 10 {
        seq!['\\', 'n']
    } else if n == 12 {
        seq!['\\', 'f']
    } else if n == 13 {
        seq!['\\', 'r']
    } else if n < 32 {
        seq!['\\', 'u', '0', '0', hex_digit(n / 16), hex_digit(n % 16)]
    } else {
        seq![c]
    }
}

/// Every character of `s` escaped, in order.
pub open spec fn json_escape(s: Seq<char>) -> Seq<char>
    decreases s.len(),
{
    if s.len() == 0 {
        Seq::empty()
    } else {
        json_escape(s.drop_last()) + json_escape_char(s.last())
    }
}

/// The text of `s` as a JSON string literal.
pub open spec fn json_string_of(s: Seq<char>) -> Seq<char> {
    seq!['"'] + json_escape(s) + seq!['"']
}

/// Relies on serde_json::to_string on a `str`: the string in quotes, each
/// character escaped by serde_json's table of escapes (see
/// `json_escape_char`). Serialising a `str` into memory does not fail.
#[verifier::external_body]
fn json_string(s: &str) -> (r: String)
    ensures
        r@ == json_string_of(s@),
{
    serde_json::to_string(s).unwrap_or_default()
}

/// The body of a speed request: a speed for each wheel.
#[derive(Clone, Copy, Debug, PartialEq, Eq, Structural)]
pub struct SpeedRequest {
    pub left: i8,
    pub right: i8,
}

/// The payload sent back, JSON encoded, for every request.
#[derive(Debug)]
pub enum ResponsePayload {
    Error { success: bool, error: String },
    Simple { success: bool },
}

/// A complete answer to a request: its HTTP status and JSON body.
#[derive(Debug)]
pub struct ApiResponse {
    pub status: u16,
    pub body: String,
}

pub open spec fn bool_json(b: bool) -> Seq<char> {
    if b {
        "true"@
    } else {
        "false"@
    }
}

/// The JSON encoding of a payload, fields in declaration order, with no
/// whitespace.
pub open spec fn payload_json(p: ResponsePayload) -> Seq<char> {
    match p {
        ResponsePayload::Error { success, error } => "{\"success\":"@ + bool_json(success)
            + ",\"error\":"@ + json_string_of(error@) + "}"@,
        ResponsePayload::Simple { success } => "{\"success\":"@ + bool_json(success) + "}"@,
    }
}

/// The body that reports success.
pub open spec fn success_json() -> Seq<char> {
    payload_json(ResponsePayload::Simple { success: true })
}

/// The body that reports an error with `message`.
pub open spec fn error_json(message: Seq<char>) -> Seq<char> {
    "{\"success\":false,\"error\":"@ + json_string_of(message) + "}"@
}

/// An error payload encodes to the error body of its message.
proof fn lemma_error_payload_json(error: String)
    ensures
        payload_json(ResponsePayload::Error { success: false, error }) == error_json(error@),
{
    reveal_strlit("{\"success\":");
    reveal_strlit("false");
    reveal_strlit(",\"error\":");
    reveal_strlit("{\"success\":false,\"error\":");
    assert("{\"success\":"@ + "false"@ + ",\"error\":"@ =~= "{\"success\":false,\"error\":"@);
    assert(payload_json(ResponsePayload::Error { success: false, error }) =~= error_json(error@));
}

impl ResponsePayload {
    /// The payload that reports an error.
    pub fn error(error: String) -> (r: ResponsePayload)
        ensures
            r == (ResponsePayload::Error { success: false, error }),
    {
        ResponsePayload::Error { success: false, error }
    }

    /// The payload of a request carried out without error and with no data
    /// to return.
    pub fn success() -> (r: ResponsePayload)
        ensures
            r == (ResponsePayload::Simple { success: true }),
    {
        ResponsePayload::Simple { success: true }
    }

    /// The payload encoded as JSON.
    pub fn to_json(&self) -> (r: String)
        ensures
            r@ == payload_json(*self),
    {
        match self {
            ResponsePayload::Error { success, error } => {
                let mut r = String::from_str("{\"success\":");
                r.append(if *success { "true" } else { "false" });
                r.append(",\"error\":");
                let quoted = json_string(error.as_str());
                r.append(quoted.as_str());
                r.append("}");
                r
            },
            ResponsePayload::Simple { success } => {
                let mut r = String::from_str("{\"success\":");
                r.append(if *success { "true" } else { "false" });
                r.append("}");
                r
            },
        }
    }

    /// The payload as a response with the OK status.
    pub fn to_response(self) -> (r: ApiResponse)
        ensures
            r.status == STATUS_OK,
            r.body@ == payload_json(self),
    {
        ApiResponse { status: STATUS_OK, body: self.to_json() }
    }
}

/// A command that a route of the HTTP surface runs.
#[derive(Clone, Copy, Debug, PartialEq, Eq, Structural)]
pub enum Command {
    Reset,
    Stop,
    Enable,
    Disable,
    Speed(SpeedRequest),
}

/// The hardware steps of `cmd`, once the rover is constructed.
pub open spec fn command_plan(cmd: Command) -> Seq<Step> {
    match cmd {
        Command::Reset => reset_plan(),
        Command::Stop => stop_plan(),
        Command::Enable => enable_plan(true),
        Command::Disable => enable_plan(false),
        Command::Speed(req) => speed_plan(req.left as int, req.right as int),
    }
}

/// The steps of `cmd` whose failure does not stop the command at once.
pub open spec fn command_tolerance(cmd: Command) -> (int, int) {
    match cmd {
        Command::Reset => (6, 10),
        _ => (0, 0),
    }
}

/// `t` is what running `cmd` on a freshly constructed rover asked of the
/// channels, and `r` its result: construction and then the command's plan
/// ran (see `ran`).
pub open spec fn executed(cmd: Command, t: Trace, r: Result<(), RoverError>) -> bool {
    ran(
        construct_plan() + command_plan(cmd),
        6 + command_tolerance(cmd).0,
        6 + command_tolerance(cmd).1,
        t,
        r,
    )
}

/// The status that answers a command's outcome.
pub open spec fn outcome_status(r: Result<(), RoverError>) -> u16 {
    match r {
        Ok(()) => STATUS_OK,
        Err(_) => STATUS_SERVER_ERROR,
    }
}

/// The body that answers a command's outcome.
pub open spec fn outcome_body(r: Result<(), RoverError>) -> Seq<char> {
    match r {
        Ok(()) => success_json(),
        Err(e) => error_json(stage_message(e.stage)),
    }
}

/// The response to a command's outcome: success, or a server error that
/// carries the failing stage's message.
pub fn respond(outcome: Result<(), RoverError>) -> (r: ApiResponse)
    ensures
        r.status == outcome_status(outcome),
        r.body@ == outcome_body(outcome),
{
    match outcome {
        Ok(()) => ResponsePayload::success().to_response(),
        Err(e) => {
            let message = e.message();
            proof {
                lemma_error_payload_json(message);
            }
            ApiResponse { status: STATUS_SERVER_ERROR, body: ResponsePayload::error(message).to_json() }
        },
    }
}

/// The response to a request body that could not be read as a speed request;
/// `reason` is the decoder's description of the fault.
pub fn invalid_json(reason: &str) -> (r: ApiResponse)
    ensures
        r.status == STATUS_BAD_REQUEST,
        r.body@ == error_json("invalid json: "@ + reason@),
{
    let mut message = String::from_str("invalid json: ");
    message.append(reason);
    proof {
        lemma_error_payload_json(message);
    }
    ApiResponse { status: STATUS_BAD_REQUEST, body: ResponsePayload::error(message).to_json() }
}

/// Brings the rover to a known state: exported, braking and enabled. What
/// was asked of the channels is returned beside the result.
pub fn reset_rover() -> (r: (Result<(), RoverError>, Ghost<Trace>))
    ensures
        executed(Command::Reset, r.1@, r.0),
{
    execute(Command::Reset)
}

/// Runs `cmd` on a rover constructed on the fixed channels. What was asked of
/// the channels is returned beside the result.
pub fn execute(cmd: Command) -> (r: (Result<(), RoverError>, Ghost<Trace>))
    ensures
        executed(cmd, r.1@, r.0),
{
    let ghost from = command_tolerance(cmd).0;
    let ghost to = command_tolerance(cmd).1;
    let mut rover = match Rover::new(PWM_CHIP, LEFT_PWM, RIGHT_PWM) {
        Ok(rover) => rover,
        Err(e) => {
            let ghost a = e.attempts();
            proof {
                lemma_appended_fresh(a, construct_plan(), 0, 0, Err(e));
                lemma_appended_failed_early(construct_plan(), command_plan(cmd), 6 + from, 6 + to, Seq::empty(), a, Err(e));
                lemma_appended_fresh(a, construct_plan() + command_plan(cmd), 6 + from, 6 + to, Err(e));
            }
            return (Err(e), Ghost(a));
        },
    };
    let ghost t0 = rover.trace();
    let r = match cmd {
        Command::Reset => rover.reset(),
        Command::Stop => rover.stop(),
        Command::Enable => rover.enable(true),
        Command::Disable => rover.enable(false),
        Command::Speed(req) => rover.set_speed(req.left, req.right),
    };
    proof {
        let t = rover.trace();
        lemma_appended_fresh(t0, construct_plan(), 0, 0, Ok(()));
        lemma_appended_then(construct_plan(), command_plan(cmd), from, to, Seq::empty(), t0, t, r);
        lemma_appended_fresh(t, construct_plan() + command_plan(cmd), 6 + from, 6 + to, r);
    }
    (r, Ghost(rover.trace()))
}

/// Answers a request: `request` is the command of its route, or the
/// decoder's description of why a speed request's body was refused. What was
/// asked of the channels is returned beside the response: nothing, for a
/// refused body.
pub fn handle(request: Result<Command, String>) -> (r: (ApiResponse, Ghost<Trace>))
    ensures
        request matches Err(reason) ==> r.1@.len() == 0 && r.0.status == STATUS_BAD_REQUEST
            && r.0.body@ == error_json("invalid json: "@ + reason@),
        request matches Ok(cmd) ==> exists|o: Result<(), RoverError>|
            executed(cmd, r.1@, o) && r.0.status == outcome_status(o) && r.0.body@ == outcome_body(o),
{
    match request {
        Err(reason) => (invalid_json(reason.as_str()), Ghost(Seq::empty())),
        Ok(cmd) => {
            let (o, t) = execute(cmd);
            let ghost og = o;
            let response = respond(o);
            assert(executed(cmd, t@, og) && response.status == outcome_status(og)
                && response.body@ == outcome_body(og));
            (response, t)
        },
    }
}

} // verus!
