use vstd::prelude::*;
use vstd::string::*;

use crate::body::{body_of, generate_post_body};
use crate::config::{lookup_url, Config};
use crate::exit::{status_of, ExitCode};

verus! {

/// Why a run ends in error.
pub enum Failure {
    /// The configuration file could not be opened or read.
    ConfigIOError { detail: String },
    /// The configuration file is not a JSON object with a `channels` object
    /// of string values.
    ConfigParseError { detail: String },
    /// The configuration has no channel of this name.
    ChannelNotFound { channel: String },
    /// The POST did not complete: connection, DNS, TLS or body read.
    PostTransportError { detail: String },
}

/// The line printed for a failure.
pub open spec fn failure_text(f: Failure) -> Seq<char> {
    match f {
        Failure::ConfigIOError { detail } => "cannot read configuration: "@ + detail@,
        Failure::ConfigParseError { detail } => "invalid configuration: "@ + detail@,
        Failure::ChannelNotFound { channel } => "channel not found: "@ + channel@,
        Failure::PostTransportError { detail } => "request failed: "@ + detail@,
    }
}

impl Failure {
    /// The human-readable line that reports this failure.
    pub fn message(&self) -> (r: String)
        ensures
            r@ == failure_text(*self),
    {
        match self {
            Failure::ConfigIOError { detail } => {
                String::from_str("cannot read configuration: ").concat(detail.as_str())
            },
            Failure::ConfigParseError { detail } => {
                String::from_str("invalid configuration: ").concat(detail.as_str())
            },
            Failure::ChannelNotFound { channel } => {
                String::from_str("channel not found: ").concat(channel.as_str())
            },
            Failure::PostTransportError { detail } => {
                String::from_str("request failed: ").concat(detail.as_str())
            },
        }
    }
}

/// What the user asked for: send a message, or print it back.
pub enum Command {
    Post { message: String },
    Get { message: String },
}

/// The next effect of a run.
pub enum Action {
    /// Print `text` on standard output, then end with `code`.
    Print { text: String, code: ExitCode },
    /// Send one POST of `body` to `url` with the header
    /// `Content-Type: <content_type>`.
    Send { url: String, body: String, content_type: String },
}

/// The content type of every outbound request.
pub open spec fn json_content_type() -> Seq<char> {
    "application/json"@
}

/// Resolves the channel, then decides what the command does: `Get` prints
/// its message and succeeds with no request; `Post` sends the message's JSON
/// body to the channel's URL. An unknown channel fails for both commands.
pub fn plan_command(config: &Config, command: Command, channel: String) -> (r: Result<
    Action,
    Failure,
>)
    ensures
        !config@.contains_key(channel@) ==> r == Err::<Action, Failure>(
            Failure::ChannelNotFound { channel },
        ),
        config@.contains_key(channel@) ==> match command {
            Command::Get { message } => r == Ok::<Action, Failure>(
                Action::Print { text: message, code: ExitCode::SUCCESS },
            ),
            Command::Post { message } => r matches Ok(Action::Send { url, body, content_type })
                && url@ == config@[channel@] && body@ == body_of(message@) && content_type@
                == json_content_type(),
        },
{
    let url = match lookup_url(config, channel) {
        Ok(url) => url,
        Err(e) => {
            return Err(e);
        },
    };
    match command {
        Command::Post { message } => {
            let body = generate_post_body(message);
            let content_type = String::from_str("application/json");
            Ok(Action::Send { url, body, content_type })
        },
        Command::Get { message } => Ok(Action::Print { text: message, code: ExitCode::SUCCESS }),
    }
}

/// What follows a POST: the response body, whatever its status, is printed
/// and the run succeeds; a transport failure ends it in error.
pub fn post_outcome(response: Result<String, String>) -> (r: Result<Action, Failure>)
    ensures
        response matches Ok(text) ==> r == Ok::<Action, Failure>(
            Action::Print { text, code: ExitCode::SUCCESS },
        ),
        response matches Err(detail) ==> r == Err::<Action, Failure>(
            Failure::PostTransportError { detail },
        ),
{
    match response {
        Ok(text) => Ok(Action::Print { text, code: ExitCode::SUCCESS }),
        Err(detail) => Err(Failure::PostTransportError { detail }),
    }
}

/// The ending of a run that finished with `outcome`.
pub open spec fn ending_code(outcome: Result<ExitCode, Failure>) -> ExitCode {
    match outcome {
        Ok(code) => code,
        Err(_) => ExitCode::ERROR,
    }
}

/// The single place where a run's outcome becomes its ending: the exit code,
/// and the line to report where it failed.
pub fn conclude(outcome: Result<ExitCode, Failure>) -> (r: (ExitCode, Option<String>))
    ensures
        r.0 == ending_code(outcome),
        outcome is Ok ==> r.1 is None,
        outcome matches Err(f) ==> (r.1 matches Some(m) && m@ == failure_text(f)),
{
    match outcome {
        Ok(code) => (code, None),
        Err(f) => (ExitCode::ERROR, Some(f.message())),
    }
}

/// Every failure, whether of reading or parsing the configuration, of
/// resolving the channel or of the request, ends the run with status 1 and a
/// reported line, never with success.
pub proof fn lemma_failure_ends_with_status_one(f: Failure)
    ensures
        ending_code(Err(f)) == ExitCode::ERROR,
        status_of(ending_code(Err(f))) == 1,
{
}

/// A finished run ends with status 0 when its outcome is success or warning.
pub proof fn lemma_success_ends_with_status_zero(code: ExitCode)
    requires
        code != ExitCode::ERROR,
    ensures
        status_of(ending_code(Ok(code))) == 0,
{
}

} // verus!
