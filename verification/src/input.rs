//! Input for processes.

use vstd::prelude::*;
use vstd::utf8::*;

use crate::protocol::{err, ElicitedInput, ErrorData, SendInputArgs};
use crate::runner::{flag, Runner};
use crate::text::{owned, trim_end, trimmed_end};

verus! {

/// What Enter sends: `\r\n` in a pseudo-terminal and `\n` on a pipe.
pub open spec fn line_ending(is_pty: bool) -> Seq<u8> {
    if is_pty {
        seq![0x0du8, 0x0au8]
    } else {
        seq![0x0au8]
    }
}

/// The bytes of a typed line: the text without the white space at its end, and Enter.
pub open spec fn typed_line(text: Seq<char>, is_pty: bool) -> Seq<u8> {
    encode_utf8(trimmed_end(text)) + line_ending(is_pty)
}

/// The bytes of a typed text: a line, or with `no_enter` exactly the text.
pub open spec fn typed_bytes(text: Seq<char>, is_pty: bool, no_enter: bool) -> Seq<u8> {
    if no_enter {
        encode_utf8(text)
    } else {
        typed_line(text, is_pty)
    }
}

/// The bytes of a typed line: the text without the white space at its end, and Enter.
pub fn line_bytes(text: &str, is_pty: bool) -> (r: Vec<u8>)
    ensures
        r@ == typed_line(text@, is_pty),
{
    let trimmed = trim_end(text);
    let mut bytes = trimmed.as_str().as_bytes_vec();
    if is_pty {
        bytes.push(0x0d);
    }
    bytes.push(0x0a);
    bytes
}

/// What sending the input of a request takes.
pub enum InputRequest {
    /// These bytes are to be sent.
    Send(Vec<u8>),
    /// The user is to be asked for them. `is_pty` says what Enter will send.
    Ask { message: String, is_pty: bool },
}

/// What the user is asked where the request does not say.
pub const DEFAULT_QUESTION: &'static str = "Enter input for process";

/// What came of asking the user.
pub enum ElicitOutcome {
    Provided(ElicitedInput),
    /// The user confirmed without any input.
    Nothing,
    Declined,
    Cancelled,
    /// The client cannot ask its user.
    Unsupported,
    Failed(String),
}

/// What to do with what the user said.
pub enum ElicitReply {
    /// These bytes are to be sent.
    Send(Vec<u8>),
    /// Nothing is sent, and the client is told this.
    Answer(String),
}

/// Takes what came of asking the user.
pub fn take_elicited(outcome: ElicitOutcome, is_pty: bool) -> (r: Result<ElicitReply, ErrorData>)
    ensures
        match outcome {
            ElicitOutcome::Provided(given) => {
                r matches Ok(ElicitReply::Send(bytes)) && bytes@ == typed_line(given.input@, is_pty)
            },
            ElicitOutcome::Nothing => r is Err && r->Err_0.is_internal("User provided no input"@),
            ElicitOutcome::Declined => {
                r matches Ok(ElicitReply::Answer(text)) && text@ == "User declined input"@
            },
            ElicitOutcome::Cancelled => {
                r matches Ok(ElicitReply::Answer(text)) && text@ == "User cancelled input"@
            },
            ElicitOutcome::Unsupported => r is Err && r->Err_0.is_internal(
                "Client does not support elicitation"@,
            ),
            ElicitOutcome::Failed(reason) => r is Err && r->Err_0.is_internal(
                "Elicitation failed: "@ + reason@,
            ),
        },
{
    match outcome {
        ElicitOutcome::Provided(given) => Ok(
            ElicitReply::Send(line_bytes(given.input.as_str(), is_pty)),
        ),
        ElicitOutcome::Nothing => Err(err("User provided no input")),
        ElicitOutcome::Declined => Ok(ElicitReply::Answer(owned("User declined input"))),
        ElicitOutcome::Cancelled => Ok(ElicitReply::Answer(owned("User cancelled input"))),
        ElicitOutcome::Unsupported => Err(err("Client does not support elicitation")),
        ElicitOutcome::Failed(reason) => {
            let mut message = owned("Elicitation failed: ");
            message.append(reason.as_str());
            Err(err(message.as_str()))
        },
    }
}

/// What came of writing to a process.
pub enum WriteOutcome {
    Written,
    /// The process has no standard input to write to.
    NoStdin,
    Failed(String),
}

/// Takes what came of writing the input of a request.
pub fn input_written(outcome: WriteOutcome) -> (r: Result<(), ErrorData>)
    ensures
        match outcome {
            WriteOutcome::Written => r is Ok,
            WriteOutcome::NoStdin => r is Err && r->Err_0.is_internal(
                "Process stdin not available"@,
            ),
            WriteOutcome::Failed(reason) => r is Err && r->Err_0.is_internal(reason@),
        },
{
    match outcome {
        WriteOutcome::Written => Ok(()),
        WriteOutcome::NoStdin => Err(err("Process stdin not available")),
        WriteOutcome::Failed(reason) => Err(err(reason.as_str())),
    }
}

/// What the sender that does not wait is told.
pub const INPUT_SENT: &'static str = "Input sent";

/// What is to be sent for a request to a session that is on a pseudo-terminal or not: where
/// asking the user is not requested, the text before the bytes. `None` where there is neither.
pub open spec fn requested_bytes(args: SendInputArgs, is_pty: bool) -> Option<Seq<u8>> {
    match (args.input, args.bytes) {
        (Some(text), _) => Some(typed_bytes(text@, is_pty, flag(args.no_enter))),
        (None, Some(bytes)) => Some(bytes@),
        (None, None) => None,
    }
}

/// The question for the user.
pub open spec fn question(args: SendInputArgs) -> Seq<char> {
    match args.elicit_message {
        Some(message) => message@,
        None => DEFAULT_QUESTION@,
    }
}

impl<P, T> Runner<P, T> {
    /// A request to send input: what is to be sent, or asked for.
    pub fn send_input(&self, args: &SendInputArgs) -> (r: Result<InputRequest, ErrorData>)
        requires
            self.wf(),
        ensures
            if !self.sessions@.contains_key(args.session_id@) {
                r is Err && r->Err_0.is_internal("Session not found"@)
            } else {
                let is_pty = self.sessions@[args.session_id@].is_pty;
                if flag(args.elicit) {
                    &&& r matches Ok(InputRequest::Ask { message, is_pty: p })
                    &&& message@ == question(*args)
                    &&& p == is_pty
                } else {
                    match requested_bytes(*args, is_pty) {
                        Some(expected) => {
                            r matches Ok(InputRequest::Send(bytes)) && bytes@ == expected
                        },
                        None => r is Err && r->Err_0.is_internal(
                            "Provide 'input', 'bytes', or set 'elicit: true'"@,
                        ),
                    }
                }
            },
    {
        let is_pty = match self.sessions.get(args.session_id.as_str()) {
            Some(session) => session.is_pty,
            None => {
                return Err(err("Session not found"));
            },
        };
        let no_enter = match args.no_enter {
            Some(b) => b,
            None => false,
        };
        let elicit = match args.elicit {
            Some(b) => b,
            None => false,
        };
        if elicit {
            let message = match &args.elicit_message {
                Some(m) => owned(m.as_str()),
                None => owned(DEFAULT_QUESTION),
            };
            return Ok(InputRequest::Ask { message, is_pty });
        }
        match &args.input {
            Some(text) => {
                let bytes: Vec<u8> = if no_enter {
                    text.as_str().as_bytes_vec()
                } else {
                    line_bytes(text.as_str(), is_pty)
                };
                Ok(InputRequest::Send(bytes))
            },
            None => match &args.bytes {
                Some(bytes) => Ok(InputRequest::Send(bytes.clone())),
                None => Err(err("Provide 'input', 'bytes', or set 'elicit: true'")),
            },
        }
    }
}

/// What a typed line sends ends with a line feed, and what stands before Enter does not end in
/// white space.
pub proof fn law_typed_line_ends_with_one_enter(text: Seq<char>, is_pty: bool)
    ensures
        typed_line(text, is_pty).last() == 0x0a,
        trimmed_end(text).len() > 0 ==> !crate::text::is_whitespace(trimmed_end(text).last()),
        typed_line(trimmed_end(text), is_pty) == typed_line(text, is_pty),
    decreases text.len(),
{
    if text.len() > 0 && crate::text::is_whitespace(text.last()) {
        law_typed_line_ends_with_one_enter(text.drop_last(), is_pty);
    }
}

/// A line of text is typed without the white space that ends it and with one Enter behind it,
/// which a terminal gets as carriage return and line feed, and any other process as a line feed.
pub proof fn law_line_is_typed_with_enter(text: Seq<char>, space: Seq<char>)
    requires
        text.len() > 0 ==> !crate::text::is_whitespace(text.last()),
        forall|i: int| 0 <= i < space.len() ==> crate::text::is_whitespace(#[trigger] space[i]),
    ensures
        typed_line(text + space, true) == encode_utf8(text) + seq![13u8, 10u8],
        typed_line(text + space, false) == encode_utf8(text) + seq![10u8],
        typed_bytes(text + space, true, false) == encode_utf8(text) + seq![13u8, 10u8],
        typed_bytes(text + space, false, false) == encode_utf8(text) + seq![10u8],
{
    crate::text::law_trimming_takes_the_white_space(text, space);
}

/// Text without Enter is typed exactly as it is.
pub proof fn law_text_is_typed_as_it_is(text: Seq<char>, is_pty: bool)
    ensures
        typed_bytes(text, is_pty, true) == encode_utf8(text),
{
}

/// Text goes before bytes, bytes are sent as they are, and without either nothing is sent. Enter
/// is left out only where that is asked for.
pub proof fn law_text_goes_before_bytes(args: SendInputArgs, is_pty: bool)
    ensures
        args.input is Some && args.no_enter == Some(true) ==> requested_bytes(args, is_pty) == Some(
            encode_utf8(args.input->0@),
        ),
        args.input is Some && args.no_enter != Some(true) ==> requested_bytes(args, is_pty) == Some(
            typed_line(args.input->0@, is_pty),
        ),
        args.input is None && args.bytes is Some ==> requested_bytes(args, is_pty) == Some(
            args.bytes->0@,
        ),
        args.input is None && args.bytes is None ==> requested_bytes(args, is_pty) is None,
{
}

/// The user is asked what the request says, or a question of the server's own.
pub proof fn law_user_is_asked_the_question(args: SendInputArgs)
    ensures
        args.elicit_message is Some ==> question(args) == args.elicit_message->0@,
        args.elicit_message is None ==> question(args) == "Enter input for process"@,
        INPUT_SENT@ == "Input sent"@,
{
}

} // verus!
