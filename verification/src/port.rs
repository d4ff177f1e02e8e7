//! How a freshly spawned host tells its port: one line on its standard output.

use crate::json::{is_json, parsed_json};
use crate::model::nanos_between;
use crate::session::elapsed_nanos;
use crate::text::{
    same_text, strip_prefix, trim, trimmed, trimming_takes_exactly_the_white_space_at_the_ends,
    trimming_undoes_padding, white_space,
};
use vstd::prelude::*;

verus! {

/// What stands in front of a port message.
pub const SIDEX_EXT_HOST_PORT_PREFIX: &'static str = "SIDEX_EXT_HOST_PORT ";

/// The type that a port message has.
pub const PORT_MESSAGE_TYPE: &'static str = "sidex:server-port";

/// How long a host may take to tell its port.
pub const PORT_TIMEOUT_NANOS: u64 = 15_000_000_000;

/// The message in which a host tells its port.
#[derive(Debug, Clone)]
pub struct PortMessage {
    pub msg_type: String,
    pub session_id: String,
    pub port: u16,
}

/// What came of waiting for the host's line.
#[derive(Debug, Clone)]
pub enum PortEvent {
    /// The line.
    Line(String),
    /// Nothing yet.
    Quiet,
    /// The output ended without a line.
    Disconnected,
}

/// Why a host's port is not known.
#[derive(Debug, Clone)]
pub enum PortProblem {
    Timeout,
    UnexpectedType,
    SessionMismatch,
    BadJson(String),
    NotPortMessage,
    NotJson,
    ReaderExited,
}

/// What to do next about the host's port.
#[derive(Debug, Clone)]
pub enum PortStep {
    /// Wait for the line, or wait on.
    Wait,
    /// Decode this text as a JSON `PortMessage`, and have the outcome judged.
    Decode(String),
    /// The host listens on this port.
    Accepted { port: u16 },
    /// The host is of no use; its process is to be ended.
    Failed(PortProblem),
}

/// `PortProblem` with its text as characters.
pub enum PortProblemView {
    Timeout,
    UnexpectedType,
    SessionMismatch,
    BadJson(Seq<char>),
    NotPortMessage,
    NotJson,
    ReaderExited,
}

/// `PortStep` with its text as characters.
pub enum PortStepView {
    Wait,
    Decode(Seq<char>),
    Accepted { port: u16 },
    Failed(PortProblemView),
}

impl View for PortProblem {
    type V = PortProblemView;

    open spec fn view(&self) -> PortProblemView {
        match self {
            PortProblem::Timeout => PortProblemView::Timeout,
            PortProblem::UnexpectedType => PortProblemView::UnexpectedType,
            PortProblem::SessionMismatch => PortProblemView::SessionMismatch,
            PortProblem::BadJson(detail) => PortProblemView::BadJson(detail@),
            PortProblem::NotPortMessage => PortProblemView::NotPortMessage,
            PortProblem::NotJson => PortProblemView::NotJson,
            PortProblem::ReaderExited => PortProblemView::ReaderExited,
        }
    }
}

impl View for PortStep {
    type V = PortStepView;

    open spec fn view(&self) -> PortStepView {
        match self {
            PortStep::Wait => PortStepView::Wait,
            PortStep::Decode(text) => PortStepView::Decode(text@),
            PortStep::Accepted { port } => PortStepView::Accepted { port: *port },
            PortStep::Failed(problem) => PortStepView::Failed(problem@),
        }
    }
}

/// What to do about a line without the prefix, by whether it is JSON. Such a line breaks the
/// protocol, and a port that may stand in it is not vouched for.
pub open spec fn unprefixed_step(valid_json: bool) -> PortStepView {
    if valid_json {
        PortStepView::Failed(PortProblemView::NotPortMessage)
    } else {
        PortStepView::Failed(PortProblemView::NotJson)
    }
}

/// What follows the prefix in a line, without the white space around either.
pub open spec fn message_part(line: Seq<char>) -> Seq<char> {
    trimmed(trimmed(line).skip(SIDEX_EXT_HOST_PORT_PREFIX@.len() as int))
}

/// What to do about the host's line.
pub open spec fn line_step(line: Seq<char>) -> PortStepView {
    if SIDEX_EXT_HOST_PORT_PREFIX@.is_prefix_of(trimmed(line)) {
        PortStepView::Decode(message_part(line))
    } else {
        unprefixed_step(parsed_json(trimmed(line)) is Some)
    }
}

/// What to do about what was decoded, in a host that was spawned as `session_id`.
pub open spec fn message_step(decoded: Result<PortMessage, String>, session_id: Seq<char>) -> PortStepView {
    match decoded {
        Err(detail) => PortStepView::Failed(PortProblemView::BadJson(detail@)),
        Ok(message) => if message.msg_type@ != PORT_MESSAGE_TYPE@ {
            PortStepView::Failed(PortProblemView::UnexpectedType)
        } else if message.session_id@ != session_id {
            PortStepView::Failed(PortProblemView::SessionMismatch)
        } else {
            PortStepView::Accepted { port: message.port }
        },
    }
}

/// Refuses a line without the prefix, by whether it is JSON.
pub fn refuse_unprefixed(valid_json: bool) -> (step: PortStep)
    ensures
        step@ == unprefixed_step(valid_json),
{
    if valid_json {
        PortStep::Failed(PortProblem::NotPortMessage)
    } else {
        PortStep::Failed(PortProblem::NotJson)
    }
}

/// Waits for the line of one host.
pub struct PortReader {
    session_id: String,
    started_at: u64,
}

/// `PortReader` with its text as characters.
pub struct PortReaderView {
    pub session_id: Seq<char>,
    pub started_at: u64,
}

impl View for PortReader {
    type V = PortReaderView;

    closed spec fn view(&self) -> PortReaderView {
        PortReaderView { session_id: self.session_id@, started_at: self.started_at }
    }
}

impl PortReader {
    /// Starts to wait, at the time `started_at`, for the host that was spawned as `session_id`.
    pub fn new(session_id: String, started_at: u64) -> (reader: Self)
        ensures
            reader@.session_id == session_id@,
            reader@.started_at == started_at,
    {
        PortReader { session_id, started_at }
    }

    /// Whether there is still time to wait. To be asked before each wait.
    pub fn check_time(&self, now: u64) -> (step: PortStep)
        ensures
            step@ == if nanos_between(self@.started_at, now) > PORT_TIMEOUT_NANOS {
                PortStepView::Failed(PortProblemView::Timeout)
            } else {
                PortStepView::Wait
            },
            step is Failed <==> now > self@.started_at + 15_000_000_000,
            step is Failed ==> step->Failed_0 is Timeout,
            step is Wait <==> now <= self@.started_at + 15_000_000_000,
    {
        if elapsed_nanos(self.started_at, now) > PORT_TIMEOUT_NANOS {
            PortStep::Failed(PortProblem::Timeout)
        } else {
            PortStep::Wait
        }
    }

    /// Takes what came of a wait.
    pub fn receive(&self, event: PortEvent) -> (step: PortStep)
        ensures
            step@ == match event {
                PortEvent::Line(line) => line_step(line@),
                PortEvent::Quiet => PortStepView::Wait,
                PortEvent::Disconnected => PortStepView::Failed(PortProblemView::ReaderExited),
            },
    {
        match event {
            PortEvent::Quiet => PortStep::Wait,
            PortEvent::Disconnected => PortStep::Failed(PortProblem::ReaderExited),
            PortEvent::Line(line) => {
                let line_text = trim(line.as_str());
                match strip_prefix(line_text, SIDEX_EXT_HOST_PORT_PREFIX) {
                    Some(rest) => {
                        assert(rest@ == trimmed(line@).skip(
                            SIDEX_EXT_HOST_PORT_PREFIX@.len() as int,
                        ));
                        assert(SIDEX_EXT_HOST_PORT_PREFIX@ == trimmed(line@).take(
                            SIDEX_EXT_HOST_PORT_PREFIX@.len() as int,
                        ));
                        PortStep::Decode(trim(rest).to_owned())
                    },
                    None => refuse_unprefixed(is_json(line_text)),
                }
            },
        }
    }

    /// Takes what the text of a `PortStep::Decode` was decoded to, or the decoder's error.
    pub fn judge(&self, decoded: Result<PortMessage, String>) -> (step: PortStep)
        ensures
            step@ == message_step(decoded, self@.session_id),
    {
        match decoded {
            Err(detail) => PortStep::Failed(PortProblem::BadJson(detail)),
            Ok(message) => {
                if !same_text(message.msg_type.as_str(), PORT_MESSAGE_TYPE) {
                    PortStep::Failed(PortProblem::UnexpectedType)
                } else if !same_text(message.session_id.as_str(), self.session_id.as_str()) {
                    PortStep::Failed(PortProblem::SessionMismatch)
                } else {
                    PortStep::Accepted { port: message.port }
                }
            },
        }
    }
}

/// What becomes of the host's line, where `decoded` is what the message in it, if it has one, is
/// decoded to.
pub open spec fn line_outcome(
    line: Seq<char>,
    decoded: Result<PortMessage, String>,
    session_id: Seq<char>,
) -> PortStepView {
    if line_step(line) is Decode {
        message_step(decoded, session_id)
    } else {
        line_step(line)
    }
}

/// A port is accepted exactly if the line has the prefix and its message is a port message and
/// names the session that the host was spawned as; the port is then the one that the message
/// gives.
pub proof fn only_its_own_message_vouches_for_a_hosts_port(
    line: Seq<char>,
    decoded: Result<PortMessage, String>,
    session_id: Seq<char>,
)
    ensures
        line_outcome(line, decoded, session_id) is Accepted <==> {
            &&& SIDEX_EXT_HOST_PORT_PREFIX@.is_prefix_of(trimmed(line))
            &&& decoded is Ok
            &&& decoded->Ok_0.msg_type@ == PORT_MESSAGE_TYPE@
            &&& decoded->Ok_0.session_id@ == session_id
        },
        line_outcome(line, decoded, session_id) is Accepted ==> line_outcome(
            line,
            decoded,
            session_id,
        ) == (PortStepView::Accepted { port: decoded->Ok_0.port }),
{
}

/// A line without the prefix is never taken for a port, whatever it says.
pub proof fn an_unprefixed_line_is_refused(
    line: Seq<char>,
    decoded: Result<PortMessage, String>,
    session_id: Seq<char>,
)
    requires
        !SIDEX_EXT_HOST_PORT_PREFIX@.is_prefix_of(trimmed(line)),
    ensures
        line_outcome(line, decoded, session_id) == PortStepView::Failed(
            if parsed_json(trimmed(line)) is None {
                PortProblemView::NotJson
            } else {
                PortProblemView::NotPortMessage
            },
        ),
{
}

/// Whatever becomes of the line, waiting ends with it: a port is accepted or the start fails.
pub proof fn a_line_ends_the_waiting(
    line: Seq<char>,
    decoded: Result<PortMessage, String>,
    session_id: Seq<char>,
)
    ensures
        line_outcome(line, decoded, session_id) is Accepted || line_outcome(
            line,
            decoded,
            session_id,
        ) is Failed,
{
}

/// A message that was written behind the prefix, with white space around the line, is handed over
/// to be decoded as it was written.
pub proof fn a_written_message_is_handed_over(
    front: Seq<char>,
    message: Seq<char>,
    back: Seq<char>,
)
    requires
        forall|i: int| 0 <= i < front.len() ==> white_space(#[trigger] front[i]),
        forall|i: int| 0 <= i < back.len() ==> white_space(#[trigger] back[i]),
        message.len() > 0,
        !white_space(message.first()),
        !white_space(message.last()),
    ensures
        line_step(front + (SIDEX_EXT_HOST_PORT_PREFIX@ + message) + back) == PortStepView::Decode(
            message,
        ),
{
    let core = SIDEX_EXT_HOST_PORT_PREFIX@ + message;
    reveal_strlit("SIDEX_EXT_HOST_PORT ");
    assert(core.first() == 'S');
    assert(core.last() == message.last());
    trimming_undoes_padding(front, core, back);
    assert(SIDEX_EXT_HOST_PORT_PREFIX@.is_prefix_of(core));
    assert(core.skip(SIDEX_EXT_HOST_PORT_PREFIX@.len() as int) == message);
    let none = Seq::<char>::empty();
    trimming_undoes_padding(none, message, none);
    assert(none + message + none == message);
}

/// A host has fifteen seconds to tell its port, to the nanosecond.
pub proof fn a_host_has_fifteen_seconds(started_at: u64, now: u64)
    ensures
        nanos_between(started_at, now) > PORT_TIMEOUT_NANOS <==> now > started_at + 15_000_000_000,
{
}

/// A message is handed over to be decoded as it was written, whatever white space stands around the
/// line and between the prefix and the message.
pub proof fn white_space_around_a_message_does_not_matter(
    front: Seq<char>,
    gap: Seq<char>,
    message: Seq<char>,
    back: Seq<char>,
)
    requires
        forall|i: int| 0 <= i < front.len() ==> white_space(#[trigger] front[i]),
        forall|i: int| 0 <= i < gap.len() ==> white_space(#[trigger] gap[i]),
        forall|i: int| 0 <= i < back.len() ==> white_space(#[trigger] back[i]),
        message.len() > 0,
        !white_space(message.first()),
        !white_space(message.last()),
    ensures
        line_step(front + ("SIDEX_EXT_HOST_PORT "@ + gap + message) + back)
            == PortStepView::Decode(message),
{
    let core = SIDEX_EXT_HOST_PORT_PREFIX@ + gap + message;
    let rest = gap + message;
    reveal_strlit("SIDEX_EXT_HOST_PORT ");
    assert(core.first() == 'S');
    assert(core.last() == message.last());
    trimming_undoes_padding(front, core, back);
    assert(SIDEX_EXT_HOST_PORT_PREFIX@.is_prefix_of(core));
    assert(core.skip(SIDEX_EXT_HOST_PORT_PREFIX@.len() as int) == rest);
    let none = Seq::<char>::empty();
    trimming_undoes_padding(gap, message, none);
    assert(rest + none == rest);
}

/// Only what follows the prefix is handed over to be decoded: the line is white space, the prefix,
/// the text and more white space, with nothing else around the text.
pub proof fn only_what_follows_the_prefix_is_decoded(line: Seq<char>)
    requires
        line_step(line) is Decode,
    ensures
        ({
            let text = line_step(line)->Decode_0;
            &&& text.len() > 0 ==> !white_space(text.first()) && !white_space(text.last())
            &&& exists|front: Seq<char>, gap: Seq<char>, back: Seq<char>|
                {
                    &&& trimmed(line) == #[trigger] (front + gap + text + back)
                    &&& front == "SIDEX_EXT_HOST_PORT "@
                    &&& forall|i: int| 0 <= i < gap.len() ==> white_space(gap[i])
                    &&& forall|i: int| 0 <= i < back.len() ==> white_space(back[i])
                }
        }),
{
    let front = SIDEX_EXT_HOST_PORT_PREFIX@;
    let rest = trimmed(line).skip(front.len() as int);
    let text = trimmed(rest);
    trimming_takes_exactly_the_white_space_at_the_ends(rest);
    let (gap, back) = choose|gap: Seq<char>, back: Seq<char>|
        {
            &&& rest == #[trigger] (gap + trimmed(rest) + back)
            &&& forall|i: int| 0 <= i < gap.len() ==> white_space(gap[i])
            &&& forall|i: int| 0 <= i < back.len() ==> white_space(back[i])
        };
    assert(trimmed(line) == front + rest);
    assert(front + rest == front + gap + text + back);
}

/// A message is judged by its type and then by its session: one that cannot be decoded is refused
/// with the decoder's reason, one of another type or of another session as such, and every other
/// gives its port.
pub proof fn each_message_is_judged_by_its_type_and_session(
    decoded: Result<PortMessage, String>,
    session_id: Seq<char>,
)
    ensures
        ({
            let step = message_step(decoded, session_id);
            &&& decoded is Err ==> step == PortStepView::Failed(
                PortProblemView::BadJson(decoded->Err_0@),
            )
            &&& decoded is Ok && decoded->Ok_0.msg_type@ != "sidex:server-port"@ ==> step
                == PortStepView::Failed(PortProblemView::UnexpectedType)
            &&& decoded is Ok && decoded->Ok_0.msg_type@ == "sidex:server-port"@
                && decoded->Ok_0.session_id@ != session_id ==> step == PortStepView::Failed(
                PortProblemView::SessionMismatch,
            )
            &&& decoded is Ok && decoded->Ok_0.msg_type@ == "sidex:server-port"@
                && decoded->Ok_0.session_id@ == session_id ==> step == (PortStepView::Accepted {
                port: decoded->Ok_0.port,
            })
        }),
{
}

/// What is seen of a step is the step, and of a problem the problem.
pub proof fn a_step_is_seen_as_it_is(step: PortStep)
    ensures
        step is Wait <==> step@ is Wait,
        step is Decode <==> step@ is Decode,
        step is Decode ==> step@->Decode_0 == step->Decode_0@,
        step is Accepted <==> step@ is Accepted,
        step is Accepted ==> step@->port == step->port,
        step is Failed <==> step@ is Failed,
        step is Failed ==> step@->Failed_0 == step->Failed_0@,
        step is Failed ==> {
            let problem = step->Failed_0;
            &&& problem is Timeout <==> problem@ is Timeout
            &&& problem is UnexpectedType <==> problem@ is UnexpectedType
            &&& problem is SessionMismatch <==> problem@ is SessionMismatch
            &&& problem is BadJson <==> problem@ is BadJson
            &&& problem is BadJson ==> problem@->BadJson_0 == problem->BadJson_0@
            &&& problem is NotPortMessage <==> problem@ is NotPortMessage
            &&& problem is NotJson <==> problem@ is NotJson
            &&& problem is ReaderExited <==> problem@ is ReaderExited
        },
{
}

} // verus!
