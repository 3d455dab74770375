//! The protocol engine: an explicit state machine for one command
//! interaction. The engine decides the transmit/delay/receive sequence and
//! the retry policy; the caller owns the bus handle, performs each requested
//! bus operation (write, sleep, read) and feeds its outcome back in. One
//! interaction performs one or two writes, zero or two reads, and retries
//! each phase exactly once after a fixed backoff.

use vstd::prelude::*;

use crate::params::CommandOptions;
use crate::response::{
    decoded_payload, lemma_ascii_bytes_valid_utf8, lemma_masked_is_ascii,
    parse_data_ascii_bytes, payload, response_code, spec_response_code, ResponseCode,
    MAX_RESPONSE_LENGTH,
};

verus! {

/// How long the caller must wait after a failed bus operation before the
/// single retry, in milliseconds: the chip's settling time after a glitch.
pub const BUS_RETRY_BACKOFF_MS: u64 = 300;

/// Which phase of an interaction failed for good.
#[derive(Clone, Copy, Debug, PartialEq, Eq, Structural)]
pub enum ErrorKind {
    /// The command could not be sent: both writes failed.
    Transmit,
    /// The reply could not be read: both reads failed.
    Receive,
    /// The reply's payload was not valid text.
    Decode,
}

/// A fatal interaction error: the phase that failed, and the underlying
/// transport failure's description when one was reported.
#[derive(Debug)]
pub struct EzoError {
    pub kind: ErrorKind,
    pub cause: Option<String>,
}

/// The non-error outcome of one interaction, distinguishable by chip state.
#[derive(Debug)]
pub enum Reply {
    /// The chip answered with a successful code; the decoded payload text.
    Data(String),
    /// The chip reported that no data was expected.
    NoDataExpected,
    /// The chip is still processing the command.
    Pending,
    /// The chip reported a device error.
    DeviceError,
    /// The chip sent a code outside the defined set.
    UnknownError,
    /// The command expected no reply, so none was read.
    NoReply,
}

impl Reply {
    /// The decoded text: the payload of a successful reply, and the empty
    /// string for every other outcome.
    pub fn text(&self) -> (t: String)
        ensures
            self matches Reply::Data(s) ==> t@ == s@,
            !(self is Data) ==> t@ == Seq::<char>::empty(),
    {
        match self {
            Reply::Data(s) => s.clone(),
            _ => String::new(),
        }
    }
}

/// The outcome of the bus operation the engine last asked for.
#[derive(Debug)]
pub enum Event {
    /// The write went through.
    WriteOk,
    /// The write failed; the transport's description of the failure.
    WriteFailed(String),
    /// The requested processing delay has been slept out.
    DelayElapsed,
    /// The read went through and filled this buffer.
    ReadOk(Vec<u8>),
    /// The read failed; the transport's description of the failure.
    ReadFailed(String),
}

/// The bus operation the caller must perform next.
#[derive(Clone, Copy, Debug, PartialEq, Eq, Structural)]
pub enum Action {
    /// Write the command bytes.
    Write,
    /// Sleep `BUS_RETRY_BACKOFF_MS`, then write the command bytes again.
    BackoffWrite,
    /// Sleep this many milliseconds: the chip's own processing time.
    Delay(u64),
    /// Read a buffer of `MAX_RESPONSE_LENGTH` bytes.
    Read,
    /// Sleep `BUS_RETRY_BACKOFF_MS`, then read again.
    BackoffRead,
    /// The interaction is over; collect the outcome.
    Stop,
}

/// Where the engine stands within one interaction.
#[derive(Debug)]
pub enum Phase {
    /// Nothing sent yet; the first write is due.
    Started,
    /// The first write failed; the backed-off retry is due.
    WriteRetry,
    /// The write went through; this processing delay is due.
    Delaying(u64),
    /// The first read is due.
    AwaitRead,
    /// The first read failed; the backed-off retry is due.
    ReadRetry,
    /// The interaction is over with this outcome.
    Done(Result<Reply, EzoError>),
}

/// The phase that follows the processing delay (or a write, when the command
/// carries no delay): read when a response is expected, otherwise the
/// interaction is over with the empty no-reply outcome.
pub open spec fn spec_phase_after_delay(p: CommandOptions) -> Phase {
    if p.response is Some {
        Phase::AwaitRead
    } else {
        Phase::Done(Ok(Reply::NoReply))
    }
}

/// The phase that follows a successful write: the command's own processing
/// delay when it has one, else straight on.
pub open spec fn spec_phase_after_write(p: CommandOptions) -> Phase {
    match p.delay {
        Some(d) => Phase::Delaying(d),
        None => spec_phase_after_delay(p),
    }
}

/// The outcome of classifying and decoding a read reply buffer: the first
/// byte picks the response code; a successful code has the remaining bytes
/// parsed as the payload, which is fatal to the interaction only when the
/// parsed bytes are not valid text.
pub open spec fn read_outcome_rel(buf: Seq<u8>, ph1: Phase) -> bool {
    match spec_response_code(buf[0]) {
        ResponseCode::Success => {
            let bytes = decoded_payload(buf.skip(1));
            if vstd::utf8::valid_utf8(bytes) {
                ph1 matches Phase::Done(Ok(Reply::Data(s))) && s@ == vstd::utf8::decode_utf8(
                    bytes,
                )
            } else {
                ph1 matches Phase::Done(Err(err)) && err.kind == ErrorKind::Decode && err.cause
                    is None
            }
        },
        ResponseCode::NoDataExpected => ph1 == Phase::Done(Ok(Reply::NoDataExpected)),
        ResponseCode::Pending => ph1 == Phase::Done(Ok(Reply::Pending)),
        ResponseCode::DeviceError => ph1 == Phase::Done(Ok(Reply::DeviceError)),
        ResponseCode::UnknownError => ph1 == Phase::Done(Ok(Reply::UnknownError)),
    }
}

/// Which events answer which phase: a write outcome while a write is due, a
/// read outcome (with a full-size buffer) while a read is due, the elapsed
/// delay while delaying. A finished engine accepts no event.
pub open spec fn event_expected(ph: Phase, e: Event) -> bool {
    match ph {
        Phase::Started => e is WriteOk || e is WriteFailed,
        Phase::WriteRetry => e is WriteOk || e is WriteFailed,
        Phase::Delaying(_) => e is DelayElapsed,
        Phase::AwaitRead => (e matches Event::ReadOk(buf) && buf@.len() == MAX_RESPONSE_LENGTH)
            || e is ReadFailed,
        Phase::ReadRetry => (e matches Event::ReadOk(buf) && buf@.len() == MAX_RESPONSE_LENGTH)
            || e is ReadFailed,
        Phase::Done(_) => false,
    }
}

/// The engine's full transition relation: what phase follows `ph0` on event
/// `e` for a command with parameters `p`. It holds of no event a phase does
/// not expect.
pub open spec fn handle_rel(p: CommandOptions, ph0: Phase, e: Event, ph1: Phase) -> bool {
    match ph0 {
        Phase::Started => match e {
            Event::WriteOk => ph1 == spec_phase_after_write(p),
            Event::WriteFailed(_) => ph1 == Phase::WriteRetry,
            _ => false,
        },
        Phase::WriteRetry => match e {
            Event::WriteOk => ph1 == spec_phase_after_write(p),
            Event::WriteFailed(c) => ph1 == Phase::Done(
                Err(EzoError { kind: ErrorKind::Transmit, cause: Some(c) }),
            ),
            _ => false,
        },
        Phase::Delaying(_) => match e {
            Event::DelayElapsed => ph1 == spec_phase_after_delay(p),
            _ => false,
        },
        Phase::AwaitRead => match e {
            Event::ReadOk(buf) => buf@.len() == MAX_RESPONSE_LENGTH && read_outcome_rel(
                buf@,
                ph1,
            ),
            Event::ReadFailed(_) => ph1 == Phase::ReadRetry,
            _ => false,
        },
        Phase::ReadRetry => match e {
            Event::ReadOk(buf) => buf@.len() == MAX_RESPONSE_LENGTH && read_outcome_rel(
                buf@,
                ph1,
            ),
            Event::ReadFailed(c) => ph1 == Phase::Done(
                Err(EzoError { kind: ErrorKind::Receive, cause: Some(c) }),
            ),
            _ => false,
        },
        Phase::Done(_) => false,
    }
}

/// The bus operation each phase waits on.
pub open spec fn action_for(ph: Phase) -> Action {
    match ph {
        Phase::Started => Action::Write,
        Phase::WriteRetry => Action::BackoffWrite,
        Phase::Delaying(d) => Action::Delay(d),
        Phase::AwaitRead => Action::Read,
        Phase::ReadRetry => Action::BackoffRead,
        Phase::Done(_) => Action::Stop,
    }
}

/// Relies on `String::from_utf8`: it returns `Ok` exactly when the bytes are
/// a valid UTF-8 encoding, and the returned string's characters are then the
/// scalars those bytes decode to.
#[verifier::external_body]
fn bytes_to_string(bytes: Vec<u8>) -> (r: Option<String>)
    ensures
        r is Some <==> vstd::utf8::valid_utf8(bytes@),
        r matches Some(s) ==> s@ == vstd::utf8::decode_utf8(bytes@),
{
    String::from_utf8(bytes).ok()
}

fn advance_after_delay(params: &CommandOptions) -> (ph: Phase)
    ensures
        ph == spec_phase_after_delay(*params),
{
    if params.response.is_some() {
        Phase::AwaitRead
    } else {
        Phase::Done(Ok(Reply::NoReply))
    }
}

fn advance_after_write(params: &CommandOptions) -> (ph: Phase)
    ensures
        ph == spec_phase_after_write(*params),
{
    match params.delay {
        Some(d) => Phase::Delaying(d),
        None => advance_after_delay(params),
    }
}

fn read_outcome(buf: Vec<u8>) -> (ph: Phase)
    requires
        buf@.len() >= 1,
    ensures
        read_outcome_rel(buf@, ph),
{
    let code = response_code(buf[0]);
    match code {
        ResponseCode::Success => {
            let tail = vstd::slice::slice_subrange(buf.as_slice(), 1, buf.len());
            proof {
                assert(tail@ =~= buf@.skip(1));
            }
            let payload_bytes = parse_data_ascii_bytes(tail);
            proof {
                lemma_masked_is_ascii(payload(buf@.skip(1)));
                lemma_ascii_bytes_valid_utf8(payload_bytes@);
            }
            match bytes_to_string(payload_bytes) {
                Some(s) => Phase::Done(Ok(Reply::Data(s))),
                None => vstd::pervasive::unreached(),
            }
        },
        ResponseCode::NoDataExpected => Phase::Done(Ok(Reply::NoDataExpected)),
        ResponseCode::Pending => Phase::Done(Ok(Reply::Pending)),
        ResponseCode::DeviceError => Phase::Done(Ok(Reply::DeviceError)),
        ResponseCode::UnknownError => Phase::Done(Ok(Reply::UnknownError)),
    }
}

/// One command interaction in flight: the parameters it was started with and
/// the phase it stands in.
#[derive(Debug)]
pub struct Engine {
    pub params: CommandOptions,
    pub phase: Phase,
}

impl Engine {
    /// Starts one interaction; the first action is to write the command.
    pub fn new(params: CommandOptions) -> (e: Engine)
        ensures
            e.params == params,
            e.phase == Phase::Started,
    {
        Engine { params, phase: Phase::Started }
    }

    /// The bus operation the caller must perform next.
    pub fn next_action(&self) -> (a: Action)
        ensures
            a == action_for(self.phase),
    {
        match &self.phase {
            Phase::Started => Action::Write,
            Phase::WriteRetry => Action::BackoffWrite,
            Phase::Delaying(d) => Action::Delay(*d),
            Phase::AwaitRead => Action::Read,
            Phase::ReadRetry => Action::BackoffRead,
            Phase::Done(_) => Action::Stop,
        }
    }

    /// Feeds the outcome of the last requested bus operation back in and
    /// moves the interaction one phase forward.
    pub fn handle(&mut self, event: Event)
        requires
            event_expected(old(self).phase, event),
        ensures
            final(self).params == old(self).params,
            handle_rel(old(self).params, old(self).phase, event, final(self).phase),
    {
        let next: Phase = match event {
            Event::WriteOk => match &self.phase {
                Phase::Started | Phase::WriteRetry => advance_after_write(&self.params),
                _ => vstd::pervasive::unreached(),
            },
            Event::WriteFailed(c) => match &self.phase {
                Phase::Started => Phase::WriteRetry,
                Phase::WriteRetry => Phase::Done(
                    Err(EzoError { kind: ErrorKind::Transmit, cause: Some(c) }),
                ),
                _ => vstd::pervasive::unreached(),
            },
            Event::DelayElapsed => match &self.phase {
                Phase::Delaying(_) => advance_after_delay(&self.params),
                _ => vstd::pervasive::unreached(),
            },
            Event::ReadOk(buf) => match &self.phase {
                Phase::AwaitRead | Phase::ReadRetry => read_outcome(buf),
                _ => vstd::pervasive::unreached(),
            },
            Event::ReadFailed(c) => match &self.phase {
                Phase::AwaitRead => Phase::ReadRetry,
                Phase::ReadRetry => Phase::Done(
                    Err(EzoError { kind: ErrorKind::Receive, cause: Some(c) }),
                ),
                _ => vstd::pervasive::unreached(),
            },
        };
        self.phase = next;
    }

    /// True when the interaction is over and an outcome is available.
    pub fn is_done(&self) -> (b: bool)
        ensures
            b == (self.phase is Done),
    {
        match &self.phase {
            Phase::Done(_) => true,
            _ => false,
        }
    }

    /// The interaction's outcome; only a finished engine has one.
    pub fn into_outcome(self) -> (r: Result<Reply, EzoError>)
        requires
            self.phase is Done,
        ensures
            self.phase == Phase::Done(r),
    {
        match self.phase {
            Phase::Done(r) => r,
            _ => vstd::pervasive::unreached(),
        }
    }
}

/// A command with no expected response never gives rise to a read: from any
/// phase such a command can stand in, no step leads to a read action. A
/// successful write completes it with the empty no-reply outcome, at once
/// when it carries no delay, otherwise as soon as the delay has elapsed.
pub proof fn lemma_no_response_never_reads(p: CommandOptions, ph0: Phase, e: Event, ph1: Phase)
    requires
        p.response is None,
        !(ph0 is AwaitRead),
        !(ph0 is ReadRetry),
        handle_rel(p, ph0, e, ph1),
    ensures
        !(ph1 is AwaitRead),
        !(ph1 is ReadRetry),
        action_for(ph1) != Action::Read,
        action_for(ph1) != Action::BackoffRead,
        (e is WriteOk && p.delay is None) ==> ph1 == Phase::Done(Ok(Reply::NoReply)),
        e is DelayElapsed ==> ph1 == Phase::Done(Ok(Reply::NoReply)),
{
}

/// A command that expects a response always reaches the read: the write
/// leads to the delay when one is set and to the read otherwise, and the
/// elapsed delay always leads to the read.
pub proof fn lemma_response_reaches_read(p: CommandOptions, ph0: Phase, e: Event, ph1: Phase)
    requires
        p.response is Some,
        handle_rel(p, ph0, e, ph1),
    ensures
        (e is WriteOk && p.delay is None) ==> ph1 is AwaitRead,
        (e is WriteOk && p.delay is Some) ==> ph1 is Delaying,
        e is DelayElapsed ==> ph1 is AwaitRead,
{
}

/// A second consecutive failure of the same phase is fatal: the engine
/// surfaces a transmit (or receive) error carrying the reported cause, asks
/// for no further bus operation, and accepts no further event.
pub proof fn lemma_double_failure_fatal(p: CommandOptions, ph0: Phase, e: Event, ph1: Phase)
    requires
        handle_rel(p, ph0, e, ph1),
    ensures
        (ph0 is WriteRetry && e is WriteFailed) ==> (ph1 matches Phase::Done(Err(err))
            && err.kind == ErrorKind::Transmit),
        (ph0 is ReadRetry && e is ReadFailed) ==> (ph1 matches Phase::Done(Err(err)) && err.kind
            == ErrorKind::Receive),
        ph1 is Done ==> action_for(ph1) == Action::Stop,
        ph1 is Done ==> forall|e2: Event, ph2: Phase| !handle_rel(p, ph1, e2, ph2),
{
}

/// The engine never reports a decode error: clearing the high bit leaves
/// every payload byte in the ASCII range, and ASCII bytes are always valid
/// text.
pub proof fn lemma_decode_never_fails(p: CommandOptions, ph0: Phase, e: Event, ph1: Phase)
    requires
        handle_rel(p, ph0, e, ph1),
    ensures
        !(ph1 matches Phase::Done(Err(err)) && err.kind == ErrorKind::Decode),
{
    match e {
        Event::ReadOk(buf) => {
            lemma_masked_is_ascii(payload(buf@.skip(1)));
            lemma_ascii_bytes_valid_utf8(decoded_payload(buf@.skip(1)));
        },
        _ => {},
    }
}

} // verus!
