//! Per-command parameters: the bytes to transmit, an optional post-write
//! processing delay, and an optional expected-response shape, together with
//! the fluent builder that accumulates them.

use vstd::prelude::*;

verus! {

/// Allowable baudrates used when changing the chip to UART mode.
#[derive(Clone, Copy, Debug, PartialEq, Eq, Structural)]
pub enum BpsRate {
    Bps300,
    Bps1200,
    Bps2400,
    Bps9600,
    Bps19200,
    Bps38400,
    Bps57600,
    Bps115200,
}

/// The numeric baud rate that a `BpsRate` variant stands for.
pub open spec fn spec_bps(rate: BpsRate) -> u32 {
    match rate {
        BpsRate::Bps300 => 300,
        BpsRate::Bps1200 => 1200,
        BpsRate::Bps2400 => 2400,
        BpsRate::Bps9600 => 9600,
        BpsRate::Bps19200 => 19200,
        BpsRate::Bps38400 => 38400,
        BpsRate::Bps57600 => 57600,
        BpsRate::Bps115200 => 115200,
    }
}

impl BpsRate {
    /// The baud rate in bits per second.
    pub fn bps(&self) -> (r: u32)
        ensures
            r == spec_bps(*self),
    {
        match self {
            BpsRate::Bps300 => 300,
            BpsRate::Bps1200 => 1200,
            BpsRate::Bps2400 => 2400,
            BpsRate::Bps9600 => 9600,
            BpsRate::Bps19200 => 19200,
            BpsRate::Bps38400 => 38400,
            BpsRate::Bps57600 => 57600,
            BpsRate::Bps115200 => 115200,
        }
    }
}

/// Allowed responses from I2C read interactions. Purely descriptive: every
/// successful payload is parsed the same way; the shape documents what the
/// caller expects the decoded text to mean.
#[derive(Clone, Copy, Debug, PartialEq, Eq, Structural)]
pub enum CommandResponse {
    Ack,
    CalibrationState,
    DataloggerInterval,
    DeviceInformation,
    ExportInfo,
    Export,
    LedState,
    MemoryRecall,
    MemoryRecallLastLocation,
    ProtocolLockState,
    Reading,
    ScaleState,
    Status,
}

/// The abstract value of a `CommandOptions`: the command text, the optional
/// processing delay in milliseconds, and the optional expected response.
#[verifier::ext_equal]
pub struct OptionsView {
    pub command: Seq<char>,
    pub delay: Option<u64>,
    pub response: Option<CommandResponse>,
}

/// Command-related parameters used to build I2C write/read interactions.
#[derive(Debug)]
pub struct CommandOptions {
    pub command: String,
    pub delay: Option<u64>,
    pub response: Option<CommandResponse>,
}

impl View for CommandOptions {
    type V = OptionsView;

    open spec fn view(&self) -> OptionsView {
        OptionsView { command: self.command@, delay: self.delay, response: self.response }
    }
}

/// The record with its command text replaced.
pub open spec fn spec_set_command(v: OptionsView, command: Seq<char>) -> OptionsView {
    OptionsView { command, delay: v.delay, response: v.response }
}

/// The record with its delay replaced.
pub open spec fn spec_set_delay(v: OptionsView, delay: u64) -> OptionsView {
    OptionsView { command: v.command, delay: Some(delay), response: v.response }
}

/// The record with its expected response replaced.
pub open spec fn spec_set_response(v: OptionsView, response: CommandResponse) -> OptionsView {
    OptionsView { command: v.command, delay: v.delay, response: Some(response) }
}

/// Builds commands: accumulates the command text, the delay and the expected
/// response in any order, then takes an immutable snapshot with `finish`.
pub trait CommandBuilder: Sized {
    /// The parameter record accumulated so far.
    spec fn builder_view(&self) -> OptionsView;

    /// Takes the snapshot that one interaction consumes.
    fn finish(&self) -> (r: Self)
        ensures
            r.builder_view() == self.builder_view(),
    ;

    /// Sets the ASCII string for the command to be sent.
    fn set_command(&mut self, command_str: String)
        ensures
            final(self).builder_view() == spec_set_command(
                old(self).builder_view(),
                command_str@,
            ),
    ;

    /// Sets the chip's processing delay, in milliseconds.
    fn set_delay(&mut self, delay: u64)
        ensures
            final(self).builder_view() == spec_set_delay(old(self).builder_view(), delay),
    ;

    /// Sets the kind of reply the command is expected to produce.
    fn set_response(&mut self, response: CommandResponse)
        ensures
            final(self).builder_view() == spec_set_response(old(self).builder_view(), response),
    ;
}

impl CommandBuilder for CommandOptions {
    open spec fn builder_view(&self) -> OptionsView {
        self@
    }

    fn finish(&self) -> (r: CommandOptions) {
        self.clone()
    }

    fn set_command(&mut self, command_str: String) {
        self.command = command_str;
    }

    fn set_delay(&mut self, delay: u64) {
        self.delay = Some(delay);
    }

    fn set_response(&mut self, response: CommandResponse) {
        self.response = Some(response);
    }
}

/// Useful for properly building I2C parameters from a command: the higher
/// command-catalog layer maps each semantic chip command onto the parameters
/// of one interaction.
pub trait I2cCommand {
    fn build(&self) -> CommandOptions;
}

/// Setting the command text, the delay and the expected response overwrites
/// three independent fields, so every order of the three setters yields the
/// same record, whatever record each starts from.
pub proof fn lemma_builder_order_independent(
    v1: OptionsView,
    v2: OptionsView,
    c: Seq<char>,
    d: u64,
    r: CommandResponse,
)
    ensures
        spec_set_response(spec_set_delay(spec_set_command(v1, c), d), r) == (OptionsView {
            command: c,
            delay: Some(d),
            response: Some(r),
        }),
        spec_set_delay(spec_set_response(spec_set_command(v1, c), r), d) == (OptionsView {
            command: c,
            delay: Some(d),
            response: Some(r),
        }),
        spec_set_response(spec_set_command(spec_set_delay(v1, d), c), r) == (OptionsView {
            command: c,
            delay: Some(d),
            response: Some(r),
        }),
        spec_set_command(spec_set_response(spec_set_delay(v1, d), r), c) == (OptionsView {
            command: c,
            delay: Some(d),
            response: Some(r),
        }),
        spec_set_delay(spec_set_command(spec_set_response(v1, r), c), d) == (OptionsView {
            command: c,
            delay: Some(d),
            response: Some(r),
        }),
        spec_set_command(spec_set_delay(spec_set_response(v1, r), d), c) == (OptionsView {
            command: c,
            delay: Some(d),
            response: Some(r),
        }),
        spec_set_response(spec_set_delay(spec_set_command(v1, c), d), r) == spec_set_command(
            spec_set_delay(spec_set_response(v2, r), d),
            c,
        ),
{
}

impl Clone for CommandOptions {
    fn clone(&self) -> (r: Self)
        ensures
            r@ == self@,
    {
        CommandOptions { command: self.command.clone(), delay: self.delay, response: self.response }
    }
}

impl Default for CommandOptions {
    /// The empty record: no command text, no delay, no expected response.
    fn default() -> (r: Self)
        ensures
            r@ == (OptionsView {
                command: Seq::<char>::empty(),
                delay: None,
                response: None,
            }),
    {
        CommandOptions { command: String::new(), delay: None, response: None }
    }
}

impl PartialEq for CommandOptions {
    fn eq(&self, other: &Self) -> (r: bool) {
        let cmd_eq = self.command == other.command;
        let delay_eq = match (self.delay, other.delay) {
            (Some(a), Some(b)) => a == b,
            (None, None) => true,
            _ => false,
        };
        let resp_eq = match (self.response, other.response) {
            (Some(a), Some(b)) => a == b,
            (None, None) => true,
            _ => false,
        };
        cmd_eq && delay_eq && resp_eq
    }
}

impl Eq for CommandOptions {

}

impl vstd::std_specs::cmp::PartialEqSpecImpl for CommandOptions {
    open spec fn obeys_eq_spec() -> bool {
        true
    }

    open spec fn eq_spec(&self, other: &Self) -> bool {
        self@ == other@
    }
}

} // verus!
