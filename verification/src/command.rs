//! Planning of light commands: from a parsed invocation to the state
//! transition to submit, and from the fetched device listing to the light
//! that receives it. The surrounding program performs the fetch and the
//! submission; every decision is taken here.

use vstd::prelude::*;
use crate::brightness::convert_brightness;
use crate::brightness::spec_convert_brightness;
use crate::directory::DirectoryFetch;
use crate::directory::resolve_device;
use crate::directory::spec_resolve;

verus! {

/// The desired light state transition, built immutably per invocation and
/// never persisted: whether to switch the light, and at what brightness.
#[derive(Debug, Clone, Copy)]
pub struct LightCommand {
    /// Whether to turn the light on or off.
    pub on: Option<bool>,
    /// The brightness to set.
    pub bri: Option<u8>,
}

impl Default for LightCommand {
    /// The empty command: no change requested yet.
    fn default() -> (r: LightCommand)
        ensures
            r.on is None,
            r.bri is None,
    {
        LightCommand { on: None, bri: None }
    }
}

impl LightCommand {
    /// The command with the light turned on.
    pub fn on(self) -> (r: LightCommand)
        ensures
            r.on == Some(true),
            r.bri == self.bri,
    {
        LightCommand { on: Some(true), ..self }
    }

    /// The command with the light turned off.
    pub fn off(self) -> (r: LightCommand)
        ensures
            r.on == Some(false),
            r.bri == self.bri,
    {
        LightCommand { on: Some(false), ..self }
    }

    /// The command with the brightness set to `bri`.
    pub fn with_bri(self, bri: u8) -> (r: LightCommand)
        ensures
            r.bri == Some(bri),
            r.on == self.on,
    {
        LightCommand { bri: Some(bri), ..self }
    }
}

/// The target of an on or off request, as the grammar allows it: a single
/// lamp by name, or a group by name.
pub enum Target {
    Lamp(String),
    Group(String),
}

/// A parsed invocation: the subcommand and its arguments.
pub enum CliRequest {
    On(Target),
    Off(Target),
    /// Dimming takes a lamp name and a brightness expression; the grammar
    /// offers no group dimming.
    Dim { lamp: String, brightness: String },
}

/// The next step the surrounding program must take for a request.
pub enum CommandStep {
    /// Fetch the device listing, resolve `lamp`, submit `command` to it.
    ResolveAndSubmit { lamp: String, command: LightCommand },
    /// Group commands are not supported: only report the group's name.
    GroupUnsupported { group: String, on: bool },
    /// The brightness expression was invalid — rejected at validation time
    /// before any handler runs — so nothing is submitted.
    RejectBrightness,
}

/// Plans a request. On and off on a lamp submit the corresponding command;
/// on and off on a group are an unsupported stub; dimming turns the lamp
/// on at the parsed brightness.
pub fn plan_command(request: CliRequest) -> (r: CommandStep)
    ensures
        (match request {
            CliRequest::On(Target::Lamp(lamp)) => r matches CommandStep::ResolveAndSubmit {
                lamp: l,
                command,
            } && l == lamp && command.on == Some(true) && command.bri is None,
            CliRequest::On(Target::Group(group)) => r == (CommandStep::GroupUnsupported {
                group,
                on: true,
            }),
            CliRequest::Off(Target::Lamp(lamp)) => r matches CommandStep::ResolveAndSubmit {
                lamp: l,
                command,
            } && l == lamp && command.on == Some(false) && command.bri is None,
            CliRequest::Off(Target::Group(group)) => r == (CommandStep::GroupUnsupported {
                group,
                on: false,
            }),
            CliRequest::Dim { lamp, brightness } => (match spec_convert_brightness(brightness@) {
                Some(b) => r matches CommandStep::ResolveAndSubmit { lamp: l, command } && l == lamp
                    && command.on == Some(true) && command.bri == Some(b),
                None => r == CommandStep::RejectBrightness,
            }),
        }),
{
    match request {
        CliRequest::On(Target::Lamp(lamp)) => CommandStep::ResolveAndSubmit {
            lamp,
            command: LightCommand::default().on(),
        },
        CliRequest::On(Target::Group(group)) => CommandStep::GroupUnsupported { group, on: true },
        CliRequest::Off(Target::Lamp(lamp)) => CommandStep::ResolveAndSubmit {
            lamp,
            command: LightCommand::default().off(),
        },
        CliRequest::Off(Target::Group(group)) => CommandStep::GroupUnsupported { group, on: false },
        CliRequest::Dim { lamp, brightness } => match convert_brightness(brightness.as_str()) {
            Some(b) => CommandStep::ResolveAndSubmit {
                lamp,
                command: LightCommand::default().on().with_bri(b),
            },
            None => CommandStep::RejectBrightness,
        },
    }
}

/// A fully resolved submission: which light, and what command.
#[derive(Debug, Clone, Copy)]
pub struct Submission {
    pub light_id: usize,
    pub command: LightCommand,
}

/// Resolves the planned lamp against the fetched listing: the first
/// case-insensitive match receives the command; no match, or a failed
/// fetch, submits nothing.
pub fn build_submission(lamp: &str, command: LightCommand, fetch: &DirectoryFetch) -> (r: Option<
    Submission,
>)
    ensures
        (match spec_resolve(*fetch, lamp@) {
            Some(id) => r matches Some(sub) && sub.light_id == id && sub.command == command,
            None => r is None,
        }),
{
    match resolve_device(fetch, lamp) {
        Some(light_id) => Some(Submission { light_id, command }),
        None => None,
    }
}

} // verus!
