use vstd::prelude::*;
use crate::errors::ProcessorError;
use rusoto_core::Region;

verus! {

#[verifier::external_type_specification]
#[verifier::external_body]
pub struct ExRegion(Region);

pub type Queue = String;

pub type Port = u32;

/// Where the queue lives: on a local emulator listening on a port, or in
/// a region of the cloud service.
#[derive(Debug, PartialEq)]
pub enum Mode {
    Local(Port, Queue),
    AWS(Region, Queue),
}

/// The options found on the command line, not yet checked.
#[derive(Debug)]
pub struct Cli {
    pub maybe_local: Option<String>,
    pub maybe_region: Option<String>,
    pub maybe_queue: Option<String>,
}

pub open spec fn is_digit(c: char) -> bool {
    '0' <= c && c <= '9'
}

/// The value of a run of decimal digits.
pub open spec fn digits_value(s: Seq<char>) -> int
    decreases s.len(),
{
    if s.len() == 0 {
        0
    } else {
        digits_value(s.drop_last()) * 10 + (s.last() as int - '0' as int)
    }
}

/// The digits of a number written with an optional leading `+`.
pub open spec fn unsigned_digits(s: Seq<char>) -> Seq<char> {
    if s.len() > 0 && s[0] == '+' {
        s.drop_first()
    } else {
        s
    }
}

/// The `u32` a text stands for: an optional `+` followed by at least one
/// decimal digit and nothing else, whose value fits.
pub open spec fn u32_text(s: Seq<char>) -> Option<u32> {
    let d = unsigned_digits(s);
    if d.len() > 0 && (forall|i: int| 0 <= i < d.len() ==> is_digit(#[trigger] d[i]))
        && digits_value(d) <= u32::MAX {
        Some(digits_value(d) as u32)
    } else {
        None
    }
}

/// Whether a text names a region of the cloud service.
pub uninterp spec fn region_name_known(s: Seq<char>) -> bool;

/// Relies on `u32`'s `FromStr`: it accepts an optional `+` and then only
/// decimal digits, and fails where the value does not fit.
#[verifier::external_body]
fn parse_u32(s: &str) -> (r: Option<u32>)
    ensures
        r == u32_text(s@),
{
    s.parse::<u32>().ok()
}

/// Relies on rusoto_core's `Region::from_str`: it gives a region exactly
/// for the names it knows, and its answer depends on the text alone.
#[verifier::external_body]
fn parse_region(s: &str) -> (r: Option<Region>)
    ensures
        r is Some <==> region_name_known(s@),
{
    <Region as std::str::FromStr>::from_str(s).ok()
}

impl Cli {
    /// The options as found on the command line.
    pub fn new(
        maybe_local: Option<String>,
        maybe_region: Option<String>,
        maybe_queue: Option<String>,
    ) -> (r: Self)
        ensures
            r.maybe_local == maybe_local,
            r.maybe_region == maybe_region,
            r.maybe_queue == maybe_queue,
    {
        Self::new_with(maybe_local, maybe_region, maybe_queue)
    }

    pub fn new_with(
        maybe_local: Option<String>,
        maybe_region: Option<String>,
        maybe_queue: Option<String>,
    ) -> (r: Self)
        ensures
            r.maybe_local == maybe_local,
            r.maybe_region == maybe_region,
            r.maybe_queue == maybe_queue,
    {
        Cli { maybe_local, maybe_region, maybe_queue }
    }

    /// Decides where the queue lives. A queue name is required; a local
    /// port, where given, wins over a region.
    pub fn determine_mode(&self) -> (r: Result<Mode, ProcessorError>)
        ensures
            self.maybe_queue is None ==> r == Err::<Mode, ProcessorError>(
                ProcessorError::CommandLineError("No queue was specified"),
            ),
            self.maybe_queue is Some && self.maybe_local is Some ==> r == match u32_text(
                self.maybe_local->0@,
            ) {
                Some(port) => Ok(Mode::Local(port, self.maybe_queue->0)),
                None => Err(ProcessorError::CommandLineError("Invalid Port")),
            },
            self.maybe_queue is Some && self.maybe_local is None && self.maybe_region is Some
                ==> if region_name_known(self.maybe_region->0@) {
                r matches Ok(Mode::AWS(_, q)) && q == self.maybe_queue->0
            } else {
                r == Err::<Mode, ProcessorError>(
                    ProcessorError::CommandLineError("Invalid region specified"),
                )
            },
            self.maybe_queue is Some && self.maybe_local is None && self.maybe_region is None
                ==> r == Err::<Mode, ProcessorError>(
                ProcessorError::CommandLineError("No local or region parameter was specified"),
            ),
    {
        match &self.maybe_queue {
            None => Err(ProcessorError::CommandLineError("No queue was specified")),
            Some(queue) => match &self.maybe_local {
                Some(port_string) => match parse_u32(port_string.as_str()) {
                    Some(port) => Ok(Mode::Local(port, queue.clone())),
                    None => Err(ProcessorError::CommandLineError("Invalid Port")),
                },
                None => match &self.maybe_region {
                    Some(region_string) => match parse_region(region_string.as_str()) {
                        Some(region) => Ok(Mode::AWS(region, queue.clone())),
                        None => Err(ProcessorError::CommandLineError("Invalid region specified")),
                    },
                    None => Err(
                        ProcessorError::CommandLineError(
                            "No local or region parameter was specified",
                        ),
                    ),
                },
            },
        }
    }
}

} // verus!
