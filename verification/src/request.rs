//! The collection request model and its validation: the stringly-typed
//! parameters a caller hands in are checked and turned into a well-formed
//! request before any sampling or I/O is attempted.

use vstd::prelude::*;
use vstd::string::StringExecFns;
use vstd::string::StringSliceAdditionalSpecFns;

use crate::errors::ValidationError;
use crate::parse::{dec_value, is_count_in_range, parse_baud, parse_count};

verus! {

/// Where samples come from.
#[derive(Clone, Debug)]
pub enum SampleSource {
    /// The operating system's CSPRNG.
    OsEntropy,
    /// A serial device, opened at the given baud rate.
    SerialDevice { port: String, baud_rate: u32 },
}

/// Where output lines go.
#[derive(Clone, Debug)]
pub enum Destination {
    /// Append one newline-terminated record per sample to a file.
    File { path: String },
    /// Deliver each line through the progress reporter only.
    Screen,
    /// Keep nothing; report only completion.
    Discard,
}

/// The destination's kind, without the file path.
#[derive(Clone, Copy, Debug, PartialEq, Eq, Structural)]
pub enum SinkKind {
    File,
    Screen,
    Discard,
}

impl Destination {
    /// This destination's kind.
    pub fn kind(&self) -> (k: SinkKind)
        ensures
            k is File <==> *self is File,
            k is Screen <==> *self is Screen,
            k is Discard <==> *self is Discard,
    {
        match self {
            Destination::File { .. } => SinkKind::File,
            Destination::Screen => SinkKind::Screen,
            Destination::Discard => SinkKind::Discard,
        }
    }
}

/// A validated collection request.
#[derive(Clone, Debug)]
pub struct CollectionRequest {
    pub source: SampleSource,
    pub sample_count: usize,
    pub destination: Destination,
    pub inject_to_kernel_pool: bool,
}

impl CollectionRequest {
    /// Validation's guarantee: a positive count, a non-empty path for a
    /// file destination, and a positive baud rate for a serial source.
    pub open spec fn wf(&self) -> bool {
        &&& self.sample_count >= 1
        &&& (self.destination matches Destination::File { path } ==> path@.len() > 0)
        &&& (self.source matches SampleSource::SerialDevice { baud_rate, .. } ==> baud_rate >= 1)
    }
}

/// Compares two string slices by contents.
pub fn str_eq(a: &str, b: &str) -> (r: bool)
    ensures
        r == (a@ == b@),
{
    String::from_str(a) == String::from_str(b)
}

/// `file_path` supplies a usable path: present and non-empty.
pub open spec fn path_usable(file_path: Option<String>) -> bool {
    file_path matches Some(p) && p@.len() > 0
}

/// `output_dest` names one of the three accepted destinations.
pub open spec fn dest_known(output_dest: Seq<char>) -> bool {
    output_dest == "file"@ || output_dest == "screen"@ || output_dest == "none"@
}

/// Checks a raw request and builds a well-formed `CollectionRequest`, or
/// reports the first failure in the order the checks run: sample count,
/// destination and path, port presence, baud rate.  No I/O is performed.
pub fn validate_request(
    port: Option<String>,
    baud_rate: &str,
    output_dest: &str,
    num_samples: &str,
    file_path: Option<String>,
    entropy_direct: bool,
) -> (r: Result<CollectionRequest, ValidationError>)
    ensures
        r matches Err(e) ==> ({
            ||| (e is InvalidSampleCount && !is_count_in_range(
                num_samples.spec_bytes(),
                usize::MAX as int,
            ))
            ||| (e is MissingFilePath && output_dest@ == "file"@ && !path_usable(file_path))
            ||| (e is InvalidDestination && !dest_known(output_dest@))
            ||| (e is PortNotSpecified && port is None)
            ||| (e is InvalidBaudRate && port is Some && port->Some_0@ != "OS Entropy Pool"@
                && !is_count_in_range(baud_rate.spec_bytes(), u32::MAX as int))
        }),
        r matches Ok(req) ==> ({
            &&& req.wf()
            &&& is_count_in_range(num_samples.spec_bytes(), usize::MAX as int)
            &&& req.sample_count == dec_value(num_samples.spec_bytes())
            &&& dest_known(output_dest@)
            &&& (req.destination is File <==> output_dest@ == "file"@)
            &&& (req.destination is File ==> path_usable(file_path)
                && req.destination->File_path@ == file_path->Some_0@)
            &&& (req.destination is Screen <==> output_dest@ == "screen"@)
            &&& (req.destination is Discard <==> output_dest@ == "none"@)
            &&& (req.source is OsEntropy <==> (port is Some && port->Some_0@
                == "OS Entropy Pool"@))
            &&& (req.source is SerialDevice ==> port is Some
                && req.source->SerialDevice_port@ == port->Some_0@
                && req.source->SerialDevice_baud_rate == dec_value(baud_rate.spec_bytes()))
            &&& req.inject_to_kernel_pool == entropy_direct
        }),
        r is Ok <==> ({
            &&& is_count_in_range(num_samples.spec_bytes(), usize::MAX as int)
            &&& dest_known(output_dest@)
            &&& (output_dest@ == "file"@ ==> path_usable(file_path))
            &&& port is Some
            &&& (port is Some && port->Some_0@ != "OS Entropy Pool"@ ==> is_count_in_range(
                baud_rate.spec_bytes(),
                u32::MAX as int,
            ))
        }),
{
    proof {
        reveal_strlit("file");
        reveal_strlit("screen");
        reveal_strlit("none");
        assert("file"@ != "screen"@) by {
            assert("file"@.len() == 4);
            assert("screen"@.len() == 6);
        }
        assert("screen"@ != "none"@) by {
            assert("screen"@.len() == 6);
            assert("none"@.len() == 4);
        }
        assert("file"@ != "none"@) by {
            assert("file"@[0] == 'f');
            assert("none"@[0] == 'n');
        }
    }
    let sample_count: usize = match parse_count(num_samples.as_bytes()) {
        Some(v) => v,
        None => {
            return Err(ValidationError::InvalidSampleCount);
        },
    };
    let destination: Destination = if str_eq(output_dest, "file") {
        match file_path {
            Some(p) => {
                if p.as_str().is_empty() {
                    return Err(ValidationError::MissingFilePath);
                }
                Destination::File { path: p }
            },
            None => {
                return Err(ValidationError::MissingFilePath);
            },
        }
    } else if str_eq(output_dest, "screen") {
        Destination::Screen
    } else if str_eq(output_dest, "none") {
        Destination::Discard
    } else {
        return Err(ValidationError::InvalidDestination);
    };
    let port_name: String = match port {
        Some(p) => p,
        None => {
            return Err(ValidationError::PortNotSpecified);
        },
    };
    let source: SampleSource = if str_eq(port_name.as_str(), "OS Entropy Pool") {
        SampleSource::OsEntropy
    } else {
        match parse_baud(baud_rate.as_bytes()) {
            Some(b) => SampleSource::SerialDevice { port: port_name, baud_rate: b },
            None => {
                return Err(ValidationError::InvalidBaudRate);
            },
        }
    };
    Ok(
        CollectionRequest {
            source,
            sample_count,
            destination,
            inject_to_kernel_pool: entropy_direct,
        },
    )
}

} // verus!
