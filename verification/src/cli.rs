use vstd::prelude::*;
use crate::models::{Mechanism, Protocol};

verus! {

/// Smallest message size, in bytes, that a run accepts.
pub const MIN_MESSAGE_SIZE: u64 = 1;

/// Largest message size, in bytes, that a run accepts.
pub const MAX_MESSAGE_SIZE: u64 = 65534;

/// A message size accepted on the command line: from 1 up to, but not including, 65535.
pub open spec fn size_accepted(size: int) -> bool {
    MIN_MESSAGE_SIZE <= size <= MAX_MESSAGE_SIZE
}

/// Why a set of command-line values was refused.
#[derive(Copy, Clone, PartialEq, Eq, Debug, Structural)]
pub enum CliError {
    /// The message size lies outside the accepted range.
    SizeOutOfRange(u64),
}

/// The settings of a benchmark run.
#[derive(Copy, Clone, PartialEq, Eq, Debug, Structural)]
pub struct CliArguments {
    pub protocol: Protocol,
    pub mechanism: Mechanism,
    pub size: u16,
}

impl CliArguments {
    /// The settings name an accepted message size.
    pub open spec fn wf(self) -> bool {
        size_accepted(self.size as int)
    }

    /// The protocol used when none is given: TCP.
    pub fn default_protocol() -> (r: Protocol)
        ensures
            r == Protocol::TCP,
    {
        Protocol::TCP
    }

    /// The mechanism used when none is given: streaming.
    pub fn default_mechanism() -> (r: Mechanism)
        ensures
            r == Mechanism::Stream,
    {
        Mechanism::Stream
    }

    /// Checks a message size given on the command line.
    pub fn check_size(size: u64) -> (r: Result<u16, CliError>)
        ensures
            r is Ok <==> size_accepted(size as int),
            r matches Ok(s) ==> s == size,
            r matches Err(e) ==> e == CliError::SizeOutOfRange(size),
    {
        if MIN_MESSAGE_SIZE <= size && size <= MAX_MESSAGE_SIZE {
            Ok(size as u16)
        } else {
            Err(CliError::SizeOutOfRange(size))
        }
    }

    /// The settings of a run from the values given on the command line,
    /// the protocol and mechanism falling back to their defaults.
    pub fn from_values(protocol: Option<Protocol>, mechanism: Option<Mechanism>, size: u64) -> (r:
        Result<CliArguments, CliError>)
        ensures
            r is Ok <==> size_accepted(size as int),
            r matches Ok(a) ==> {
                &&& a.wf()
                &&& a.size == size
                &&& a.protocol == (match protocol {
                    Some(p) => p,
                    None => Protocol::TCP,
                })
                &&& a.mechanism == (match mechanism {
                    Some(m) => m,
                    None => Mechanism::Stream,
                })
            },
            r matches Err(e) ==> e == CliError::SizeOutOfRange(size),
    {
        let size = match CliArguments::check_size(size) {
            Ok(s) => s,
            Err(e) => return Err(e),
        };
        let protocol = match protocol {
            Some(p) => p,
            None => CliArguments::default_protocol(),
        };
        let mechanism = match mechanism {
            Some(m) => m,
            None => CliArguments::default_mechanism(),
        };
        Ok(CliArguments { protocol, mechanism, size })
    }
}

} // verus!

verus! {

/// Every message size from 1 to 65534 is accepted, and no other.
pub proof fn accepted_sizes_are_one_to_65534(size: int)
    ensures
        size_accepted(size) <==> (1 <= size && size <= 65534),
{
}

} // verus!
