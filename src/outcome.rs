use vstd::prelude::*;

verus! {

/// Port reported for a bare host-address lookup, which resolves no service.
pub const HOST_ADDRESS_PORT: u16 = 1212;

/// A resolved endpoint: the sixteen address bytes in network order and a port.
#[derive(Clone, Copy, Debug, PartialEq, Eq)]
pub struct DnsResolutionResponse {
    pub ip_address: [u8; 16],
    pub port: u16,
}

/// Why a request could not be handed to the engine.
#[derive(Clone, Copy, Debug, PartialEq, Eq)]
pub enum SubmitError {
    /// A name holds the terminator byte, so it has no terminated form.
    EmbeddedNul,
    /// The engine refused the submission with this status code.
    Rejected(u32),
}

/// What a request ends with: exactly one of these is delivered per request.
#[derive(Clone, Copy, Debug, PartialEq, Eq)]
pub enum DnsOutcome {
    /// The engine resolved the request.
    Resolved(DnsResolutionResponse),
    /// The engine reported a failure with this status code.
    ResolutionFailed(u32),
    /// The request never reached the engine, or the engine refused it at once.
    SubmissionFailed(SubmitError),
}

/// The outcome that a callback stands for, from the status that it was called
/// with and what reading its response gave. A failed read is a failure too.
pub open spec fn outcome_of(status: Result<(), u32>, decoded: Result<DnsResolutionResponse, u32>) -> DnsOutcome {
    match status {
        Err(code) => DnsOutcome::ResolutionFailed(code),
        Ok(()) => match decoded {
            Ok(response) => DnsOutcome::Resolved(response),
            Err(code) => DnsOutcome::ResolutionFailed(code),
        },
    }
}

/// An address read from a response, or the failure to read it, paired with a port.
pub open spec fn with_port(address: Result<[u8; 16], u32>, port: u16) -> Result<DnsResolutionResponse, u32> {
    match address {
        Ok(ip_address) => Ok(DnsResolutionResponse { ip_address, port }),
        Err(code) => Err(code),
    }
}

/// Decodes the report of a host-address lookup: on success the first address
/// of the response, with the host-lookup port; otherwise the failing status,
/// of the lookup or of reading the address.
pub fn host_address_outcome(status: Result<(), u32>, address: Result<[u8; 16], u32>) -> (r:
    DnsOutcome)
    ensures
        r == outcome_of(status, with_port(address, HOST_ADDRESS_PORT)),
{
    match status {
        Err(code) => DnsOutcome::ResolutionFailed(code),
        Ok(()) => match address {
            Ok(ip_address) => DnsOutcome::Resolved(
                DnsResolutionResponse { ip_address, port: HOST_ADDRESS_PORT },
            ),
            Err(code) => DnsOutcome::ResolutionFailed(code),
        },
    }
}

/// The status with which a lookup fails whose response holds no address
/// record: the engine's "not found" code.
pub const NOT_FOUND: u32 = 23;

/// Whether `ip_address` is the unspecified address, all sixteen bytes zero.
pub open spec fn is_unspecified(ip_address: [u8; 16]) -> bool {
    forall|i: int| 0 <= i < 16 ==> ip_address@[i] == 0u8
}

/// Tells whether an address is the unspecified address.
pub fn is_unspecified_address(ip_address: &[u8; 16]) -> (r: bool)
    ensures
        r == is_unspecified(*ip_address),
{
    let mut i: usize = 0;
    while i < 16
        invariant
            i <= 16,
            ip_address@.len() == 16,
            forall|j: int| 0 <= j < i ==> ip_address@[j] == 0u8,
        decreases 16 - i,
    {
        if ip_address[i] != 0u8 {
            return false;
        }
        i = i + 1;
    }
    true
}

/// What the service record read from a response stands for. The engine reports
/// a host without an address record as the unspecified address, so that
/// address is a failure with the "not found" status, never a resolved endpoint.
pub open spec fn service_response(info: Result<([u8; 16], u16), u32>) -> Result<
    DnsResolutionResponse,
    u32,
> {
    match info {
        Ok((ip_address, port)) => if is_unspecified(ip_address) {
            Err(NOT_FOUND)
        } else {
            Ok(DnsResolutionResponse { ip_address, port })
        },
        Err(code) => Err(code),
    }
}

/// Decodes the report of a service-and-host lookup: on success the host
/// address and the port of the service; otherwise the failing status, of the
/// lookup or of reading the service's record, or "not found" when the record
/// names a host with no address.
pub fn service_and_host_outcome(status: Result<(), u32>, info: Result<([u8; 16], u16), u32>) -> (r:
    DnsOutcome)
    ensures
        r == outcome_of(status, service_response(info)),
{
    match status {
        Err(code) => DnsOutcome::ResolutionFailed(code),
        Ok(()) => match info {
            Ok((ip_address, port)) => if is_unspecified_address(&ip_address) {
                DnsOutcome::ResolutionFailed(NOT_FOUND)
            } else {
                DnsOutcome::Resolved(DnsResolutionResponse { ip_address, port })
            },
            Err(code) => DnsOutcome::ResolutionFailed(code),
        },
    }
}

} // verus!
