use vstd::prelude::*;

use vstd::string::StringSliceAdditionalSpecFns;

use crate::outcome::SubmitError;

verus! {

/// The bytes of `name` followed by the terminator, as the engine reads text.
pub open spec fn terminated(name: &str) -> Seq<u8> {
    name.spec_bytes().push(0u8)
}

/// Converts a name to the engine's terminated text. A name that holds the
/// terminator byte has no such form and is refused.
pub fn c_name(name: &str) -> (r: Result<Vec<u8>, SubmitError>)
    ensures
        r is Ok <==> !name.spec_bytes().contains(0u8),
        r matches Ok(v) ==> v@ == terminated(name),
        r matches Err(e) ==> e == SubmitError::EmbeddedNul,
{
    let bytes = name.as_bytes();
    let mut out: Vec<u8> = Vec::new();
    let mut i: usize = 0;
    while i < bytes.len()
        invariant
            bytes@ == name.spec_bytes(),
            i <= bytes@.len(),
            out@ == bytes@.subrange(0, i as int),
            !out@.contains(0u8),
        decreases bytes@.len() - i,
    {
        if bytes[i] == 0u8 {
            assert(name.spec_bytes()[i as int] == 0u8);
            return Err(SubmitError::EmbeddedNul);
        }
        out.push(bytes[i]);
        assert(out@ =~= bytes@.subrange(0, i + 1));
        i = i + 1;
    }
    assert(out@ =~= name.spec_bytes());
    out.push(0u8);
    Ok(out)
}

/// A DNS client over one engine instance.
pub struct DnsClient<E> {
    ot: E,
}

impl<E> DnsClient<E> {
    /// The engine instance that the client submits to.
    pub closed spec fn spec_engine(&self) -> E {
        self.ot
    }

    /// A client that submits its requests to `ot`.
    pub fn new(ot: E) -> (r: DnsClient<E>)
        ensures
            r.spec_engine() == ot,
    {
        DnsClient { ot }
    }

    /// The engine instance that the client submits to.
    pub fn engine(&self) -> (r: &E)
        ensures
            *r == self.spec_engine(),
    {
        &self.ot
    }

    /// Prepares a host-address lookup: the host name as terminated text.
    pub fn host_query(&self, host_name: &str) -> (r: Result<Vec<u8>, SubmitError>)
        ensures
            r is Ok <==> !host_name.spec_bytes().contains(0u8),
            r matches Ok(v) ==> v@ == terminated(host_name),
            r matches Err(e) ==> e == SubmitError::EmbeddedNul,
    {
        c_name(host_name)
    }

    /// Prepares a service-and-host lookup: the instance label and the service
    /// name as terminated text. Refused when either holds the terminator byte.
    pub fn service_query(&self, instance_label: &str, service_name: &str) -> (r: Result<
        (Vec<u8>, Vec<u8>),
        SubmitError,
    >)
        ensures
            r is Ok <==> !instance_label.spec_bytes().contains(0u8)
                && !service_name.spec_bytes().contains(0u8),
            r matches Ok((l, s)) ==> l@ == terminated(instance_label) && s@ == terminated(
                service_name,
            ),
            r matches Err(e) ==> e == SubmitError::EmbeddedNul,
    {
        let label = c_name(instance_label)?;
        let service = c_name(service_name)?;
        Ok((label, service))
    }
}

} // verus!
