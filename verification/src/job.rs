//! One job: the request it sends for one region and one attempt.

use vstd::prelude::*;
use vstd::string::*;
use crate::errors::Errors;
use crate::options::{NetworkPolicy, Opts, lemma_policy_round_trip};
use crate::regions::EarthRegion;
use crate::text::text_view;

verus! {

/// The size of the payload of each ping, in bytes.
pub const PAYLOAD_SIZE: u64 = 56;

/// The measurement request of one job.
#[derive(Debug)]
pub struct IcmpRequest {
    /// The hosts to ping.
    pub hostnames: Vec<String>,
    /// The country to ping from, if the region is one.
    pub country_code: Option<String>,
    /// The continent to ping from, if the region is one.
    pub continent_code: Option<String>,
    /// The size of the payload of each ping, in bytes.
    pub payload_size: u64,
    /// The number of pings.
    pub attempts: usize,
    pub residential: NetworkPolicy,
    pub mobile: NetworkPolicy,
    pub proxy: NetworkPolicy,
}

/// One measurement from one region: the unit that is dispatched.
#[derive(Debug)]
pub struct IcmpJob<'a> {
    pub config: &'a Opts,
    pub region: EarthRegion,
    /// The number of this job among those of its region, from 0.
    pub attempt: usize,
}

/// Writes a policy as text and reads it back, as a request carries it.
fn carried_policy(p: NetworkPolicy) -> (r: Result<NetworkPolicy, Errors>)
    ensures
        r == Ok::<NetworkPolicy, Errors>(p),
{
    proof {
        lemma_policy_round_trip(p);
    }
    let text = p.to_string();
    match NetworkPolicy::from_str(text.as_str()) {
        Ok(q) => Ok(q),
        Err(e) => Err(Errors::ImpossibleRequestConfiguration(e)),
    }
}

impl<'a> IcmpJob<'a> {
    /// The job for one region and one attempt.
    pub fn new(config: &'a Opts, region: EarthRegion, attempt: usize) -> (job: Self)
        ensures
            job.config == config,
            job.region == region,
            job.attempt == attempt,
    {
        IcmpJob { config, region, attempt }
    }

    /// Whether `req` is the request of this job: the configured host alone,
    /// the codes of the region, the fixed payload size, the configured
    /// number of pings and the three network policies.
    pub open spec fn is_request(self, req: IcmpRequest) -> bool {
        &&& req.hostnames@.len() == 1
        &&& req.hostnames@[0]@ == self.config.endpoint@
        &&& (text_view(req.country_code), text_view(req.continent_code)) == self.region.codes()
        &&& req.payload_size == PAYLOAD_SIZE
        &&& req.attempts == self.config.count
        &&& req.residential == self.config.residential
        &&& req.mobile == self.config.mobile
        &&& req.proxy == self.config.proxy
    }

    /// Builds the request of this job. Every policy is written as text and
    /// read back on the way; none fails to be read, so the request is
    /// always built.
    pub fn request(&self) -> (r: Result<IcmpRequest, Errors>)
        ensures
            r is Ok,
            self.is_request(r->Ok_0),
    {
        let (country_code, continent_code) = self.region.get_codes();
        let mobile = match carried_policy(self.config.mobile) {
            Ok(p) => p,
            Err(e) => { return Err(e); },
        };
        let proxy = match carried_policy(self.config.proxy) {
            Ok(p) => p,
            Err(e) => { return Err(e); },
        };
        let residential = match carried_policy(self.config.residential) {
            Ok(p) => p,
            Err(e) => { return Err(e); },
        };
        let mut hostnames: Vec<String> = Vec::new();
        hostnames.push(self.config.endpoint.clone());
        Ok(
            IcmpRequest {
                hostnames,
                country_code,
                continent_code,
                payload_size: PAYLOAD_SIZE,
                attempts: self.config.count,
                residential,
                mobile,
                proxy,
            },
        )
    }
}

} // verus!
