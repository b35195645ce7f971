//! The configuration of a run.

use vstd::prelude::*;
use vstd::string::*;
use vstd::std_specs::convert::FromSpecImpl;
use crate::errors::ConversionError;
use crate::regions::{EarthRegion, RegionView, region_views};
use crate::resolver::{parse_alpha_codes, parsed_regions};
use crate::text::str_eq;

verus! {

/// Whether probes on one kind of network may, must not or must be used.
#[derive(Clone, Copy, Debug, PartialEq, Eq, Structural)]
pub enum NetworkPolicy {
    Allowed,
    Denied,
    Required,
}

impl From<Option<bool>> for NetworkPolicy {
    fn from(value: Option<bool>) -> (r: NetworkPolicy) {
        match value {
            None => NetworkPolicy::Allowed,
            Some(true) => NetworkPolicy::Required,
            Some(false) => NetworkPolicy::Denied,
        }
    }
}

impl FromSpecImpl<Option<bool>> for NetworkPolicy {
    open spec fn obeys_from_spec() -> bool {
        true
    }

    open spec fn from_spec(v: Option<bool>) -> NetworkPolicy {
        policy_of_flag(v)
    }
}

/// The policy that a text written into a request stands for, if any.
pub open spec fn policy_of_text(text: Seq<char>) -> Option<NetworkPolicy> {
    if text == "ALLOWED"@ {
        Some(NetworkPolicy::Allowed)
    } else if text == "DENIED"@ {
        Some(NetworkPolicy::Denied)
    } else if text == "REQUIRED"@ {
        Some(NetworkPolicy::Required)
    } else {
        None
    }
}

impl NetworkPolicy {
    /// The text that stands for the policy in a request.
    pub open spec fn text(self) -> Seq<char> {
        match self {
            NetworkPolicy::Allowed => "ALLOWED"@,
            NetworkPolicy::Denied => "DENIED"@,
            NetworkPolicy::Required => "REQUIRED"@,
        }
    }

    /// The text that stands for the policy in a request.
    pub fn to_string(&self) -> (r: String)
        ensures
            r@ == self.text(),
    {
        match self {
            NetworkPolicy::Allowed => "ALLOWED".to_owned(),
            NetworkPolicy::Denied => "DENIED".to_owned(),
            NetworkPolicy::Required => "REQUIRED".to_owned(),
        }
    }

    /// Reads a policy back from its text. Any other text is refused, with
    /// the text in the error.
    pub fn from_str(text: &str) -> (r: Result<NetworkPolicy, ConversionError>)
        ensures
            match policy_of_text(text@) {
                Some(p) => r == Ok::<NetworkPolicy, ConversionError>(p),
                None => r is Err && r->Err_0.message@ == text@,
            },
    {
        if str_eq(text, "ALLOWED") {
            Ok(NetworkPolicy::Allowed)
        } else if str_eq(text, "DENIED") {
            Ok(NetworkPolicy::Denied)
        } else if str_eq(text, "REQUIRED") {
            Ok(NetworkPolicy::Required)
        } else {
            Err(ConversionError { message: text.to_owned() })
        }
    }
}

/// A policy written as text and read back is the same policy.
pub proof fn lemma_policy_round_trip(p: NetworkPolicy)
    ensures
        policy_of_text(p.text()) == Some(p),
{
    reveal_strlit("ALLOWED");
    reveal_strlit("DENIED");
    reveal_strlit("REQUIRED");
    assert("ALLOWED"@.len() == 7);
    assert("DENIED"@.len() == 6);
    assert("REQUIRED"@.len() == 8);
}

/// The configuration of a run: made once, then only read.
#[derive(Debug)]
pub struct Opts {
    /// The host to ping.
    pub endpoint: String,
    /// The regions to ping from, in the order given.
    pub regions: Vec<EarthRegion>,
    /// The number of pings per job.
    pub count: usize,
    /// The number of jobs per region.
    pub attempts: usize,
    /// The key that every call carries.
    pub api_key: String,
    /// The number of jobs that may run at one time.
    pub concurrency: usize,
    pub residential: NetworkPolicy,
    pub mobile: NetworkPolicy,
    pub proxy: NetworkPolicy,
    /// Whether results are drawn without the pauses between their lines.
    pub no_delay: bool,
}

/// The number of pings per job where none is given.
pub const DEFAULT_COUNT: usize = 3;

/// The number of jobs per region where none is given.
pub const DEFAULT_ATTEMPTS: usize = 1;

/// The number of jobs that may run at one time where none is given.
pub const DEFAULT_CONCURRENCY: usize = 100;

/// The arguments of a run as the user gave them: what was left out is
/// absent.
#[derive(Debug)]
pub struct Arguments {
    pub endpoint: String,
    /// The regions, separated by commas.
    pub regions: Option<String>,
    pub count: Option<usize>,
    pub attempts: Option<usize>,
    pub api_key: String,
    pub concurrency: Option<usize>,
    /// For each kind of network: `true` to require it, `false` to deny it.
    pub residential: Option<bool>,
    pub mobile: Option<bool>,
    pub proxy: Option<bool>,
    /// Whether results are drawn without the pauses between their lines.
    pub no_delay: bool,
}

/// Why the arguments give no configuration.
#[derive(Clone, Copy, Debug, PartialEq, Eq, Structural)]
pub enum ArgumentError {
    /// No host was named.
    EmptyEndpoint,
}

/// A number that was given, or its default.
pub open spec fn given_or(value: Option<usize>, default: usize) -> usize {
    match value {
        Some(n) => n,
        None => default,
    }
}

/// The policy that a flag stands for: required where it is `true`, denied
/// where it is `false`, allowed where it was left out.
pub open spec fn policy_of_flag(flag: Option<bool>) -> NetworkPolicy {
    match flag {
        None => NetworkPolicy::Allowed,
        Some(true) => NetworkPolicy::Required,
        Some(false) => NetworkPolicy::Denied,
    }
}

/// The regions of a run: those that the text resolves to, or anywhere where
/// no text was given.
pub open spec fn regions_of(text: Option<String>) -> Seq<RegionView> {
    match text {
        Some(t) => parsed_regions(t@),
        None => seq![RegionView::Anywhere],
    }
}

impl Opts {
    /// Whether this is the configuration that the arguments stand for: what
    /// was given as it was given, the regions resolved, and the defaults
    /// for what was left out.
    pub open spec fn stands_for(self, args: Arguments) -> bool {
        &&& self.endpoint@ == args.endpoint@
        &&& region_views(self.regions@) == regions_of(args.regions)
        &&& self.count == given_or(args.count, DEFAULT_COUNT)
        &&& self.attempts == given_or(args.attempts, DEFAULT_ATTEMPTS)
        &&& self.api_key@ == args.api_key@
        &&& self.concurrency == given_or(args.concurrency, DEFAULT_CONCURRENCY)
        &&& self.residential == policy_of_flag(args.residential)
        &&& self.mobile == policy_of_flag(args.mobile)
        &&& self.proxy == policy_of_flag(args.proxy)
        &&& self.no_delay == args.no_delay
    }

    /// The configuration that the arguments stand for. Arguments without a
    /// host are refused, and no others.
    pub fn from_arguments(args: Arguments) -> (r: Result<Opts, ArgumentError>)
        ensures
            args.endpoint@.len() == 0 ==> r == Err::<Opts, ArgumentError>(
                ArgumentError::EmptyEndpoint,
            ),
            args.endpoint@.len() > 0 ==> r is Ok && r->Ok_0.stands_for(args),
            r is Ok ==> r->Ok_0.regions@.len() >= 1,
    {
        if args.endpoint.as_str().is_empty() {
            return Err(ArgumentError::EmptyEndpoint);
        }
        let regions = match &args.regions {
            Some(text) => match parse_alpha_codes(text.as_str()) {
                Ok(found) => found,
                Err(_) => vec![EarthRegion::Anywhere],
            },
            None => {
                let v = vec![EarthRegion::Anywhere];
                assert(region_views(v@) =~= seq![RegionView::Anywhere]);
                v
            },
        };
        let count = match args.count {
            Some(n) => n,
            None => DEFAULT_COUNT,
        };
        let attempts = match args.attempts {
            Some(n) => n,
            None => DEFAULT_ATTEMPTS,
        };
        let concurrency = match args.concurrency {
            Some(n) => n,
            None => DEFAULT_CONCURRENCY,
        };
        Ok(
            Opts {
                endpoint: args.endpoint,
                regions,
                count,
                attempts,
                api_key: args.api_key,
                concurrency,
                residential: NetworkPolicy::from(args.residential),
                mobile: NetworkPolicy::from(args.mobile),
                proxy: NetworkPolicy::from(args.proxy),
                no_delay: args.no_delay,
            },
        )
    }
}

} // verus!
