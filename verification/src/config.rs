//! The limits of one run, checked once before anything is downloaded.

use vstd::prelude::*;
use vstd::string::StringExecFns;

verus! {

/// Downloads in flight at a time, unless the caller says otherwise.
pub const DEFAULT_CONCURRENCY: usize = 50;

/// Requests per second, unless the caller says otherwise.
pub const DEFAULT_RATE_LIMIT: u32 = 500;

/// Retries of a failed download, unless the caller says otherwise.
pub const DEFAULT_RETRIES: u32 = 3;

/// Seconds after which a single request is given up.
pub const REQUEST_TIMEOUT_SECS: u64 = 30;

/// Why a set of limits is refused.
#[derive(Clone, Copy, Debug, PartialEq, Eq, Structural)]
pub enum ConfigError {
    /// The rate limit is zero.
    ZeroRateLimit,
    /// The concurrency is zero.
    ZeroConcurrency,
}

impl ConfigError {
    /// The text that reports the error.
    pub open spec fn text(self) -> Seq<char> {
        match self {
            ConfigError::ZeroRateLimit => "Rate limit must be > 0"@,
            ConfigError::ZeroConcurrency => "Concurrency must be > 0"@,
        }
    }

    /// The text that reports the error.
    pub fn message(&self) -> (text: String)
        ensures
            text@ == self.text(),
    {
        match self {
            ConfigError::ZeroRateLimit => String::from_str("Rate limit must be > 0"),
            ConfigError::ZeroConcurrency => String::from_str("Concurrency must be > 0"),
        }
    }
}

/// The settings of one run. They do not change while it lasts.
#[derive(Clone, Debug)]
pub struct RunConfig {
    input_path: String,
    output_dir: String,
    concurrency: usize,
    rate_limit: u32,
    max_retries: u32,
}

impl RunConfig {
    /// Path of the input table.
    pub closed spec fn spec_input_path(&self) -> Seq<char> {
        self.input_path@
    }

    /// Directory that the files are written to.
    pub closed spec fn spec_output_dir(&self) -> Seq<char> {
        self.output_dir@
    }

    /// Downloads in flight at a time.
    pub closed spec fn spec_concurrency(&self) -> usize {
        self.concurrency
    }

    /// Requests per second.
    pub closed spec fn spec_rate_limit(&self) -> u32 {
        self.rate_limit
    }

    /// Retries of a failed download.
    pub closed spec fn spec_max_retries(&self) -> u32 {
        self.max_retries
    }

    /// Both limits are positive.
    pub open spec fn wf(&self) -> bool {
        self.spec_concurrency() > 0 && self.spec_rate_limit() > 0
    }

    /// Checks the limits: a rate limit of zero is refused, then a
    /// concurrency of zero; everything else is accepted as given.
    pub fn new(
        input_path: String,
        output_dir: String,
        concurrency: usize,
        rate_limit: u32,
        max_retries: u32,
    ) -> (checked: Result<RunConfig, ConfigError>)
        ensures
            rate_limit == 0 ==> checked == Err::<RunConfig, ConfigError>(
                ConfigError::ZeroRateLimit,
            ),
            rate_limit != 0 && concurrency == 0 ==> checked == Err::<RunConfig, ConfigError>(
                ConfigError::ZeroConcurrency,
            ),
            rate_limit != 0 && concurrency != 0 ==> checked.is_ok() && checked.unwrap().wf()
                && checked.unwrap().spec_input_path() == input_path@
                && checked.unwrap().spec_output_dir() == output_dir@
                && checked.unwrap().spec_concurrency() == concurrency
                && checked.unwrap().spec_rate_limit() == rate_limit
                && checked.unwrap().spec_max_retries() == max_retries,
    {
        if rate_limit == 0 {
            Err(ConfigError::ZeroRateLimit)
        } else if concurrency == 0 {
            Err(ConfigError::ZeroConcurrency)
        } else {
            Ok(RunConfig { input_path, output_dir, concurrency, rate_limit, max_retries })
        }
    }

    /// Path of the input table.
    pub fn input_path(&self) -> (path: &str)
        ensures
            path@ == self.spec_input_path(),
    {
        self.input_path.as_str()
    }

    /// Directory that the files are written to.
    pub fn output_dir(&self) -> (path: &str)
        ensures
            path@ == self.spec_output_dir(),
    {
        self.output_dir.as_str()
    }

    /// Downloads in flight at a time.
    pub fn concurrency(&self) -> (n: usize)
        ensures
            n == self.spec_concurrency(),
    {
        self.concurrency
    }

    /// Requests per second.
    pub fn rate_limit(&self) -> (n: u32)
        ensures
            n == self.spec_rate_limit(),
    {
        self.rate_limit
    }

    /// Retries of a failed download.
    pub fn max_retries(&self) -> (n: u32)
        ensures
            n == self.spec_max_retries(),
    {
        self.max_retries
    }
}

} // verus!
