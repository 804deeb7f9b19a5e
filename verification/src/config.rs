//! The node's configuration and the checks made before it goes online.

use vstd::prelude::*;
use crate::protocol::ProviderMode;
use crate::text::owned;

verus! {

/// The node's persisted configuration.
#[derive(Clone, Debug)]
pub struct Config {
    pub relay_url: String,
    pub enrollment_token: String,
    pub engine: String,
    pub engine_url: String,
    pub engine_api_key: String,
    pub input_price: String,
    pub output_price: String,
    pub monthly_earnings_cap: String,
    pub commercial_hosting_confirmed: bool,
    pub model_license: String,
    pub mode: ProviderMode,
}

/// The relay that nodes connect to unless configured otherwise.
pub open spec fn default_relay_url() -> Seq<char> {
    "wss://api.tokens2tokens.com/v1/nodes/connect"@
}

/// The engine name used unless configured otherwise.
pub open spec fn default_engine() -> Seq<char> {
    "ollama"@
}

/// The engine address used unless configured otherwise.
pub open spec fn default_engine_url() -> Seq<char> {
    "http://127.0.0.1:11434"@
}

/// The fields that `init` leaves at their defaults.
pub open spec fn has_default_terms(c: Config) -> bool {
    &&& c.engine_api_key@ == Seq::<char>::empty()
    &&& c.input_price@ == "0.20"@
    &&& c.output_price@ == "0.80"@
    &&& c.monthly_earnings_cap@ == "50000"@
    &&& c.model_license@ == "unknown"@
    &&& c.mode == ProviderMode::Static
}

impl Default for Config {
    fn default() -> (r: Self)
        ensures
            r.relay_url@ == default_relay_url(),
            r.enrollment_token@ == Seq::<char>::empty(),
            r.engine@ == default_engine(),
            r.engine_url@ == default_engine_url(),
            !r.commercial_hosting_confirmed,
            has_default_terms(r),
    {
        Config {
            relay_url: owned("wss://api.tokens2tokens.com/v1/nodes/connect"),
            enrollment_token: String::new(),
            engine: owned("ollama"),
            engine_url: owned("http://127.0.0.1:11434"),
            engine_api_key: String::new(),
            input_price: owned("0.20"),
            output_price: owned("0.80"),
            monthly_earnings_cap: owned("50000"),
            commercial_hosting_confirmed: false,
            model_license: owned("unknown"),
            mode: ProviderMode::Static,
        }
    }
}

/// Why a node may not go online.
#[derive(Clone, Copy, Debug, PartialEq, Eq, Structural)]
pub enum RunError {
    MissingEnrollmentToken,
    TermsNotConfirmed,
}

impl RunError {
    /// The text of the error.
    pub fn message(&self) -> (r: String)
        ensures
            r@ == match self {
                RunError::MissingEnrollmentToken => "enrollment_token is required; run `token2token init` first"@,
                RunError::TermsNotConfirmed => "commercial hosting terms must be confirmed before publishing models"@,
            },
    {
        match self {
            RunError::MissingEnrollmentToken => owned("enrollment_token is required; run `token2token init` first"),
            RunError::TermsNotConfirmed => owned(
                "commercial hosting terms must be confirmed before publishing models",
            ),
        }
    }
}

/// Whether a node with configuration `c` may go online, and if not, why.
pub open spec fn run_check(c: Config) -> Result<(), RunError> {
    if c.enrollment_token@.len() == 0 {
        Err(RunError::MissingEnrollmentToken)
    } else if !c.commercial_hosting_confirmed {
        Err(RunError::TermsNotConfirmed)
    } else {
        Ok(())
    }
}

impl Config {
    /// The configuration that `init` writes: the given enrollment, relay, engine and terms
    /// answer, every other field at its default.
    pub fn for_init(
        token: String,
        relay: String,
        engine: String,
        engine_url: String,
        accept_commercial_terms: bool,
    ) -> (r: Config)
        ensures
            r.enrollment_token == token,
            r.relay_url == relay,
            r.engine == engine,
            r.engine_url == engine_url,
            r.commercial_hosting_confirmed == accept_commercial_terms,
            has_default_terms(r),
    {
        let base = Config::default();
        Config {
            relay_url: relay,
            enrollment_token: token,
            engine,
            engine_url,
            commercial_hosting_confirmed: accept_commercial_terms,
            ..base
        }
    }

    /// A node goes online only when it is enrolled and its operator has confirmed the
    /// commercial hosting terms; the missing enrollment is reported first.
    pub fn ensure_runnable(&self) -> (r: Result<(), RunError>)
        ensures
            r == run_check(*self),
    {
        if self.enrollment_token.as_str().is_empty() {
            return Err(RunError::MissingEnrollmentToken);
        }
        if !self.commercial_hosting_confirmed {
            return Err(RunError::TermsNotConfirmed);
        }
        Ok(())
    }
}

} // verus!
