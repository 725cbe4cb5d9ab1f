//! Configuration: the five settings, their defaults, and resolution from raw
//! environment values.

use vstd::prelude::*;
use crate::text;

verus! {

/// Default number of runner pairs.
pub const DEFAULT_RUNNERS: u32 = 2;

/// Default number of error events per runner.
pub const DEFAULT_ERRORS: u32 = 2;

/// Default number of transactions per runner.
pub const DEFAULT_TRANSACTIONS: u32 = 5;

/// Default maximum randomized delay unit.
pub const DEFAULT_DELAY: u32 = 2;

/// One of the five environment-backed settings. Only `Dsn` is required; the
/// numeric settings fall back to their documented defaults.
#[derive(Clone, Copy, PartialEq, Eq, Structural, Debug)]
pub enum Setting {
    Dsn,
    Runners,
    Errors,
    Transactions,
    Delay,
}

/// Why configuration failed: the required endpoint setting was absent, or a
/// numeric setting did not hold the decimal text of a `u32`.
#[derive(Clone, Copy, PartialEq, Eq, Structural, Debug)]
pub enum ConfigError {
    MissingRequiredSetting,
    InvalidSettingFormat(Setting),
}

/// The resolved configuration: an immutable snapshot taken once at startup
/// and copied into every runner.
pub struct Config {
    pub dsn: String,
    pub runners: u32,
    pub errors: u32,
    pub transactions: u32,
    pub delay: u32,
}

impl Setting {
    /// The name of the environment variable that backs this setting.
    pub open spec fn spec_env_name(self) -> Seq<char> {
        match self {
            Setting::Dsn => "SL_DSN"@,
            Setting::Runners => "SL_RUNNERS"@,
            Setting::Errors => "SL_ERRORS"@,
            Setting::Transactions => "SL_TRANSACTIONS"@,
            Setting::Delay => "SL_DELAY"@,
        }
    }

    /// The default value of this setting; the endpoint has none, so `Dsn`
    /// maps to 0 and is never defaulted.
    pub open spec fn spec_default(self) -> u32 {
        match self {
            Setting::Dsn => 0,
            Setting::Runners => DEFAULT_RUNNERS,
            Setting::Errors => DEFAULT_ERRORS,
            Setting::Transactions => DEFAULT_TRANSACTIONS,
            Setting::Delay => DEFAULT_DELAY,
        }
    }

    pub fn env_name(&self) -> (r: &'static str)
        ensures
            r@ == self.spec_env_name(),
    {
        match self {
            Setting::Dsn => "SL_DSN",
            Setting::Runners => "SL_RUNNERS",
            Setting::Errors => "SL_ERRORS",
            Setting::Transactions => "SL_TRANSACTIONS",
            Setting::Delay => "SL_DELAY",
        }
    }

    pub fn default_value(&self) -> (r: u32)
        ensures
            r == self.spec_default(),
    {
        match self {
            Setting::Dsn => 0,
            Setting::Runners => DEFAULT_RUNNERS,
            Setting::Errors => DEFAULT_ERRORS,
            Setting::Transactions => DEFAULT_TRANSACTIONS,
            Setting::Delay => DEFAULT_DELAY,
        }
    }

    /// The notice printed when an absent optional setting falls back to its
    /// default.
    pub open spec fn spec_notice_line(self) -> Seq<char> {
        "$"@ + self.spec_env_name() + " not set, using default: "@ + text::dec_rep(
            self.spec_default() as nat,
        )
    }

    pub fn notice_line(&self) -> (r: String)
        ensures
            r@ == self.spec_notice_line(),
    {
        let mut s = String::from_str("$");
        s.append(self.env_name());
        s.append(" not set, using default: ");
        let d = text::u64_dec(self.default_value() as u64);
        s.append(d.as_str());
        proof {
            assert(s@ =~= self.spec_notice_line());
        }
        s
    }
}

impl ConfigError {
    /// The message printed when configuration fails.
    pub open spec fn spec_message(self) -> Seq<char> {
        match self {
            ConfigError::MissingRequiredSetting => "$"@ + Setting::Dsn.spec_env_name()
                + " is not set"@,
            ConfigError::InvalidSettingFormat(s) => "$"@ + s.spec_env_name()
                + " is not an unsigned integer"@,
        }
    }

    pub fn message(&self) -> (r: String)
        ensures
            r@ == self.spec_message(),
    {
        let mut s = String::from_str("$");
        match self {
            ConfigError::MissingRequiredSetting => {
                s.append(Setting::Dsn.env_name());
                s.append(" is not set");
            },
            ConfigError::InvalidSettingFormat(which) => {
                s.append(which.env_name());
                s.append(" is not an unsigned integer");
            },
        }
        proof {
            assert(s@ =~= self.spec_message());
        }
        s
    }
}

/// Whether a raw optional setting value is acceptable: absent, or the decimal
/// text of a `u32`.
pub open spec fn numeric_ok(v: Option<String>) -> bool {
    match v {
        Option::None => true,
        Option::Some(s) => text::valid_u32_text(s@),
    }
}

/// The value an optional numeric setting resolves to: its parsed value when
/// present, else `default`.
pub open spec fn numeric_resolved(v: Option<String>, default: u32) -> u32 {
    match v {
        Option::None => default,
        Option::Some(s) => text::dec_value(s@) as u32,
    }
}

/// The settings that were absent and fell back to their defaults, in the
/// fixed order runners, errors, transactions, delay.
pub open spec fn spec_defaulted(
    runners: Option<String>,
    errors: Option<String>,
    transactions: Option<String>,
    delay: Option<String>,
) -> Seq<Setting> {
    (if runners is None {
        seq![Setting::Runners]
    } else {
        Seq::<Setting>::empty()
    }) + (if errors is None {
        seq![Setting::Errors]
    } else {
        Seq::<Setting>::empty()
    }) + (if transactions is None {
        seq![Setting::Transactions]
    } else {
        Seq::<Setting>::empty()
    }) + (if delay is None {
        seq![Setting::Delay]
    } else {
        Seq::<Setting>::empty()
    })
}

impl Config {
    /// Resolves the configuration from the raw setting values, one per
    /// setting, each `None` when the environment did not hold it.
    ///
    /// Fails with `MissingRequiredSetting` when the endpoint is absent, and
    /// with `InvalidSettingFormat` naming the first offending setting (in the
    /// order runners, errors, transactions, delay) when a present numeric
    /// value is not the decimal text of a `u32`. On success also returns the
    /// settings that fell back to their defaults, so the caller can print one
    /// notice per defaulted setting before any work starts.
    pub fn configure(
        dsn: Option<String>,
        runners: Option<String>,
        errors: Option<String>,
        transactions: Option<String>,
        delay: Option<String>,
    ) -> (r: Result<(Config, Vec<Setting>), ConfigError>)
        ensures
            r is Ok <==> {
                &&& dsn is Some
                &&& numeric_ok(runners)
                &&& numeric_ok(errors)
                &&& numeric_ok(transactions)
                &&& numeric_ok(delay)
            },
            dsn is None ==> r == Err::<(Config, Vec<Setting>), ConfigError>(
                ConfigError::MissingRequiredSetting,
            ),
            dsn is Some && !numeric_ok(runners) ==> r == Err::<(Config, Vec<Setting>), ConfigError>(
                ConfigError::InvalidSettingFormat(Setting::Runners),
            ),
            dsn is Some && numeric_ok(runners) && !numeric_ok(errors) ==> r == Err::<
                (Config, Vec<Setting>),
                ConfigError,
            >(ConfigError::InvalidSettingFormat(Setting::Errors)),
            dsn is Some && numeric_ok(runners) && numeric_ok(errors) && !numeric_ok(transactions)
                ==> r == Err::<(Config, Vec<Setting>), ConfigError>(
                ConfigError::InvalidSettingFormat(Setting::Transactions),
            ),
            dsn is Some && numeric_ok(runners) && numeric_ok(errors) && numeric_ok(transactions)
                && !numeric_ok(delay) ==> r == Err::<(Config, Vec<Setting>), ConfigError>(
                ConfigError::InvalidSettingFormat(Setting::Delay),
            ),
            r matches Ok(p) ==> {
                &&& p.0.dsn@ == dsn->0@
                &&& p.0.runners == numeric_resolved(runners, DEFAULT_RUNNERS)
                &&& p.0.errors == numeric_resolved(errors, DEFAULT_ERRORS)
                &&& p.0.transactions == numeric_resolved(transactions, DEFAULT_TRANSACTIONS)
                &&& p.0.delay == numeric_resolved(delay, DEFAULT_DELAY)
                &&& p.1@ == spec_defaulted(runners, errors, transactions, delay)
            },
    {
        let dsn_value = match dsn {
            Option::Some(v) => v,
            Option::None => {
                return Err(ConfigError::MissingRequiredSetting);
            },
        };
        let mut defaulted: Vec<Setting> = Vec::new();
        let runners_value = match resolve_numeric(Setting::Runners, &runners, &mut defaulted) {
            Option::Some(v) => v,
            Option::None => {
                return Err(ConfigError::InvalidSettingFormat(Setting::Runners));
            },
        };
        let errors_value = match resolve_numeric(Setting::Errors, &errors, &mut defaulted) {
            Option::Some(v) => v,
            Option::None => {
                return Err(ConfigError::InvalidSettingFormat(Setting::Errors));
            },
        };
        let transactions_value = match resolve_numeric(
            Setting::Transactions,
            &transactions,
            &mut defaulted,
        ) {
            Option::Some(v) => v,
            Option::None => {
                return Err(ConfigError::InvalidSettingFormat(Setting::Transactions));
            },
        };
        let delay_value = match resolve_numeric(Setting::Delay, &delay, &mut defaulted) {
            Option::Some(v) => v,
            Option::None => {
                return Err(ConfigError::InvalidSettingFormat(Setting::Delay));
            },
        };
        proof {
            assert(defaulted@ =~= spec_defaulted(runners, errors, transactions, delay));
        }
        Ok(
            (
                Config {
                    dsn: dsn_value,
                    runners: runners_value,
                    errors: errors_value,
                    transactions: transactions_value,
                    delay: delay_value,
                },
                defaulted,
            ),
        )
    }
}

/// Resolves one optional numeric setting: parses a present value, and records
/// `which` in `defaulted` when the value is absent and the default applies.
fn resolve_numeric(which: Setting, v: &Option<String>, defaulted: &mut Vec<Setting>) -> (r: Option<
    u32,
>)
    ensures
        r is Some <==> numeric_ok(*v),
        numeric_ok(*v) ==> r == Some(numeric_resolved(*v, which.spec_default())),
        *v is None ==> final(defaulted)@ == old(defaulted)@.push(which),
        *v is Some ==> final(defaulted)@ == old(defaulted)@,
{
    match v {
        Option::Some(s) => text::parse_u32(s.as_str()),
        Option::None => {
            defaulted.push(which);
            Some(which.default_value())
        },
    }
}

} // verus!
