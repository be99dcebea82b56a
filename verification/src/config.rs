//! Configuration parameters for initializing the toolkit: present mode,
//! adapter options and API-call tracing.

use vstd::prelude::*;
use vstd::string::StringExecFns;

use crate::util::str_eq;
use crate::Error;

verus! {

/// How frames are presented on a window surface.
#[derive(Clone, Copy, PartialEq, Eq, Structural, Debug)]
pub enum PresentMode {
    Immediate,
    Mailbox,
    Fifo,
}

/// Which kind of adapter to prefer.
#[derive(Clone, Copy, PartialEq, Eq, Structural, Debug)]
pub enum PowerPreference {
    LowPower,
    HighPerformance,
}

/// Configuration for requesting an adapter.
#[derive(Clone, Copy, PartialEq, Eq, Structural, Debug)]
pub struct ConfigAdapter {
    pub power_preference: PowerPreference,
    pub force_fallback_adapter: bool,
}

/// Configuration type for initializing the toolkit.
pub struct Config {
    /// Web only features are enabled in wgpu.
    pub web: bool,
    /// Path can be used for API call tracing, if that feature is enabled.
    pub trace_path: Option<String>,
    /// Present mode configuration for window surface.
    pub present_mode: PresentMode,
    /// Options for requesting an adapter.
    pub adapter_options: ConfigAdapter,
}

/// The adapter options as they are read from a configuration file.
pub struct TomlConfigAdapter {
    pub power_preference: Option<String>,
    pub force_fallback_adapter: Option<bool>,
}

/// The configuration as it is read from a configuration file: every entry
/// may be missing.
pub struct TomlConfig {
    pub web: Option<bool>,
    pub trace_path: Option<String>,
    pub present_mode: Option<String>,
    pub adapter_options: Option<TomlConfigAdapter>,
}

/// The present mode a name stands for.
pub open spec fn present_mode_of(s: Seq<char>) -> Option<PresentMode> {
    if s == "immediate"@ {
        Some(PresentMode::Immediate)
    } else if s == "mailbox"@ {
        Some(PresentMode::Mailbox)
    } else if s == "fifo"@ {
        Some(PresentMode::Fifo)
    } else {
        None
    }
}

/// The name of each present mode, in lower case.
pub open spec fn present_mode_name(m: PresentMode) -> Seq<char> {
    match m {
        PresentMode::Immediate => "immediate"@,
        PresentMode::Mailbox => "mailbox"@,
        PresentMode::Fifo => "fifo"@,
    }
}

/// A name stands for a present mode exactly when it is that mode's name:
/// reading a present mode gives the mode the text names, and each mode is
/// read back from its own name.
pub proof fn lemma_present_mode_names(s: Seq<char>, m: PresentMode)
    ensures
        present_mode_of(s) == Some(m) <==> s == present_mode_name(m),
{
    reveal_strlit("immediate");
    reveal_strlit("mailbox");
    reveal_strlit("fifo");
    assert("immediate"@.len() == 9 && "mailbox"@.len() == 7 && "fifo"@.len() == 4);
    assert("immediate"@ != "mailbox"@ && "immediate"@ != "fifo"@ && "mailbox"@ != "fifo"@);
}

/// The power preference a name stands for.
pub open spec fn power_preference_of(s: Seq<char>) -> Option<PowerPreference> {
    if s == "low_power"@ {
        Some(PowerPreference::LowPower)
    } else if s == "high_performance"@ {
        Some(PowerPreference::HighPerformance)
    } else {
        None
    }
}

/// The name of each power preference.
pub open spec fn power_preference_name(p: PowerPreference) -> Seq<char> {
    match p {
        PowerPreference::LowPower => "low_power"@,
        PowerPreference::HighPerformance => "high_performance"@,
    }
}

/// A name stands for a power preference exactly when it is that
/// preference's name.
pub proof fn lemma_power_preference_names(s: Seq<char>, p: PowerPreference)
    ensures
        power_preference_of(s) == Some(p) <==> s == power_preference_name(p),
{
    reveal_strlit("low_power");
    reveal_strlit("high_performance");
    assert("low_power"@.len() == 9 && "high_performance"@.len() == 16);
    assert("low_power"@ != "high_performance"@);
}

/// The message of the error for an unknown power preference.
pub open spec fn power_preference_error() -> Seq<char> {
    "invalid config.adapter_options.power_preference"@
}

/// Parses a power preference: `"low_power"` or `"high_performance"`.
pub fn power_preference(s: &str) -> (r: Result<PowerPreference, Error>)
    ensures
        match power_preference_of(s@) {
            Some(p) => r == Ok::<PowerPreference, Error>(p),
            None => r matches Err(Error::Invalid(_, msg)) && msg@ == power_preference_error(),
        },
{
    if str_eq(s, "low_power") {
        Ok(PowerPreference::LowPower)
    } else if str_eq(s, "high_performance") {
        Ok(PowerPreference::HighPerformance)
    } else {
        Err(
            Error::Invalid(
                String::from_str("config"),
                String::from_str("invalid config.adapter_options.power_preference"),
            ),
        )
    }
}

/// The power preference named in the file, if any.
pub open spec fn toml_power_preference(t: TomlConfig) -> Option<String> {
    match t.adapter_options {
        Some(a) => a.power_preference,
        None => None,
    }
}

/// The fallback-adapter flag given in the file, if any.
pub open spec fn toml_force_fallback(t: TomlConfig) -> Option<bool> {
    match t.adapter_options {
        Some(a) => a.force_fallback_adapter,
        None => None,
    }
}

/// The file names a present mode that does not exist.
pub open spec fn bad_present_mode(t: TomlConfig) -> bool {
    t.present_mode matches Some(s) && present_mode_of(s@) is None
}

/// The file names a power preference that does not exist.
pub open spec fn bad_power_preference(t: TomlConfig) -> bool {
    toml_power_preference(t) matches Some(s) && power_preference_of(s@) is None
}

impl Config {
    /// The default configuration: no web features, no tracing, FIFO
    /// presentation, a high-performance adapter without fallback.
    pub fn default() -> (c: Config)
        ensures
            !c.web,
            c.trace_path is None,
            c.present_mode == PresentMode::Fifo,
            c.adapter_options == (ConfigAdapter {
                power_preference: PowerPreference::HighPerformance,
                force_fallback_adapter: false,
            }),
    {
        Config {
            web: false,
            trace_path: None,
            present_mode: PresentMode::Fifo,
            adapter_options: ConfigAdapter {
                power_preference: PowerPreference::HighPerformance,
                force_fallback_adapter: false,
            },
        }
    }

    /// The default configuration with every entry given in the file put in
    /// its place; an empty trace path counts as none.
    pub fn from_toml(t: TomlConfig) -> (r: Result<Config, Error>)
        ensures
            r is Err <==> bad_present_mode(t) || bad_power_preference(t),
            bad_present_mode(t) ==> (r matches Err(Error::Invalid(_, msg)) && msg@ == "present_mode "@
                + t.present_mode.unwrap()@),
            !bad_present_mode(t) && bad_power_preference(t) ==> (r matches Err(Error::Invalid(_, msg))
                && msg@ == power_preference_error()),
            r matches Ok(c) ==> {
                &&& c.web == match t.web {
                    Some(w) => w,
                    None => false,
                }
                &&& (c.trace_path is Some <==> (t.trace_path is Some && t.trace_path.unwrap()@.len() > 0))
                &&& (c.trace_path is Some ==> c.trace_path.unwrap()@ == t.trace_path.unwrap()@)
                &&& c.present_mode == match t.present_mode {
                    Some(s) => present_mode_of(s@).unwrap(),
                    None => PresentMode::Fifo,
                }
                &&& c.adapter_options.power_preference == match toml_power_preference(t) {
                    Some(s) => power_preference_of(s@).unwrap(),
                    None => PowerPreference::HighPerformance,
                }
                &&& c.adapter_options.force_fallback_adapter == match toml_force_fallback(t) {
                    Some(f) => f,
                    None => false,
                }
            },
    {
        let mut c = Config::default();
        if let Some(val) = t.web {
            c.web = val;
        }
        c.trace_path = match t.trace_path {
            Some(val) => if val.as_str().unicode_len() > 0 {
                Some(val)
            } else {
                None
            },
            None => None,
        };
        c.present_mode = match &t.present_mode {
            Some(s) => {
                if str_eq(s.as_str(), "immediate") {
                    PresentMode::Immediate
                } else if str_eq(s.as_str(), "mailbox") {
                    PresentMode::Mailbox
                } else if str_eq(s.as_str(), "fifo") {
                    PresentMode::Fifo
                } else {
                    let mut msg = String::from_str("present_mode ");
                    msg.append(s.as_str());
                    proof {
                        reveal_strlit("present_mode ");
                    }
                    return Err(Error::Invalid(String::from_str("config"), msg));
                }
            },
            None => c.present_mode,
        };
        match &t.adapter_options {
            Some(a) => {
                match &a.power_preference {
                    Some(p) => {
                        match power_preference(p.as_str()) {
                            Ok(v) => {
                                c.adapter_options.power_preference = v;
                            },
                            Err(e) => {
                                return Err(e);
                            },
                        }
                    },
                    None => {},
                }
                match a.force_fallback_adapter {
                    Some(f) => {
                        c.adapter_options.force_fallback_adapter = f;
                    },
                    None => {},
                }
            },
            None => {},
        }
        Ok(c)
    }

    /// The trace path for API call tracing, if one is configured.
    pub fn to_trace_path(&self) -> (r: Option<&str>)
        ensures
            r is Some <==> self.trace_path is Some,
            r matches Some(p) ==> p@ == self.trace_path.unwrap()@,
    {
        match &self.trace_path {
            Some(p) => Some(p.as_str()),
            None => None,
        }
    }
}

} // verus!
