//! Configuration: service credentials and defaults, and the rules for changing
//! and showing them.
use vstd::prelude::*;
use crate::text::{lowercase_of, same_text, to_lower};

verus! {

/// Credentials of the two services.
#[derive(Debug)]
pub struct Keys {
    pub gemini: Option<String>,
    pub serper: Option<String>,
}

/// Defaults for a search session.
#[derive(Debug)]
pub struct Defaults {
    pub limit: usize,
    pub output_dir: String,
}

/// The whole configuration.
#[derive(Debug)]
pub struct Config {
    pub keys: Keys,
    pub defaults: Defaults,
}

impl Default for Keys {
    fn default() -> (r: Self)
        ensures
            r.gemini is None,
            r.serper is None,
    {
        Keys { gemini: None, serper: None }
    }
}

impl Default for Defaults {
    fn default() -> (r: Self)
        ensures
            r.limit == 5,
            r.output_dir@ == "./downloads"@,
    {
        Defaults { limit: 5, output_dir: String::from_str("./downloads") }
    }
}

impl Default for Config {
    fn default() -> (r: Self)
        ensures
            r.keys.gemini is None,
            r.keys.serper is None,
            r.defaults.limit == 5,
            r.defaults.output_dir@ == "./downloads"@,
    {
        Config { keys: Keys::default(), defaults: Defaults::default() }
    }
}

/// The message for a provider name that is neither service.
pub open spec fn unknown_provider_message(provider: Seq<char>) -> Seq<char> {
    "Unknown provider: "@ + provider + ". Use 'gemini' or 'serper'."@
}

/// `new` is `old` with the key of `provider` (already lower-cased) set to `key`,
/// or, for an unknown provider, unchanged with the error.
pub open spec fn key_set(
    old: Config,
    new: Config,
    lowered: Seq<char>,
    provider: Seq<char>,
    key: Seq<char>,
    r: Result<(), String>,
) -> bool {
    if lowered == "gemini"@ {
        &&& r is Ok
        &&& new.keys.gemini matches Some(k) && k@ == key
        &&& new.keys.serper == old.keys.serper
        &&& new.defaults == old.defaults
    } else if lowered == "serper"@ {
        &&& r is Ok
        &&& new.keys.serper matches Some(k) && k@ == key
        &&& new.keys.gemini == old.keys.gemini
        &&& new.defaults == old.defaults
    } else {
        &&& new == old
        &&& r matches Err(m) && m@ == unknown_provider_message(provider)
    }
}

/// Stores `key` for the provider whose lower-cased name is `lowered`; `provider`
/// is the name as given, for the error message.
pub fn set_key_lowered(config: &mut Config, lowered: &str, provider: &str, key: &str) -> (r: Result<
    (),
    String,
>)
    ensures
        key_set(*old(config), *final(config), lowered@, provider@, key@, r),
{
    if same_text(lowered, "gemini") {
        config.keys.gemini = Some(String::from_str(key));
        Ok(())
    } else if same_text(lowered, "serper") {
        config.keys.serper = Some(String::from_str(key));
        Ok(())
    } else {
        let mut m = String::from_str("Unknown provider: ");
        m.append(provider);
        m.append(". Use 'gemini' or 'serper'.");
        Err(m)
    }
}

/// Stores `key` for `provider` (`gemini` or `serper`, in any case).
pub fn set_key(config: &mut Config, provider: &str, key: &str) -> (r: Result<(), String>)
    ensures
        key_set(*old(config), *final(config), lowercase_of(provider@), provider@, key@, r),
{
    let lowered = to_lower(provider);
    set_key_lowered(config, lowered.as_str(), provider, key)
}

/// How a stored key is shown: masked when set.
pub open spec fn masked_text(key: Option<String>) -> Seq<char> {
    match key {
        Some(_) => "***"@,
        None => "(not set)"@,
    }
}

/// Shows a stored key without revealing it.
pub fn masked_key(key: &Option<String>) -> (r: &'static str)
    ensures
        r@ == masked_text(*key),
{
    match key {
        Some(_) => "***",
        None => "(not set)",
    }
}

/// The Gemini credential, or the error that tells how to set it.
pub fn gemini_key(config: &Config) -> (r: Result<String, String>)
    ensures
        config.keys.gemini matches Some(k) ==> r == Ok::<String, String>(k),
        config.keys.gemini is None ==> (r matches Err(m)
            && m@ == "Gemini API key not set. Run: fetchr config set-key gemini <KEY>"@),
{
    match &config.keys.gemini {
        Some(k) => Ok(k.clone()),
        None => Err(String::from_str("Gemini API key not set. Run: fetchr config set-key gemini <KEY>")),
    }
}

/// The Serper credential, or the error that tells how to set it.
pub fn serper_key(config: &Config) -> (r: Result<String, String>)
    ensures
        config.keys.serper matches Some(k) ==> r == Ok::<String, String>(k),
        config.keys.serper is None ==> (r matches Err(m)
            && m@ == "Serper API key not set. Run: fetchr config set-key serper <KEY>"@),
{
    match &config.keys.serper {
        Some(k) => Ok(k.clone()),
        None => Err(String::from_str("Serper API key not set. Run: fetchr config set-key serper <KEY>")),
    }
}

} // verus!
