//! What the client remembers between two runs: the protocol it speaks and
//! the hostname it goes by.

use vstd::prelude::*;
use vstd::string::StringExecFns;
use crate::config_file::encode;
use crate::config_file::encoded;
use crate::config_file::lemma_round_trip;
use crate::config_file::config_of;
use crate::config_file::read_config;
use crate::text::digit_char;
use crate::text::digit_to_char;
use crate::text::push_char;

verus! {

/// The client's stored configuration.
pub struct Config {
    pub protocol_id: u64,
    pub hostname: String,
}

/// The hostname made of four digits.
pub open spec fn hostname_of(d0: u8, d1: u8, d2: u8, d3: u8) -> Seq<char> {
    seq![
        digit_char(d0 as int),
        digit_char(d1 as int),
        digit_char(d2 as int),
        digit_char(d3 as int),
    ] + ".client.alvr"@
}

/// Whether a text is a hostname as a new configuration gets one: four
/// decimal digits and `.client.alvr`.
pub open spec fn is_fresh_hostname(hostname: Seq<char>) -> bool {
    exists|d0: u8, d1: u8, d2: u8, d3: u8|
        d0 < 10 && d1 < 10 && d2 < 10 && d3 < 10 && hostname == #[trigger] hostname_of(
            d0,
            d1,
            d2,
            d3,
        )
}

/// Draws a number below a bound. Trusted: `rand::Rng::gen_range` on
/// `rand::thread_rng()` returns a value of the range it is given, which
/// must not be empty; nothing is claimed of which one.
#[verifier::external_body]
fn random_below(bound: u8) -> (drawn: u8)
    requires
        bound > 0,
    ensures
        drawn < bound,
{
    rand::Rng::gen_range(&mut rand::thread_rng(), 0u8..bound)
}

/// Writes the hostname made of four digits.
pub fn hostname_from_digits(d0: u8, d1: u8, d2: u8, d3: u8) -> (hostname: String)
    requires
        d0 < 10,
        d1 < 10,
        d2 < 10,
        d3 < 10,
    ensures
        hostname@ == hostname_of(d0, d1, d2, d3),
        is_fresh_hostname(hostname@),
{
    let mut hostname = String::new();
    push_char(&mut hostname, digit_to_char(d0));
    push_char(&mut hostname, digit_to_char(d1));
    push_char(&mut hostname, digit_to_char(d2));
    push_char(&mut hostname, digit_to_char(d3));
    hostname.append(".client.alvr");
    assert(hostname@ =~= hostname_of(d0, d1, d2, d3));
    hostname
}

/// What the text of a configuration file stands for as a configuration.
pub open spec fn is_config_of(config: Config, text: Seq<char>) -> bool {
    config_of(text) == Some((config.protocol_id, config.hostname@))
}

/// Whether a configuration, with the flag that says whether it is to be
/// stored, is what a client starts with for a configuration file, `None`
/// standing for a file that is absent or cannot be read. A file that holds
/// a configuration of this protocol is kept as it is and nothing is
/// stored; any other gives a new configuration of this protocol under a
/// fresh hostname, which is to be stored.
pub open spec fn is_start_of(config: Config, store: bool, file: Option<&str>, protocol_id: u64) -> bool {
    if file matches Some(text) && config_of(text@) matches Some(stored) && stored.0 == protocol_id {
        !store && is_config_of(config, file->Some_0@)
    } else {
        store && config.protocol_id == protocol_id && is_fresh_hostname(config.hostname@)
    }
}

impl Config {
    /// A new configuration for this protocol, under a hostname of four
    /// random digits.
    pub fn default_for(protocol_id: u64) -> (config: Config)
        ensures
            config.protocol_id == protocol_id,
            is_fresh_hostname(config.hostname@),
    {
        let d0 = random_below(10);
        let d1 = random_below(10);
        let d2 = random_below(10);
        let d3 = random_below(10);
        Config { protocol_id, hostname: hostname_from_digits(d0, d1, d2, d3) }
    }

    /// The text to store in the configuration file.
    pub fn store(&self) -> (text: String)
        ensures
            text@ == encoded(self.protocol_id, self.hostname@),
            is_config_of(*self, text@),
    {
        proof {
            lemma_round_trip(self.protocol_id, self.hostname@);
        }
        encode(self.protocol_id, self.hostname.as_str())
    }

    /// Reads a configuration from the text of a configuration file.
    pub fn parse(text: &str) -> (config: Option<Config>)
        ensures
            config is Some <==> config_of(text@) is Some,
            config matches Some(read) ==> is_config_of(read, text@),
    {
        match read_config(text) {
            Some((protocol_id, hostname)) => Some(Config { protocol_id, hostname }),
            None => None,
        }
    }

    /// Takes what was read from the configuration file, `None` standing for
    /// a file that is absent or cannot be read. A text that stands for a
    /// configuration gives that configuration; else a new configuration is
    /// made, which is to be stored (`true`).
    pub fn load(file: Option<&str>, protocol_id: u64) -> (loaded: (Config, bool))
        ensures
            (file matches Some(text) && config_of(text@) is Some) ==> !loaded.1 && is_config_of(
                loaded.0,
                file->Some_0@,
            ),
            !(file matches Some(text) && config_of(text@) is Some) ==> loaded.1
                && loaded.0.protocol_id == protocol_id && is_fresh_hostname(loaded.0.hostname@),
    {
        if let Some(text) = file {
            if let Some(config) = Config::parse(text) {
                return (config, false);
            }
        }
        (Config::default_for(protocol_id), true)
    }

    /// The configuration to start with: that of the file where the file
    /// holds one of this protocol, and else a new one, which is to be stored
    /// (`true`). So the hostname stays the same from run to run as long as
    /// the file is there, can be read and is of this protocol.
    pub fn startup(file: Option<&str>, protocol_id: u64) -> (start: (Config, bool))
        ensures
            is_start_of(start.0, start.1, file, protocol_id),
    {
        let loaded = Config::load(file, protocol_id);
        if loaded.0.protocol_id != protocol_id {
            (Config::default_for(protocol_id), true)
        } else {
            loaded
        }
    }
}

/// The hostname survives a restart: the file that a configuration was
/// stored in stands for that configuration, so starting from it under the
/// same protocol gives the same hostname and nothing new to store.
pub proof fn lemma_hostname_is_stable(config: Config)
    ensures
        is_config_of(config, encoded(config.protocol_id, config.hostname@)),
{
    lemma_round_trip(config.protocol_id, config.hostname@);
}

} // verus!
