//! The peer's configuration: who it is and where its hub is.

use vstd::prelude::*;

verus! {

/// Whether a character is a digit or one of `a` to `f`.
pub open spec fn is_lower_hex(c: char) -> bool {
    ('0' <= c && c <= '9') || ('a' <= c && c <= 'f')
}

/// Whether a text has the shape of a hyphenated UUID: 36 characters, hyphens
/// after the 8th, 12th, 16th and 20th digit, lower-case hexadecimal digits
/// elsewhere.
pub open spec fn is_hyphenated_uuid(text: Seq<char>) -> bool {
    &&& text.len() == 36
    &&& forall|i: int|
        0 <= i < 36 ==> if i == 8 || i == 13 || i == 18 || i == 23 {
            #[trigger] text[i] == '-'
        } else {
            is_lower_hex(text[i])
        }
}

/// Whether a text has the shape of a random UUID: a hyphenated UUID whose
/// version digit, the first of the third group, is `4`, and whose variant
/// digit, the first of the fourth group, is one of `8`, `9`, `a`, `b`.
pub open spec fn is_random_uuid(text: Seq<char>) -> bool {
    &&& is_hyphenated_uuid(text)
    &&& text[14] == '4'
    &&& (text[19] == '8' || text[19] == '9' || text[19] == 'a' || text[19] == 'b')
}

/// Draws a fresh identifier.
///
/// Calls `uuid::Uuid::new_v4`, which sets the version to 4 and the variant
/// bits to `10` over random bits, and writes the result with its `Display`,
/// which is the hyphenated lower-case form. Which identifier comes out is
/// left to chance; what is stated holds of every outcome.
#[verifier::external_body]
fn fresh_identifier() -> (id: String)
    ensures
        is_random_uuid(id@),
{
    uuid::Uuid::new_v4().to_string()
}

/// The value of a [`Config`].
pub struct ConfigView {
    pub uuid: Seq<char>,
    pub remote: Option<Seq<char>>,
}

/// The peer's configuration.
#[derive(Debug)]
pub struct Config {
    uuid: String,
    remote: Option<String>,
}

impl View for Config {
    type V = ConfigView;

    closed spec fn view(&self) -> ConfigView {
        ConfigView {
            uuid: self.uuid@,
            remote: match self.remote {
                Some(address) => Some(address@),
                None => None,
            },
        }
    }
}

impl Clone for Config {
    fn clone(&self) -> (copy: Config)
        ensures
            copy@ == self@,
    {
        Config {
            uuid: self.uuid.clone(),
            remote: match &self.remote {
                Some(address) => Some(address.clone()),
                None => None,
            },
        }
    }
}

impl Config {
    /// The configuration of the peer with this identifier, with the hub's
    /// address if it is not the built-in one.
    pub fn new(uuid: String, remote: Option<String>) -> (config: Config)
        ensures
            config@.uuid == uuid@,
            config@.remote == match remote {
                Some(address) => Some(address@),
                None => None::<Seq<char>>,
            },
    {
        Config { uuid, remote }
    }

    /// The peer's identifier.
    pub fn uuid(&self) -> (id: &str)
        ensures
            id@ == self@.uuid,
    {
        self.uuid.as_str()
    }

    /// The hub's address, if the configuration overrides it.
    pub fn remote(&self) -> (address: Option<&str>)
        ensures
            match address {
                Some(a) => self@.remote == Some(a@),
                None => self@.remote is None,
            },
    {
        match &self.remote {
            Some(address) => Some(address.as_str()),
            None => None,
        }
    }

    /// The hub's address: the configured one, or else the one built in.
    pub fn remote_or<'a>(&'a self, built_in: &'a str) -> (address: &'a str)
        ensures
            address@ == match self@.remote {
                Some(a) => a,
                None => built_in@,
            },
    {
        match &self.remote {
            Some(address) => address.as_str(),
            None => built_in,
        }
    }
}

impl Default for Config {
    /// A configuration for a new installation: a fresh identifier and the
    /// built-in hub.
    fn default() -> (config: Config)
        ensures
            is_random_uuid(config@.uuid),
            config@.remote is None,
    {
        Config { uuid: fresh_identifier(), remote: None }
    }
}

} // verus!
