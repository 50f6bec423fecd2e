//! The relay's settings: broker address and credentials, sink endpoint and
//! key, and the environment selector that picks which configuration layer
//! applies. Credentials sit in [`SecretString`], which yields its value
//! only through one explicit accessor.

use vstd::prelude::*;
use vstd::string::*;
use crate::text::{ascii_lowercase, lower_seq};

verus! {

/// A credential held so that it cannot be logged or serialized by
/// accident: the value leaves the container only through
/// [`SecretString::expose_secret`].
#[derive(Clone)]
pub struct SecretString {
    secret: String,
}

impl View for SecretString {
    type V = Seq<char>;

    closed spec fn view(&self) -> Seq<char> {
        self.secret@
    }
}

impl SecretString {
    /// Wraps a credential value.
    pub fn new(secret: String) -> (s: SecretString)
        ensures
            s@ == secret@,
    {
        SecretString { secret }
    }

    /// The one deliberate way at the raw value, used solely to build the
    /// broker connection string and the sink's authentication header.
    pub fn expose_secret(&self) -> (r: &str)
        ensures
            r@ == self@,
    {
        self.secret.as_str()
    }
}

/// Credentials for the broker connection.
#[derive(Clone)]
pub struct AuthSettings {
    pub username: String,
    pub password: SecretString,
}

/// Address and credentials of the message broker.
#[derive(Clone)]
pub struct RabbitMQSettings {
    pub protocol: String,
    pub host: String,
    pub port: u16,
    pub auth: AuthSettings,
}

/// Endpoint and key of the persistence sink.
#[derive(Clone)]
pub struct SupabaseSettings {
    pub uri: String,
    pub key: SecretString,
}

/// Everything the relay reads at startup, shared read-only by all loops.
#[derive(Clone)]
pub struct Settings {
    pub rabbitmq: RabbitMQSettings,
    pub supabase: SupabaseSettings,
}

/// The environment a configuration is resolved for. Exactly two are
/// recognized; anything else is a fatal startup error.
#[derive(Clone, Copy, PartialEq, Eq, Structural)]
pub enum Environment {
    Local,
    Production,
}

impl Environment {
    /// The characters of this environment's name.
    pub open spec fn spec_str(self) -> Seq<char> {
        match self {
            Environment::Local => "local"@,
            Environment::Production => "production"@,
        }
    }

    /// This environment's name, the one [`Environment::try_from`] accepts
    /// for it.
    pub fn as_str(&self) -> (r: &'static str)
        ensures
            r@ == self.spec_str(),
    {
        match self {
            Environment::Local => "local",
            Environment::Production => "production",
        }
    }

    /// Parses an environment selector, ignoring ASCII case: exactly
    /// `"local"` and `"production"` are accepted. Any other value is
    /// rejected with a message that names the offending value and both
    /// accepted ones.
    pub fn try_from(s: String) -> (r: Result<Environment, String>)
        ensures
            r is Ok <==> (lower_seq(s@) == "local"@ || lower_seq(s@) == "production"@),
            r matches Ok(e) ==> (e == Environment::Local <==> lower_seq(s@) == "local"@),
            r matches Ok(e) ==> (e == Environment::Production <==> lower_seq(s@)
                == "production"@),
            r matches Err(m) ==> m@ == lower_seq(s@)
                + " is not a supported environment. Use either `local` or `production`."@,
    {
        let lower = ascii_lowercase(s.as_str());
        if lower == String::from_str("local") {
            proof {
                reveal_strlit("local");
                reveal_strlit("production");
                assert("local"@.len() == 5);
                assert("production"@.len() == 10);
                assert(lower_seq(s@) != "production"@);
            }
            Ok(Environment::Local)
        } else if lower == String::from_str("production") {
            Ok(Environment::Production)
        } else {
            Err(
                lower.concat(
                    " is not a supported environment. Use either `local` or `production`.",
                ),
            )
        }
    }
}

} // verus!
