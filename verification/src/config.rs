use vstd::prelude::*;
use vstd::string::StringExecFns;
use crate::error::{AppError, ErrorKind};
use crate::jwt::{DecodingKey, EncodingKey, key_pair_pem_ok, public_key_pem};
use crate::text::{decimal, push_decimal};

verus! {

/// The settings of the chat service.
#[derive(Debug)]
pub struct AppConfig {
    pub server: ServerConfig,
    pub auth: AuthConfig,
}

/// The signing key and the checking key of tokens, in PEM format.
#[derive(Debug)]
pub struct AuthConfig {
    pub sk: String,
    pub pk: String,
}

/// Where the service listens, its database, and where uploads are stored.
#[derive(Debug)]
pub struct ServerConfig {
    pub port: u16,
    pub db_url: String,
    pub base_dir: String,
}

/// Where the settings are read from.
#[derive(Debug, PartialEq, Eq)]
pub enum ConfigSource {
    /// `chat.yaml` in the working directory.
    Local,
    /// `/etc/config/chat.yaml`.
    System,
    /// The file named by the `CHAT_CONFIG` environment variable.
    EnvPath(String),
}

/// The file the settings are read from, for each source.
pub open spec fn source_file(source: ConfigSource) -> Seq<char> {
    match source {
        ConfigSource::Local => "chat.yaml"@,
        ConfigSource::System => "/etc/config/chat.yaml"@,
        ConfigSource::EnvPath(p) => p@,
    }
}

impl ConfigSource {
    /// The file this source reads the settings from.
    pub fn file_name(&self) -> (f: String)
        ensures
            f@ == source_file(*self),
    {
        match self {
            ConfigSource::Local => String::from_str("chat.yaml"),
            ConfigSource::System => String::from_str("/etc/config/chat.yaml"),
            ConfigSource::EnvPath(p) => p.clone(),
        }
    }
}

impl AppConfig {
    /// Picks where the settings are read from: the local file if it opens,
    /// else the system file if it opens, else the file that `CHAT_CONFIG`
    /// names; with none of them there is no configuration.
    pub fn source(local_opens: bool, system_opens: bool, env_path: Option<String>) -> (r: Result<ConfigSource, String>)
        ensures
            local_opens ==> r == Ok::<ConfigSource, String>(ConfigSource::Local),
            !local_opens && system_opens ==> r == Ok::<ConfigSource, String>(ConfigSource::System),
            !local_opens && !system_opens ==> match env_path {
                Some(p) => r matches Ok(ConfigSource::EnvPath(q)) && q@ == p@,
                None => r matches Err(m) && m@ == "No configuration file found"@,
            },
    {
        if local_opens {
            Ok(ConfigSource::Local)
        } else if system_opens {
            Ok(ConfigSource::System)
        } else {
            match env_path {
                Some(p) => Ok(ConfigSource::EnvPath(p)),
                None => Err(String::from_str("No configuration file found")),
            }
        }
    }

    /// The address the service listens on: every interface, at the configured port.
    pub fn listen_addr(&self) -> (a: String)
        ensures
            a@ == "0.0.0.0:"@ + decimal(self.server.port as nat),
    {
        let mut a = String::from_str("0.0.0.0:");
        push_decimal(&mut a, self.server.port as u64);
        a
    }

    /// Reads the checking key and then the signing key of tokens.
    pub fn load_keys(&self) -> (r: Result<(DecodingKey, EncodingKey), AppError>)
        ensures
            r is Ok <==> public_key_pem(self.auth.pk@) is Some && key_pair_pem_ok(self.auth.sk@),
            r matches Err(e) ==> e@.0 == ErrorKind::Jwt,
    {
        let dk = DecodingKey::load(self.auth.pk.as_str())?;
        let ek = EncodingKey::load(self.auth.sk.as_str())?;
        Ok((dk, ek))
    }
}

} // verus!
