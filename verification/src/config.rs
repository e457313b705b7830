//! Process configuration: the values that must be present at startup, and
//! the broker client configuration that is made of them.

use vstd::prelude::*;
use rdkafka::config::ClientConfig;
use crate::auth::StaticCredential;

verus! {

/// A value that the process cannot start without.
#[derive(Clone, Copy, Debug, PartialEq, Eq, Structural)]
pub enum Setting {
    BrokerAddress,
    SecurityProtocol,
    SaslMechanism,
    Username,
    Password,
    AuthCredential,
}

impl Setting {
    /// The name of the environment variable that holds this value.
    pub open spec fn spec_variable(self) -> Seq<char> {
        match self {
            Setting::BrokerAddress => "KAFKA_HOST"@,
            Setting::SecurityProtocol => "KAFKA_PROTOCOL"@,
            Setting::SaslMechanism => "KAFKA_MECHANISM"@,
            Setting::Username => "KAFKA_USERNAME"@,
            Setting::Password => "KAFKA_PASSWORD"@,
            Setting::AuthCredential => "AUTH_TOKEN"@,
        }
    }

    /// The name of the environment variable that holds this value.
    pub fn variable(self) -> (name: &'static str)
        ensures
            name@ == self.spec_variable(),
    {
        match self {
            Setting::BrokerAddress => "KAFKA_HOST",
            Setting::SecurityProtocol => "KAFKA_PROTOCOL",
            Setting::SaslMechanism => "KAFKA_MECHANISM",
            Setting::Username => "KAFKA_USERNAME",
            Setting::Password => "KAFKA_PASSWORD",
            Setting::AuthCredential => "AUTH_TOKEN",
        }
    }
}

/// Why the configuration could not be loaded.
#[derive(Clone, Copy, Debug, PartialEq, Eq, Structural)]
pub enum ConfigError {
    /// This value is not set.
    Missing(Setting),
}

impl ConfigError {
    /// The complaint to end the process with.
    pub fn message(self) -> (text: String)
        ensures
            self matches ConfigError::Missing(setting) && text@ == setting.spec_variable()
                + " must be set"@,
    {
        match self {
            ConfigError::Missing(setting) => {
                let mut text = setting.variable().to_owned();
                text.append(" must be set");
                text
            },
        }
    }
}

/// What the environment holds of each setting: `None` where it is not set.
#[derive(Debug, PartialEq, Eq)]
pub struct Environment {
    pub broker_address: Option<String>,
    pub security_protocol: Option<String>,
    pub sasl_mechanism: Option<String>,
    pub username: Option<String>,
    pub password: Option<String>,
    pub auth_credential: Option<String>,
}

/// An `Environment`, as plain text.
pub struct EnvironmentView {
    pub broker_address: Option<Seq<char>>,
    pub security_protocol: Option<Seq<char>>,
    pub sasl_mechanism: Option<Seq<char>>,
    pub username: Option<Seq<char>>,
    pub password: Option<Seq<char>>,
    pub auth_credential: Option<Seq<char>>,
}

impl View for Environment {
    type V = EnvironmentView;

    open spec fn view(&self) -> EnvironmentView {
        EnvironmentView {
            broker_address: self.broker_address.deep_view(),
            security_protocol: self.security_protocol.deep_view(),
            sasl_mechanism: self.sasl_mechanism.deep_view(),
            username: self.username.deep_view(),
            password: self.password.deep_view(),
            auth_credential: self.auth_credential.deep_view(),
        }
    }
}

/// The configuration of a running gateway. It is loaded once and never
/// changes.
#[derive(Debug, PartialEq, Eq)]
pub struct GatewayConfig {
    pub broker_address: String,
    pub security_protocol: String,
    pub sasl_mechanism: String,
    pub username: String,
    pub password: String,
    pub auth_credential: String,
}

/// A `GatewayConfig`, as plain text.
pub struct ConfigView {
    pub broker_address: Seq<char>,
    pub security_protocol: Seq<char>,
    pub sasl_mechanism: Seq<char>,
    pub username: Seq<char>,
    pub password: Seq<char>,
    pub auth_credential: Seq<char>,
}

impl View for GatewayConfig {
    type V = ConfigView;

    open spec fn view(&self) -> ConfigView {
        ConfigView {
            broker_address: self.broker_address@,
            security_protocol: self.security_protocol@,
            sasl_mechanism: self.sasl_mechanism@,
            username: self.username@,
            password: self.password@,
            auth_credential: self.auth_credential@,
        }
    }
}

/// The first setting that an environment lacks, in the order in which they
/// are looked up.
pub open spec fn first_missing(env: EnvironmentView) -> Option<Setting> {
    if env.broker_address is None {
        Some(Setting::BrokerAddress)
    } else if env.security_protocol is None {
        Some(Setting::SecurityProtocol)
    } else if env.sasl_mechanism is None {
        Some(Setting::SaslMechanism)
    } else if env.username is None {
        Some(Setting::Username)
    } else if env.password is None {
        Some(Setting::Password)
    } else if env.auth_credential is None {
        Some(Setting::AuthCredential)
    } else {
        None
    }
}

/// The configuration that a complete environment gives.
pub open spec fn config_of(env: EnvironmentView) -> ConfigView
    recommends
        first_missing(env) is None,
{
    ConfigView {
        broker_address: env.broker_address->0,
        security_protocol: env.security_protocol->0,
        sasl_mechanism: env.sasl_mechanism->0,
        username: env.username->0,
        password: env.password->0,
        auth_credential: env.auth_credential->0,
    }
}

/// Loads the configuration. Every setting is required: if one is not set,
/// the first such is reported and there is no configuration.
pub fn load(env: Environment) -> (outcome: Result<GatewayConfig, ConfigError>)
    ensures
        match first_missing(env@) {
            Some(setting) => outcome == Err::<GatewayConfig, ConfigError>(
                ConfigError::Missing(setting),
            ),
            None => outcome matches Ok(config) && config@ == config_of(env@),
        },
{
    let broker_address = match env.broker_address {
        Some(value) => value,
        None => {
            return Err(ConfigError::Missing(Setting::BrokerAddress));
        },
    };
    let security_protocol = match env.security_protocol {
        Some(value) => value,
        None => {
            return Err(ConfigError::Missing(Setting::SecurityProtocol));
        },
    };
    let sasl_mechanism = match env.sasl_mechanism {
        Some(value) => value,
        None => {
            return Err(ConfigError::Missing(Setting::SaslMechanism));
        },
    };
    let username = match env.username {
        Some(value) => value,
        None => {
            return Err(ConfigError::Missing(Setting::Username));
        },
    };
    let password = match env.password {
        Some(value) => value,
        None => {
            return Err(ConfigError::Missing(Setting::Password));
        },
    };
    let auth_credential = match env.auth_credential {
        Some(value) => value,
        None => {
            return Err(ConfigError::Missing(Setting::AuthCredential));
        },
    };
    Ok(
        GatewayConfig {
            broker_address,
            security_protocol,
            sasl_mechanism,
            username,
            password,
            auth_credential,
        },
    )
}

/// A configuration in which nothing is set.
pub open spec fn no_entries() -> Map<Seq<char>, Seq<char>> {
    Map::empty()
}

/// The entries of the broker client configuration, by key: the five
/// connection values of the gateway's configuration, and the fixed tuning.
/// Times are in milliseconds: messages are buffered for up to 5 seconds and
/// given up after 2 minutes; a send is retried up to 5 times, after 3 seconds
/// at first and 5 at most; a connection is retried after 1 second at first and
/// 2 minutes at most.
pub open spec fn producer_entries(config: ConfigView) -> Map<Seq<char>, Seq<char>> {
    no_entries()
        .insert("bootstrap.servers"@, config.broker_address)
        .insert("security.protocol"@, config.security_protocol)
        .insert("sasl.mechanisms"@, config.sasl_mechanism)
        .insert("sasl.username"@, config.username)
        .insert("sasl.password"@, config.password)
        .insert("queue.buffering.max.ms"@, "5000"@)
        .insert("message.timeout.ms"@, "120000"@)
        .insert("retries"@, "5"@)
        .insert("retry.backoff.ms"@, "3000"@)
        .insert("retry.backoff.max.ms"@, "5000"@)
        .insert("reconnect.backoff.ms"@, "1000"@)
        .insert("reconnect.backoff.max.ms"@, "120000"@)
}

/// The broker client configuration has exactly twelve keys, and each has the
/// value that was meant for it: no entry displaces another.
pub proof fn lemma_producer_entries(config: ConfigView)
    ensures
        producer_entries(config).dom() =~= set![
            "bootstrap.servers"@,
            "security.protocol"@,
            "sasl.mechanisms"@,
            "sasl.username"@,
            "sasl.password"@,
            "queue.buffering.max.ms"@,
            "message.timeout.ms"@,
            "retries"@,
            "retry.backoff.ms"@,
            "retry.backoff.max.ms"@,
            "reconnect.backoff.ms"@,
            "reconnect.backoff.max.ms"@,
        ],
        producer_entries(config).dom().len() == 12,
        producer_entries(config)["bootstrap.servers"@] == config.broker_address,
        producer_entries(config)["security.protocol"@] == config.security_protocol,
        producer_entries(config)["sasl.mechanisms"@] == config.sasl_mechanism,
        producer_entries(config)["sasl.username"@] == config.username,
        producer_entries(config)["sasl.password"@] == config.password,
        producer_entries(config)["queue.buffering.max.ms"@] == "5000"@,
        producer_entries(config)["message.timeout.ms"@] == "120000"@,
        producer_entries(config)["retries"@] == "5"@,
        producer_entries(config)["retry.backoff.ms"@] == "3000"@,
        producer_entries(config)["retry.backoff.max.ms"@] == "5000"@,
        producer_entries(config)["reconnect.backoff.ms"@] == "1000"@,
        producer_entries(config)["reconnect.backoff.max.ms"@] == "120000"@,
{
    reveal_strlit("bootstrap.servers");
    reveal_strlit("security.protocol");
    reveal_strlit("sasl.mechanisms");
    reveal_strlit("sasl.username");
    reveal_strlit("sasl.password");
    reveal_strlit("queue.buffering.max.ms");
    reveal_strlit("message.timeout.ms");
    reveal_strlit("retries");
    reveal_strlit("retry.backoff.ms");
    reveal_strlit("retry.backoff.max.ms");
    reveal_strlit("reconnect.backoff.ms");
    reveal_strlit("reconnect.backoff.max.ms");
    // Keys of different lengths differ.
    assert("bootstrap.servers"@.len() == 17 && "security.protocol"@.len() == 17);
    assert("sasl.mechanisms"@.len() == 15);
    assert("sasl.username"@.len() == 13 && "sasl.password"@.len() == 13);
    assert("queue.buffering.max.ms"@.len() == 22);
    assert("message.timeout.ms"@.len() == 18);
    assert("retries"@.len() == 7);
    assert("retry.backoff.ms"@.len() == 16);
    assert("retry.backoff.max.ms"@.len() == 20 && "reconnect.backoff.ms"@.len() == 20);
    assert("reconnect.backoff.max.ms"@.len() == 24);
    // The three pairs of equal length differ in one position each.
    assert("bootstrap.servers"@[0] != "security.protocol"@[0]);
    assert("sasl.username"@[5] != "sasl.password"@[5]);
    assert("retry.backoff.max.ms"@[2] != "reconnect.backoff.ms"@[2]);
}

/// rdkafka's `ClientConfig`. Nothing inside it is visible here: what it holds
/// is spoken of through `config_entries`.
#[verifier::external_type_specification]
#[verifier::external_body]
pub struct ExClientConfig(ClientConfig);

/// The entries of a broker client configuration: the value that was last set
/// for each key.
pub uninterp spec fn config_entries(config: ClientConfig) -> Map<Seq<char>, Seq<char>>;

/// `ClientConfig::new` of rdkafka: a configuration without entries.
#[verifier::external_body]
fn empty_client_config() -> (client: ClientConfig)
    ensures
        config_entries(client) == no_entries(),
{
    ClientConfig::new()
}

/// `ClientConfig::set` of rdkafka: `key` now has `value`, whether or not it
/// had one before, and every other key is as it was.
#[verifier::external_body]
fn set_entry(client: &mut ClientConfig, key: &str, value: &str)
    ensures
        config_entries(*final(client)) == config_entries(*old(client)).insert(key@, value@),
{
    client.set(key, value);
}

impl GatewayConfig {
    /// The verifier for the credential that this configuration expects.
    pub fn credential(&self) -> (gate: StaticCredential)
        ensures
            gate.expected() == Some(self@.auth_credential),
    {
        StaticCredential::new(Some(self.auth_credential.clone()))
    }

    /// The configuration for the one broker client of the process.
    pub fn client_config(&self) -> (client: ClientConfig)
        ensures
            config_entries(client) == producer_entries(self@),
    {
        let mut client = empty_client_config();
        set_entry(&mut client, "bootstrap.servers", self.broker_address.as_str());
        set_entry(&mut client, "security.protocol", self.security_protocol.as_str());
        set_entry(&mut client, "sasl.mechanisms", self.sasl_mechanism.as_str());
        set_entry(&mut client, "sasl.username", self.username.as_str());
        set_entry(&mut client, "sasl.password", self.password.as_str());
        set_entry(&mut client, "queue.buffering.max.ms", "5000");
        set_entry(&mut client, "message.timeout.ms", "120000");
        set_entry(&mut client, "retries", "5");
        set_entry(&mut client, "retry.backoff.ms", "3000");
        set_entry(&mut client, "retry.backoff.max.ms", "5000");
        set_entry(&mut client, "reconnect.backoff.ms", "1000");
        set_entry(&mut client, "reconnect.backoff.max.ms", "120000");
        client
    }
}

} // verus!
