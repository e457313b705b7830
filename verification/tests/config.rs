use publish_gateway::auth::{authorize, CredentialVerifier};
use publish_gateway::config::{load, ConfigError, Environment, GatewayConfig, Setting};
use publish_gateway::error::GatewayError;

fn complete() -> Environment {
    Environment {
        broker_address: Some("broker.example:9093".to_string()),
        security_protocol: Some("SASL_SSL".to_string()),
        sasl_mechanism: Some("SCRAM-SHA-256".to_string()),
        username: Some("gateway".to_string()),
        password: Some("hunter2".to_string()),
        auth_credential: Some("s3cr3t".to_string()),
    }
}

fn loaded() -> GatewayConfig {
    load(complete()).unwrap()
}

#[test]
fn complete_environment_loads() {
    assert_eq!(
        load(complete()),
        Ok(GatewayConfig {
            broker_address: "broker.example:9093".to_string(),
            security_protocol: "SASL_SSL".to_string(),
            sasl_mechanism: "SCRAM-SHA-256".to_string(),
            username: "gateway".to_string(),
            password: "hunter2".to_string(),
            auth_credential: "s3cr3t".to_string(),
        })
    );
}

#[test]
fn empty_values_count_as_set() {
    let mut env = complete();
    env.password = Some(String::new());
    assert_eq!(load(env).unwrap().password, "");
}

#[test]
fn missing_broker_address_is_reported() {
    let mut env = complete();
    env.broker_address = None;
    assert_eq!(load(env), Err(ConfigError::Missing(Setting::BrokerAddress)));
}

#[test]
fn missing_security_protocol_is_reported() {
    let mut env = complete();
    env.security_protocol = None;
    assert_eq!(load(env), Err(ConfigError::Missing(Setting::SecurityProtocol)));
}

#[test]
fn missing_sasl_mechanism_is_reported() {
    let mut env = complete();
    env.sasl_mechanism = None;
    assert_eq!(load(env), Err(ConfigError::Missing(Setting::SaslMechanism)));
}

#[test]
fn missing_username_is_reported() {
    let mut env = complete();
    env.username = None;
    assert_eq!(load(env), Err(ConfigError::Missing(Setting::Username)));
}

#[test]
fn missing_password_is_reported() {
    let mut env = complete();
    env.password = None;
    assert_eq!(load(env), Err(ConfigError::Missing(Setting::Password)));
}

#[test]
fn missing_auth_credential_is_reported() {
    let mut env = complete();
    env.auth_credential = None;
    assert_eq!(load(env), Err(ConfigError::Missing(Setting::AuthCredential)));
}

#[test]
fn first_missing_setting_is_reported() {
    let mut env = complete();
    env.username = None;
    env.sasl_mechanism = None;
    env.auth_credential = None;
    assert_eq!(load(env), Err(ConfigError::Missing(Setting::SaslMechanism)));
    let nothing = Environment {
        broker_address: None,
        security_protocol: None,
        sasl_mechanism: None,
        username: None,
        password: None,
        auth_credential: None,
    };
    assert_eq!(load(nothing), Err(ConfigError::Missing(Setting::BrokerAddress)));
}

#[test]
fn settings_name_their_variables() {
    assert_eq!(Setting::BrokerAddress.variable(), "KAFKA_HOST");
    assert_eq!(Setting::SecurityProtocol.variable(), "KAFKA_PROTOCOL");
    assert_eq!(Setting::SaslMechanism.variable(), "KAFKA_MECHANISM");
    assert_eq!(Setting::Username.variable(), "KAFKA_USERNAME");
    assert_eq!(Setting::Password.variable(), "KAFKA_PASSWORD");
    assert_eq!(Setting::AuthCredential.variable(), "AUTH_TOKEN");
}

#[test]
fn complaint_names_the_variable() {
    assert_eq!(ConfigError::Missing(Setting::BrokerAddress).message(), "KAFKA_HOST must be set");
    assert_eq!(ConfigError::Missing(Setting::Password).message(), "KAFKA_PASSWORD must be set");
    assert_eq!(ConfigError::Missing(Setting::AuthCredential).message(), "AUTH_TOKEN must be set");
}

#[test]
fn configured_credential_guards_the_gate() {
    let gate = loaded().credential();
    assert!(gate.verify("s3cr3t"));
    assert!(!gate.verify("s3cr3"));
    assert_eq!(authorize(&gate, Some("s3cr3t")), Ok(()));
    assert_eq!(authorize(&gate, Some("hunter2")), Err(GatewayError::Unauthorized));
    assert_eq!(authorize(&gate, None), Err(GatewayError::Unauthorized));
}

#[test]
fn client_config_holds_the_connection_values() {
    let client = loaded().client_config();
    assert_eq!(client.get("bootstrap.servers"), Some("broker.example:9093"));
    assert_eq!(client.get("security.protocol"), Some("SASL_SSL"));
    assert_eq!(client.get("sasl.mechanisms"), Some("SCRAM-SHA-256"));
    assert_eq!(client.get("sasl.username"), Some("gateway"));
    assert_eq!(client.get("sasl.password"), Some("hunter2"));
}

#[test]
fn client_config_holds_the_fixed_tuning() {
    let client = loaded().client_config();
    assert_eq!(client.get("queue.buffering.max.ms"), Some("5000"));
    assert_eq!(client.get("message.timeout.ms"), Some("120000"));
    assert_eq!(client.get("retries"), Some("5"));
    assert_eq!(client.get("retry.backoff.ms"), Some("3000"));
    assert_eq!(client.get("retry.backoff.max.ms"), Some("5000"));
    assert_eq!(client.get("reconnect.backoff.ms"), Some("1000"));
    assert_eq!(client.get("reconnect.backoff.max.ms"), Some("120000"));
}

#[test]
fn client_config_holds_nothing_else() {
    let client = loaded().client_config();
    assert_eq!(client.config_map().len(), 12);
    assert_eq!(client.get("auth.token"), None);
    assert_eq!(client.get("group.id"), None);
}
