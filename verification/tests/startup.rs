use pyth_oracle::{
    open, BootstrapError, ConfigurationError, Disposition, EnvVar, LogRecord, Opening,
    SettingsKey, Severity, Stage, Verification,
};

const KEY: &str = "0xac0974bec39a17e36ba4a6b4d238ff944bacb478cbed5efcae784d7bf4f2ff80";

const ADDRESS: [u8; 20] = [
    0xf3, 0x9f, 0xd6, 0xe5, 0x1a, 0xad, 0x88, 0xf6, 0xf4, 0xce, 0x6a, 0xb8, 0x82, 0x72, 0x79, 0xcf,
    0xff, 0xb9, 0x22, 0x66,
];

fn document(rpc_url: &str, private_key: &str) -> String {
    format!("rpc_url = \"{}\"\nprivate_key = \"{}\"\n", rpc_url, private_key)
}

fn run(document: Option<&str>, environment: &Vec<EnvVar>, reply: Result<u64, String>) -> Vec<LogRecord> {
    let mut log = Vec::new();
    match open("Settings.toml", document, environment) {
        Opening::Ready { client, record } => {
            log.push(record);
            log.push(Verification::conclude(client, reply).record());
        }
        Opening::Aborted { record } => log.push(record),
    }
    log
}

#[test]
fn an_answered_run_logs_the_address_and_then_the_chain() {
    let text = document("https://node.example/rpc", KEY);
    let log = run(Some(&text), &Vec::new(), Ok(137));
    assert_eq!(log, vec![LogRecord::SignerAddress(ADDRESS), LogRecord::ChainId(137)]);
    for record in &log {
        assert_eq!(record.severity(), Severity::Info);
        assert_eq!(record.disposition(), Disposition::Continue);
    }
}

#[test]
fn an_unanswered_run_logs_the_address_and_then_the_cause() {
    let text = document("https://node.example/rpc", KEY);
    let log = run(Some(&text), &Vec::new(), Err("connection refused".to_string()));
    assert_eq!(
        log,
        vec![
            LogRecord::SignerAddress(ADDRESS),
            LogRecord::VerificationFailed("connection refused".to_string()),
        ]
    );
    assert_eq!(log[0].severity(), Severity::Info);
    assert_eq!(log[1].severity(), Severity::Error);
    assert_eq!(log[0].disposition(), Disposition::Continue);
    assert_eq!(log[1].disposition(), Disposition::Continue);
}

#[test]
fn a_run_without_settings_logs_one_fatal_error() {
    let log = run(None, &Vec::new(), Ok(1));
    assert_eq!(
        log,
        vec![LogRecord::ConfigurationFailed {
            path: "Settings.toml".to_string(),
            cause: ConfigurationError::MissingFile,
        }]
    );
    assert_eq!(log[0].severity(), Severity::Error);
    assert_eq!(log[0].disposition(), Disposition::Terminate);
    let text = format!("rpc_url = 42\nprivate_key = \"{}\"\n", KEY);
    let log = run(Some(&text), &Vec::new(), Ok(1));
    assert_eq!(
        log,
        vec![LogRecord::ConfigurationFailed {
            path: "Settings.toml".to_string(),
            cause: ConfigurationError::MismatchedKey(SettingsKey::RpcUrl),
        }]
    );
}

#[test]
fn a_run_with_malformed_settings_logs_one_fatal_error() {
    let cases = [
        (document("not a url", KEY), BootstrapError::InvalidUrl),
        (document("https://node.example/rpc", "0x12"), BootstrapError::InvalidKeyEncoding),
        (
            document("https://node.example/rpc", &"0".repeat(64)),
            BootstrapError::SignerConstructionError,
        ),
    ];
    for (text, cause) in cases {
        let log = run(Some(&text), &Vec::new(), Ok(1));
        assert_eq!(log, vec![LogRecord::BootstrapFailed(cause)]);
        assert_eq!(log[0].severity(), Severity::Error);
        assert_eq!(log[0].disposition(), Disposition::Terminate);
    }
}

#[test]
fn an_opening_knows_its_stage() {
    let text = document("https://node.example/rpc", KEY);
    let ready = open("Settings.toml", Some(&text), &Vec::new());
    assert_eq!(ready.stage(), Stage::ClientReady);
    assert_eq!(ready.record(), &LogRecord::SignerAddress(ADDRESS));
    let unconfigured = open("Settings.toml", Some("rpc_url ="), &Vec::new());
    assert_eq!(unconfigured.stage(), Stage::Unconfigured);
    let text = document("not a url", KEY);
    let configured = open("Settings.toml", Some(&text), &Vec::new());
    assert_eq!(configured.stage(), Stage::Configured);
}

#[test]
fn the_environment_reaches_the_opening() {
    let text = document("not a url", KEY);
    let environment = vec![EnvVar {
        name: "REDEEMER_RPC_URL".to_string(),
        value: Some("https://node2.example/rpc".to_string()),
    }];
    match open("Settings.toml", Some(&text), &environment) {
        Opening::Ready { client, .. } => {
            assert_eq!(client.endpoint().as_str(), "https://node2.example/rpc")
        }
        Opening::Aborted { record } => panic!("{:?}", record),
    }
}
