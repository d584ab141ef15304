use pyth_oracle::{
    bootstrap, BootstrapError, Endpoint, NonceStrategy, PreparationPolicy, RpcClient, Settings,
    SigningIdentity, SigningWallet,
};

const GOOD_KEY: &str = "0xac0974bec39a17e36ba4a6b4d238ff944bacb478cbed5efcae784d7bf4f2ff80";

const GOOD_ADDRESS: [u8; 20] = [
    0xf3, 0x9f, 0xd6, 0xe5, 0x1a, 0xad, 0x88, 0xf6, 0xf4, 0xce, 0x6a, 0xb8, 0x82, 0x72, 0x79, 0xcf,
    0xff, 0xb9, 0x22, 0x66,
];

fn settings(rpc_url: &str, private_key: &str) -> Settings {
    Settings { rpc_url: rpc_url.to_string(), private_key: private_key.to_string() }
}

fn error_of(rpc_url: &str, private_key: &str) -> Option<BootstrapError> {
    bootstrap(&settings(rpc_url, private_key)).err()
}

#[test]
fn an_endpoint_is_the_serialization_of_its_url() {
    let endpoint = Endpoint::parse("https://node.example/rpc").unwrap();
    assert_eq!(endpoint.as_str(), "https://node.example/rpc");
    let endpoint = Endpoint::parse("HTTPS://Node.Example:443/a/../rpc?x=1").unwrap();
    assert_eq!(endpoint.as_str(), "https://node.example/rpc?x=1");
    let endpoint = Endpoint::parse("http://localhost:8545").unwrap();
    assert_eq!(endpoint.as_str(), "http://localhost:8545/");
}

#[test]
fn what_does_not_parse_is_no_endpoint() {
    for text in ["", "node.example/rpc", "/rpc", "http://", "https://exa mple.com", "://x", "1http://x"] {
        assert_eq!(Endpoint::parse(text).err(), Some(BootstrapError::InvalidUrl), "{}", text);
    }
}

#[test]
fn the_parser_answer_decides_the_endpoint() {
    let endpoint = Endpoint::from_parsed(Ok("https://node.example/".to_string())).unwrap();
    assert_eq!(endpoint.as_str(), "https://node.example/");
    let res = Endpoint::from_parsed(Err(url::ParseError::EmptyHost));
    assert_eq!(res.err(), Some(BootstrapError::InvalidUrl));
}

#[test]
fn bootstrap_assembles_a_client_from_valid_settings() {
    let client = bootstrap(&settings("https://node.example/rpc", GOOD_KEY)).ok().unwrap();
    assert_eq!(client.endpoint().as_str(), "https://node.example/rpc");
    assert_eq!(client.wallet().identity().address(), GOOD_ADDRESS);
    assert_eq!(client.policy(), PreparationPolicy::agent());
    assert_eq!(client.chain_id(), None);
}

#[test]
fn the_agent_policy_names_every_step() {
    let policy = PreparationPolicy::agent();
    assert!(!policy.recommended_defaults);
    assert!(policy.gas_estimation);
    assert_eq!(policy.nonce_management, NonceStrategy::SimpleSequential);
    assert!(policy.chain_binding);
}

#[test]
fn an_invalid_url_is_refused() {
    assert_eq!(error_of("not a url", GOOD_KEY), Some(BootstrapError::InvalidUrl));
    assert_eq!(error_of("", GOOD_KEY), Some(BootstrapError::InvalidUrl));
}

#[test]
fn an_invalid_url_is_reported_before_the_key() {
    assert_eq!(error_of("not a url", "not a key"), Some(BootstrapError::InvalidUrl));
    assert_eq!(error_of("not a url", &"0".repeat(64)), Some(BootstrapError::InvalidUrl));
}

#[test]
fn a_key_that_is_no_hex_yields_no_client() {
    let url = "https://node.example/rpc";
    assert_eq!(error_of(url, "not a key"), Some(BootstrapError::InvalidKeyEncoding));
    assert_eq!(error_of(url, ""), Some(BootstrapError::InvalidKeyEncoding));
    assert_eq!(error_of(url, &GOOD_KEY[..65]), Some(BootstrapError::InvalidKeyEncoding));
    assert_eq!(error_of(url, &format!("{}00", GOOD_KEY)), Some(BootstrapError::InvalidKeyEncoding));
    assert_eq!(error_of(url, &GOOD_KEY.replace('a', "g")), Some(BootstrapError::InvalidKeyEncoding));
}

#[test]
fn a_key_that_is_no_scalar_yields_no_client() {
    let url = "https://node.example/rpc";
    assert_eq!(error_of(url, &"0".repeat(64)), Some(BootstrapError::SignerConstructionError));
    assert_eq!(error_of(url, &"f".repeat(64)), Some(BootstrapError::SignerConstructionError));
    let order = "0xFFFFFFFFFFFFFFFFFFFFFFFFFFFFFFFEBAAEDCE6AF48A03BBFD25E8CD0364141";
    assert_eq!(error_of(url, order), Some(BootstrapError::SignerConstructionError));
    let below = "0xFFFFFFFFFFFFFFFFFFFFFFFFFFFFFFFEBAAEDCE6AF48A03BBFD25E8CD0364140";
    assert!(bootstrap(&settings(url, below)).is_ok());
}

#[test]
fn bootstrap_twice_gives_the_same_signer() {
    let first = bootstrap(&settings("https://node.example/rpc", GOOD_KEY)).ok().unwrap();
    let second = bootstrap(&settings("https://node.example/rpc", GOOD_KEY)).ok().unwrap();
    assert_eq!(
        first.wallet().identity().address(),
        second.wallet().identity().address()
    );
    assert_eq!(first.endpoint().as_str(), second.endpoint().as_str());
}

#[test]
fn a_client_keeps_its_parts_when_it_is_bound() {
    let endpoint = Endpoint::parse("https://node.example/rpc").unwrap();
    let identity = SigningIdentity::from_private_key(GOOD_KEY).ok().unwrap();
    let client = RpcClient::assemble(endpoint, SigningWallet::new(identity));
    assert_eq!(client.chain_id(), None);
    let bound = client.bound_to(10);
    assert_eq!(bound.chain_id(), Some(10));
    assert_eq!(bound.endpoint().as_str(), "https://node.example/rpc");
    assert_eq!(bound.wallet().identity().address(), GOOD_ADDRESS);
    assert_eq!(bound.policy(), PreparationPolicy::agent());
}
