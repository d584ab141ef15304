//! The ledger client as it is assembled at startup: where it connects, who
//! signs, and how a transaction is prepared before it is signed.

use crate::endpoint::{parsed_url, Endpoint};
use crate::identity::{
    address_of_key, identity_spec, is_key_hex, is_signing_scalar, key_bytes, SigningIdentity,
    SigningIdentityView, SigningWallet,
};
use crate::settings::{Settings, SettingsView};
use vstd::prelude::*;

verus! {

/// Why no client could be assembled.
#[derive(Clone, Copy, Debug, PartialEq, Eq, Structural)]
pub enum BootstrapError {
    /// `rpc_url` does not parse as a URL.
    InvalidUrl,
    /// `private_key` is no hex, or not of the key's length.
    InvalidKeyEncoding,
    /// The key's bytes are no private key of the curve.
    SignerConstructionError,
}

/// How the client numbers the transactions of its signer.
#[derive(Clone, Copy, Debug, PartialEq, Eq, Structural)]
pub enum NonceStrategy {
    /// The client assigns no nonce.
    Unmanaged,
    /// The client assigns each transaction the signer's next number.
    SimpleSequential,
}

/// What the client does to a transaction before it is signed. Every step is
/// named here; none is inherited.
#[derive(Clone, Copy, Debug, PartialEq, Eq, Structural)]
pub struct PreparationPolicy {
    /// Whether the client library's recommended steps are taken over.
    pub recommended_defaults: bool,
    /// Whether the gas limit is estimated for each transaction.
    pub gas_estimation: bool,
    pub nonce_management: NonceStrategy,
    /// Whether the node's chain identifier is fetched once and set on every
    /// transaction.
    pub chain_binding: bool,
}

/// The agent's policy: nothing recommended, gas estimated, nonces in
/// sequence, bound to the node's chain.
pub open spec fn agent_policy() -> PreparationPolicy {
    PreparationPolicy {
        recommended_defaults: false,
        gas_estimation: true,
        nonce_management: NonceStrategy::SimpleSequential,
        chain_binding: true,
    }
}

impl PreparationPolicy {
    pub fn agent() -> (policy: PreparationPolicy)
        ensures
            policy == agent_policy(),
    {
        PreparationPolicy {
            recommended_defaults: false,
            gas_estimation: true,
            nonce_management: NonceStrategy::SimpleSequential,
            chain_binding: true,
        }
    }
}

/// An assembled client. Its endpoint, identity and policy do not change
/// once it exists; only the chain it is bound to becomes known later.
pub struct RpcClient {
    endpoint: Endpoint,
    wallet: SigningWallet,
    policy: PreparationPolicy,
    chain_id: Option<u64>,
}

pub struct RpcClientView {
    pub endpoint: Seq<char>,
    pub signer: SigningIdentityView,
    pub policy: PreparationPolicy,
    pub chain_id: Option<u64>,
}

impl View for RpcClient {
    type V = RpcClientView;

    closed spec fn view(&self) -> RpcClientView {
        RpcClientView {
            endpoint: self.endpoint@,
            signer: self.wallet@,
            policy: self.policy,
            chain_id: self.chain_id,
        }
    }
}

pub open spec fn client_result_view(res: Result<RpcClient, BootstrapError>) -> Result<
    RpcClientView,
    BootstrapError,
> {
    match res {
        Ok(client) => Ok(client@),
        Err(e) => Err(e),
    }
}

/// The client that the settings lead to. The address is looked at first,
/// then the key's encoding, then the key itself.
pub open spec fn bootstrap_spec(settings: SettingsView) -> Result<RpcClientView, BootstrapError> {
    match parsed_url(settings.rpc_url) {
        None => Err(BootstrapError::InvalidUrl),
        Some(endpoint) => match identity_spec(settings.private_key) {
            Err(e) => Err(e),
            Ok(signer) => Ok(
                RpcClientView { endpoint, signer, policy: agent_policy(), chain_id: None },
            ),
        },
    }
}

/// Whether a client can be assembled from the settings: the address parses,
/// and the key is hex of the key's length that spells a scalar of the curve.
pub open spec fn well_formed(settings: SettingsView) -> bool {
    &&& parsed_url(settings.rpc_url) is Some
    &&& is_key_hex(settings.private_key)
    &&& is_signing_scalar(key_bytes(settings.private_key))
}

/// A client is assembled exactly from well-formed settings, and each
/// failure names the first thing that is wrong.
pub proof fn law_bootstrap_fails_closed(settings: SettingsView)
    ensures
        bootstrap_spec(settings) is Ok <==> well_formed(settings),
        bootstrap_spec(settings) == Err::<RpcClientView, BootstrapError>(
            BootstrapError::InvalidUrl,
        ) <==> parsed_url(settings.rpc_url) is None,
        bootstrap_spec(settings) == Err::<RpcClientView, BootstrapError>(
            BootstrapError::InvalidKeyEncoding,
        ) <==> parsed_url(settings.rpc_url) is Some && !is_key_hex(settings.private_key),
        bootstrap_spec(settings) == Err::<RpcClientView, BootstrapError>(
            BootstrapError::SignerConstructionError,
        ) <==> parsed_url(settings.rpc_url) is Some && is_key_hex(settings.private_key)
            && !is_signing_scalar(key_bytes(settings.private_key)),
{
}

/// A private key that is no hex, or not of the key's length, yields no
/// identity and no client, whatever the address is.
pub proof fn law_malformed_key_is_refused(settings: SettingsView)
    requires
        !is_key_hex(settings.private_key),
    ensures
        identity_spec(settings.private_key) == Err::<SigningIdentityView, BootstrapError>(
            BootstrapError::InvalidKeyEncoding,
        ),
        bootstrap_spec(settings) is Err,
{
}

/// The client of well-formed settings signs with the key that the settings
/// spell, from the address that belongs to that key, under the agent's
/// policy.
pub proof fn law_client_is_bound_to_signer(settings: SettingsView)
    requires
        well_formed(settings),
    ensures
        bootstrap_spec(settings) matches Ok(client) && client.endpoint == parsed_url(
            settings.rpc_url,
        )->0 && client.signer.key == key_bytes(settings.private_key) && client.signer.address
            == address_of_key(key_bytes(settings.private_key)) && client.policy == agent_policy()
            && client.chain_id is None,
{
}

impl RpcClient {
    /// Puts a client together from its parts, with the agent's policy and
    /// no chain known yet.
    pub fn assemble(endpoint: Endpoint, wallet: SigningWallet) -> (client: RpcClient)
        ensures
            client@ == (RpcClientView {
                endpoint: endpoint@,
                signer: wallet@,
                policy: agent_policy(),
                chain_id: None,
            }),
    {
        RpcClient { endpoint, wallet, policy: PreparationPolicy::agent(), chain_id: None }
    }

    /// The same client, bound to a chain.
    pub fn bound_to(self, chain_id: u64) -> (client: RpcClient)
        ensures
            client@ == (RpcClientView { chain_id: Some(chain_id), ..self@ }),
    {
        RpcClient {
            endpoint: self.endpoint,
            wallet: self.wallet,
            policy: self.policy,
            chain_id: Some(chain_id),
        }
    }

    pub fn endpoint(&self) -> (endpoint: &Endpoint)
        ensures
            endpoint@ == self@.endpoint,
    {
        &self.endpoint
    }

    pub fn wallet(&self) -> (wallet: &SigningWallet)
        ensures
            wallet@ == self@.signer,
    {
        &self.wallet
    }

    pub fn policy(&self) -> (policy: PreparationPolicy)
        ensures
            policy == self@.policy,
    {
        self.policy
    }

    /// The chain that the client is bound to, once the node has named it.
    pub fn chain_id(&self) -> (chain_id: Option<u64>)
        ensures
            chain_id == self@.chain_id,
    {
        self.chain_id
    }
}

/// Assembles the client from the settings: parses the address, decodes the
/// key, derives the signer, and binds it to the client under the agent's
/// policy. Nothing is sent.
pub fn bootstrap(settings: &Settings) -> (res: Result<RpcClient, BootstrapError>)
    ensures
        client_result_view(res) == bootstrap_spec(settings@),
{
    let endpoint = match Endpoint::parse(settings.rpc_url.as_str()) {
        Ok(endpoint) => endpoint,
        Err(e) => { return Err(e); },
    };
    let identity = match SigningIdentity::from_private_key(settings.private_key.as_str()) {
        Ok(identity) => identity,
        Err(e) => { return Err(e); },
    };
    Ok(RpcClient::assemble(endpoint, SigningWallet::new(identity)))
}

} // verus!
