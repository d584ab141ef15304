//! What the agent's startup reports and how far it has come: the stages it
//! walks through, what is logged at each, and which failures end the
//! process.
//!
//! The caller does the logging and the one query to the node; the decisions
//! are made here.

use crate::client::{BootstrapError, RpcClient, RpcClientView};
use crate::identity::SigningIdentity;
use crate::settings::ConfigurationError;
use vstd::prelude::*;

verus! {

/// Where the startup stands. The stages are walked in this order, one step
/// at a time; the last two are the two ends.
#[derive(Clone, Copy, Debug, PartialEq, Eq, Structural)]
pub enum Stage {
    Unconfigured,
    Configured,
    SignerReady,
    ClientReady,
    Verified,
    VerificationFailed,
}

/// What moves the startup one stage on.
#[derive(Clone, Copy, Debug, PartialEq, Eq, Structural)]
pub enum Progress {
    SettingsResolved,
    SignerDerived,
    ClientAssembled,
    ChainIdReceived,
    ChainIdUnavailable,
}

/// How loud a record is.
#[derive(Clone, Copy, Debug, PartialEq, Eq, Structural)]
pub enum Severity {
    Info,
    Error,
}

/// What the process does after a record is logged.
#[derive(Clone, Copy, Debug, PartialEq, Eq, Structural)]
pub enum Disposition {
    Continue,
    Terminate,
}

/// One line of the startup's log, before it is put into words.
#[derive(Debug, PartialEq, Eq)]
pub enum LogRecord {
    /// The account that will sign.
    SignerAddress([u8; 20]),
    /// The chain that the node answered with.
    ChainId(u64),
    /// The settings at `path` did not resolve.
    ConfigurationFailed { path: String, cause: ConfigurationError },
    /// The settings resolved, but no client could be assembled from them.
    BootstrapFailed(BootstrapError),
    /// The node did not answer the query for its chain.
    VerificationFailed(String),
}

pub enum LogRecordView {
    SignerAddress(Seq<u8>),
    ChainId(u64),
    ConfigurationFailed { path: Seq<char>, cause: ConfigurationError },
    BootstrapFailed(BootstrapError),
    VerificationFailed(Seq<char>),
}

impl View for LogRecord {
    type V = LogRecordView;

    open spec fn view(&self) -> LogRecordView {
        match self {
            LogRecord::SignerAddress(address) => LogRecordView::SignerAddress(address@),
            LogRecord::ChainId(id) => LogRecordView::ChainId(*id),
            LogRecord::ConfigurationFailed { path, cause } => LogRecordView::ConfigurationFailed {
                path: path@,
                cause: *cause,
            },
            LogRecord::BootstrapFailed(cause) => LogRecordView::BootstrapFailed(*cause),
            LogRecord::VerificationFailed(cause) => LogRecordView::VerificationFailed(cause@),
        }
    }
}

impl LogRecordView {
    /// Good news is informational; every failure is an error.
    pub open spec fn severity(self) -> Severity {
        match self {
            LogRecordView::SignerAddress(_) | LogRecordView::ChainId(_) => Severity::Info,
            _ => Severity::Error,
        }
    }

    /// A failure to configure or to assemble the client ends the process.
    /// A node that does not answer does not: the client stands, and whoever
    /// supervises the process may try again.
    pub open spec fn disposition(self) -> Disposition {
        match self {
            LogRecordView::ConfigurationFailed { .. } | LogRecordView::BootstrapFailed(_) =>
                Disposition::Terminate,
            _ => Disposition::Continue,
        }
    }
}

impl LogRecord {
    pub fn severity(&self) -> (severity: Severity)
        ensures
            severity == self@.severity(),
    {
        match self {
            LogRecord::SignerAddress(_) | LogRecord::ChainId(_) => Severity::Info,
            _ => Severity::Error,
        }
    }

    pub fn disposition(&self) -> (disposition: Disposition)
        ensures
            disposition == self@.disposition(),
    {
        match self {
            LogRecord::ConfigurationFailed { .. } | LogRecord::BootstrapFailed(_) =>
                Disposition::Terminate,
            _ => Disposition::Continue,
        }
    }
}

impl Stage {
    /// How many steps lie behind a stage.
    pub open spec fn depth(self) -> nat {
        match self {
            Stage::Unconfigured => 0,
            Stage::Configured => 1,
            Stage::SignerReady => 2,
            Stage::ClientReady => 3,
            Stage::Verified | Stage::VerificationFailed => 4,
        }
    }

    /// Whether the startup ends here.
    pub open spec fn is_end(self) -> bool {
        self is Verified || self is VerificationFailed
    }

    /// The stage that `event` leads to from here, if it leads anywhere.
    pub open spec fn after(self, event: Progress) -> Option<Stage> {
        match (self, event) {
            (Stage::Unconfigured, Progress::SettingsResolved) => Some(Stage::Configured),
            (Stage::Configured, Progress::SignerDerived) => Some(Stage::SignerReady),
            (Stage::SignerReady, Progress::ClientAssembled) => Some(Stage::ClientReady),
            (Stage::ClientReady, Progress::ChainIdReceived) => Some(Stage::Verified),
            (Stage::ClientReady, Progress::ChainIdUnavailable) => Some(
                Stage::VerificationFailed,
            ),
            _ => None,
        }
    }

    /// Takes one step. An event that does not belong to the stage leads
    /// nowhere.
    pub fn advance(self, event: Progress) -> (next: Option<Stage>)
        ensures
            next == self.after(event),
    {
        match (self, event) {
            (Stage::Unconfigured, Progress::SettingsResolved) => Some(Stage::Configured),
            (Stage::Configured, Progress::SignerDerived) => Some(Stage::SignerReady),
            (Stage::SignerReady, Progress::ClientAssembled) => Some(Stage::ClientReady),
            (Stage::ClientReady, Progress::ChainIdReceived) => Some(Stage::Verified),
            (Stage::ClientReady, Progress::ChainIdUnavailable) => Some(
                Stage::VerificationFailed,
            ),
            _ => None,
        }
    }

    pub fn ended(&self) -> (end: bool)
        ensures
            end == self.is_end(),
    {
        match self {
            Stage::Verified | Stage::VerificationFailed => true,
            _ => false,
        }
    }
}

/// Every step leads one stage deeper, so no stage is entered twice.
pub proof fn law_steps_lead_forward(stage: Stage, event: Progress)
    requires
        stage.after(event) is Some,
    ensures
        stage.after(event)->0.depth() == stage.depth() + 1,
{
}

/// Nothing follows an end, and something follows every other stage.
pub proof fn law_only_ends_are_final(stage: Stage)
    ensures
        stage.is_end() <==> forall|event: Progress| stage.after(event) is None,
{
    if !stage.is_end() {
        let event = match stage {
            Stage::Unconfigured => Progress::SettingsResolved,
            Stage::Configured => Progress::SignerDerived,
            Stage::SignerReady => Progress::ClientAssembled,
            _ => Progress::ChainIdReceived,
        };
        assert(stage.after(event) is Some);
    }
}

/// The end of the startup: the client, and what the node said of its chain.
pub enum Verification {
    /// The node named its chain; the client is bound to it.
    Verified { client: RpcClient, chain_id: u64 },
    /// The node did not answer. The client is as it was assembled.
    VerificationFailed { client: RpcClient, cause: String },
}

pub enum VerificationView {
    Verified { client: RpcClientView, chain_id: u64 },
    VerificationFailed { client: RpcClientView, cause: Seq<char> },
}

impl View for Verification {
    type V = VerificationView;

    open spec fn view(&self) -> VerificationView {
        match self {
            Verification::Verified { client, chain_id } => VerificationView::Verified {
                client: client@,
                chain_id: *chain_id,
            },
            Verification::VerificationFailed { client, cause } =>
                VerificationView::VerificationFailed { client: client@, cause: cause@ },
        }
    }
}

impl VerificationView {
    pub open spec fn client(self) -> RpcClientView {
        match self {
            VerificationView::Verified { client, .. } => client,
            VerificationView::VerificationFailed { client, .. } => client,
        }
    }

    pub open spec fn stage(self) -> Stage {
        match self {
            VerificationView::Verified { .. } => Stage::Verified,
            VerificationView::VerificationFailed { .. } => Stage::VerificationFailed,
        }
    }

    pub open spec fn record(self) -> LogRecordView {
        match self {
            VerificationView::Verified { chain_id, .. } => LogRecordView::ChainId(chain_id),
            VerificationView::VerificationFailed { cause, .. } =>
                LogRecordView::VerificationFailed(cause),
        }
    }
}

pub open spec fn reply_view(reply: Result<u64, String>) -> Result<u64, Seq<char>> {
    match reply {
        Ok(chain_id) => Ok(chain_id),
        Err(cause) => Err(cause@),
    }
}

/// The event that the node's reply amounts to.
pub open spec fn reply_event(reply: Result<u64, Seq<char>>) -> Progress {
    match reply {
        Ok(_) => Progress::ChainIdReceived,
        Err(_) => Progress::ChainIdUnavailable,
    }
}

/// How the startup ends for a client and the node's reply.
pub open spec fn conclusion(client: RpcClientView, reply: Result<u64, Seq<char>>) -> VerificationView {
    match reply {
        Ok(chain_id) => VerificationView::Verified {
            client: RpcClientView { chain_id: Some(chain_id), ..client },
            chain_id,
        },
        Err(cause) => VerificationView::VerificationFailed { client, cause },
    }
}

/// Whatever the node replies, the startup ends one step after the client
/// was assembled, with the client's endpoint, signer and policy as they
/// were, and the process goes on.
pub proof fn law_verification_is_not_fatal(client: RpcClientView, reply: Result<u64, Seq<char>>)
    ensures
        Some(conclusion(client, reply).stage()) == Stage::ClientReady.after(reply_event(reply)),
        conclusion(client, reply).stage().is_end(),
        conclusion(client, reply).record().disposition() == Disposition::Continue,
        conclusion(client, reply).client().endpoint == client.endpoint,
        conclusion(client, reply).client().signer == client.signer,
        conclusion(client, reply).client().policy == client.policy,
{
}

/// A node that answers binds the client to the chain it names, and that
/// chain is what is logged, as information.
pub proof fn law_answer_binds_client(client: RpcClientView, chain_id: u64)
    ensures
        conclusion(client, Ok(chain_id)).stage() == Stage::Verified,
        conclusion(client, Ok(chain_id)).client().chain_id == Some(chain_id),
        conclusion(client, Ok(chain_id)).record() == LogRecordView::ChainId(chain_id),
        conclusion(client, Ok(chain_id)).record().severity() == Severity::Info,
{
}

/// A node that does not answer leaves the client as it was assembled, and
/// the cause is logged as an error.
pub proof fn law_silence_keeps_client(client: RpcClientView, cause: Seq<char>)
    ensures
        conclusion(client, Err(cause)).stage() == Stage::VerificationFailed,
        conclusion(client, Err(cause)).client() == client,
        conclusion(client, Err(cause)).record() == LogRecordView::VerificationFailed(cause),
        conclusion(client, Err(cause)).record().severity() == Severity::Error,
{
}

impl Progress {
    /// The event that the node's reply amounts to.
    pub fn of_reply(reply: &Result<u64, String>) -> (event: Progress)
        ensures
            event == reply_event(reply_view(*reply)),
    {
        match reply {
            Ok(_) => Progress::ChainIdReceived,
            Err(_) => Progress::ChainIdUnavailable,
        }
    }
}

impl Verification {
    /// Closes the startup with the node's reply to the query for its chain
    /// identifier: `Ok` with the identifier, `Err` with the cause where the
    /// query failed. The client comes back either way.
    pub fn conclude(client: RpcClient, reply: Result<u64, String>) -> (end: Verification)
        ensures
            end@ == conclusion(client@, reply_view(reply)),
    {
        match reply {
            Ok(chain_id) => Verification::Verified { client: client.bound_to(chain_id), chain_id },
            Err(cause) => Verification::VerificationFailed { client, cause },
        }
    }

    pub fn client(&self) -> (client: &RpcClient)
        ensures
            client@ == self@.client(),
    {
        match self {
            Verification::Verified { client, .. } => client,
            Verification::VerificationFailed { client, .. } => client,
        }
    }

    pub fn stage(&self) -> (stage: Stage)
        ensures
            stage == self@.stage(),
    {
        match self {
            Verification::Verified { .. } => Stage::Verified,
            Verification::VerificationFailed { .. } => Stage::VerificationFailed,
        }
    }

    /// What is to be logged: the chain identifier at `Info`, or the cause at
    /// `Error`.
    pub fn record(&self) -> (record: LogRecord)
        ensures
            record@ == self@.record(),
    {
        match self {
            Verification::Verified { chain_id, .. } => LogRecord::ChainId(*chain_id),
            Verification::VerificationFailed { cause, .. } => LogRecord::VerificationFailed(
                cause.clone(),
            ),
        }
    }
}

impl SigningIdentity {
    /// The record that tells the operator which account will sign.
    pub fn announcement(&self) -> (record: LogRecord)
        ensures
            record@ == LogRecordView::SignerAddress(self@.address),
    {
        LogRecord::SignerAddress(self.address())
    }
}

impl ConfigurationError {
    /// The record of a failure to resolve the settings at `path`.
    pub fn report(self, path: &str) -> (record: LogRecord)
        ensures
            record@ == (LogRecordView::ConfigurationFailed { path: path@, cause: self }),
    {
        LogRecord::ConfigurationFailed { path: path.to_owned(), cause: self }
    }
}

impl BootstrapError {
    /// The record of a failure to assemble the client.
    pub fn report(self) -> (record: LogRecord)
        ensures
            record@ == LogRecordView::BootstrapFailed(self),
    {
        LogRecord::BootstrapFailed(self)
    }
}

} // verus!
