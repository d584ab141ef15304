//! A whole run of the startup, from what was read to what is logged.
//!
//! The run has two halves, with the caller's one query to the node between
//! them: `open` resolves the settings and assembles the client,
//! `Verification::conclude` closes with the node's reply. `run_log` says
//! what the two together write to the log, and in what order.

use crate::client::{bootstrap, bootstrap_spec, well_formed, RpcClient, RpcClientView};
use crate::identity::{address_of_key, key_bytes};
use crate::report::{
    conclusion, Disposition, LogRecord, LogRecordView, Severity, Stage,
};
use crate::settings::{
    document_view, environment_view, from_toml_spec, EnvVar, EnvVarView, Settings,
};
use vstd::prelude::*;

verus! {

/// How the startup opens.
pub enum Opening {
    /// The client is assembled. `record` names the account that will sign.
    Ready { client: RpcClient, record: LogRecord },
    /// There is no client. `record` says why, and ends the process.
    Aborted { record: LogRecord },
}

pub enum OpeningView {
    Ready { client: RpcClientView, record: LogRecordView },
    Aborted { record: LogRecordView },
}

impl View for Opening {
    type V = OpeningView;

    open spec fn view(&self) -> OpeningView {
        match self {
            Opening::Ready { client, record } => OpeningView::Ready {
                client: client@,
                record: record@,
            },
            Opening::Aborted { record } => OpeningView::Aborted { record: record@ },
        }
    }
}

impl OpeningView {
    /// What the opening writes to the log.
    pub open spec fn record(self) -> LogRecordView {
        match self {
            OpeningView::Ready { record, .. } => record,
            OpeningView::Aborted { record } => record,
        }
    }

    /// The stage that the opening has reached.
    pub open spec fn stage(self) -> Stage {
        match self {
            OpeningView::Ready { .. } => Stage::ClientReady,
            OpeningView::Aborted { record } => if record is ConfigurationFailed {
                Stage::Unconfigured
            } else {
                Stage::Configured
            },
        }
    }
}

/// How the startup opens on the settings file at `path`, read as
/// `document`, under `environment`.
pub open spec fn opening(
    path: Seq<char>,
    document: Option<Seq<char>>,
    environment: Seq<EnvVarView>,
) -> OpeningView {
    match from_toml_spec(document, environment) {
        Err(cause) => OpeningView::Aborted {
            record: LogRecordView::ConfigurationFailed { path, cause },
        },
        Ok(settings) => match bootstrap_spec(settings) {
            Err(cause) => OpeningView::Aborted { record: LogRecordView::BootstrapFailed(cause) },
            Ok(client) => OpeningView::Ready {
                client,
                record: LogRecordView::SignerAddress(client.signer.address),
            },
        },
    }
}

/// Whether a client comes of what was read: the settings resolve, and are
/// well formed.
pub open spec fn ready(document: Option<Seq<char>>, environment: Seq<EnvVarView>) -> bool {
    from_toml_spec(document, environment) matches Ok(settings) && well_formed(settings)
}

/// The log of a whole run, in the order written: the opening's record, and
/// after it, where a client was assembled, the record of the node's reply.
pub open spec fn run_log(opening: OpeningView, reply: Result<u64, Seq<char>>) -> Seq<
    LogRecordView,
> {
    match opening {
        OpeningView::Aborted { record } => seq![record],
        OpeningView::Ready { client, record } => seq![record, conclusion(client, reply).record()],
    }
}

/// Resolves the settings and assembles the client. `path` is where
/// `document` was read from; it is only named in the record of a failure.
pub fn open(path: &str, document: Option<&str>, environment: &Vec<EnvVar>) -> (res: Opening)
    ensures
        res@ == opening(path@, document_view(document), environment_view(environment@)),
{
    let settings = match Settings::from_toml(document, environment) {
        Ok(settings) => settings,
        Err(cause) => { return Opening::Aborted { record: cause.report(path) }; },
    };
    match bootstrap(&settings) {
        Ok(client) => {
            let record = client.wallet().identity().announcement();
            Opening::Ready { client, record }
        },
        Err(cause) => Opening::Aborted { record: cause.report() },
    }
}

impl Opening {
    pub fn record(&self) -> (record: &LogRecord)
        ensures
            record@ == self@.record(),
    {
        match self {
            Opening::Ready { record, .. } => record,
            Opening::Aborted { record } => record,
        }
    }

    pub fn stage(&self) -> (stage: Stage)
        ensures
            stage == self@.stage(),
    {
        match self {
            Opening::Ready { .. } => Stage::ClientReady,
            Opening::Aborted { record } => match record {
                LogRecord::ConfigurationFailed { .. } => Stage::Unconfigured,
                _ => Stage::Configured,
            },
        }
    }
}

/// A client is assembled exactly when the settings resolve and are well
/// formed. Then the opening logs the signer's address and the process goes
/// on; otherwise it logs one error and the process ends.
pub proof fn law_opening_is_ready_or_fatal(
    path: Seq<char>,
    document: Option<Seq<char>>,
    environment: Seq<EnvVarView>,
)
    ensures
        opening(path, document, environment) is Ready <==> ready(document, environment),
        opening(path, document, environment) is Ready ==> opening(
            path,
            document,
            environment,
        ).record().severity() == Severity::Info && opening(
            path,
            document,
            environment,
        ).record().disposition() == Disposition::Continue,
        opening(path, document, environment) is Aborted ==> opening(
            path,
            document,
            environment,
        ).record().severity() == Severity::Error && opening(
            path,
            document,
            environment,
        ).record().disposition() == Disposition::Terminate,
{
}

/// With settings that resolve and are well formed, and a node that answers
/// with its chain, the log of the run is the signer's address and then the
/// chain, both as information, and nothing ends the process.
pub proof fn law_log_of_an_answered_run(
    path: Seq<char>,
    document: Option<Seq<char>>,
    environment: Seq<EnvVarView>,
    chain_id: u64,
)
    requires
        ready(document, environment),
    ensures
        run_log(opening(path, document, environment), Ok(chain_id)) == seq![
            LogRecordView::SignerAddress(
                address_of_key(key_bytes(from_toml_spec(document, environment)->Ok_0.private_key)),
            ),
            LogRecordView::ChainId(chain_id),
        ],
        forall|i: int|
            0 <= i < 2 ==> (#[trigger] run_log(
                opening(path, document, environment),
                Ok(chain_id),
            )[i]).severity() == Severity::Info && run_log(
                opening(path, document, environment),
                Ok(chain_id),
            )[i].disposition() == Disposition::Continue,
{
}

/// With settings that resolve and are well formed, and a node that does not
/// answer, the log of the run is the signer's address as information and
/// then the cause as an error. No chain is logged, and nothing ends the
/// process.
pub proof fn law_log_of_an_unanswered_run(
    path: Seq<char>,
    document: Option<Seq<char>>,
    environment: Seq<EnvVarView>,
    cause: Seq<char>,
)
    requires
        ready(document, environment),
    ensures
        run_log(opening(path, document, environment), Err(cause)) == seq![
            LogRecordView::SignerAddress(
                address_of_key(key_bytes(from_toml_spec(document, environment)->Ok_0.private_key)),
            ),
            LogRecordView::VerificationFailed(cause),
        ],
        run_log(opening(path, document, environment), Err(cause))[0].severity() == Severity::Info,
        run_log(opening(path, document, environment), Err(cause))[1].severity()
            == Severity::Error,
        forall|i: int|
            0 <= i < 2 ==> (#[trigger] run_log(
                opening(path, document, environment),
                Err(cause),
            )[i]).disposition() == Disposition::Continue,
{
}

} // verus!
