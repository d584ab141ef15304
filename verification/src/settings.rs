//! The settings record and the rule by which it is resolved: a base layer
//! read from a TOML document, overlaid by the environment variables that
//! carry the agent's prefix.

use crate::document::{parse_table, parsed_entries, table_entries, table_entry};
use config::Value;
use vstd::prelude::*;
use vstd::string::StringExecFns;

verus! {

/// The prefix that an environment variable carries when it is meant for the
/// agent.
pub const ENV_PREFIX: &'static str = "REDEEMER";

/// What stands between the prefix and the key in a variable's name.
pub const ENV_SEPARATOR: &'static str = "_";

/// The keys of the settings record.
#[derive(Clone, Copy, Debug, PartialEq, Eq, Structural)]
pub enum SettingsKey {
    RpcUrl,
    PrivateKey,
}

/// Why no settings record could be produced.
#[derive(Clone, Copy, Debug, PartialEq, Eq, Structural)]
pub enum ConfigurationError {
    /// No document could be read, for whatever reason.
    MissingFile,
    /// The document is not TOML.
    UnparseableFile,
    /// The environment variable that overrides this key holds no text.
    UnreadableEnvironment(SettingsKey),
    /// Neither the document nor the environment has this key.
    MissingKey(SettingsKey),
    /// The document gives this key a value that is no string, and the
    /// environment gives it none.
    MismatchedKey(SettingsKey),
}

/// One environment variable as the caller found it. `value` is `None` where
/// the variable holds something that is no Unicode text.
#[derive(Debug)]
pub struct EnvVar {
    pub name: String,
    pub value: Option<String>,
}

pub struct EnvVarView {
    pub name: Seq<char>,
    pub value: Option<Seq<char>>,
}

/// What the document says of one key.
#[derive(Debug, PartialEq, Eq)]
pub enum FileValue {
    /// The document does not have the key.
    Absent,
    /// The key holds a value that is no string: a number, a boolean, a
    /// table, an array.
    Mismatched,
    /// The key's string.
    Text(String),
}

pub enum FileValueView {
    Absent,
    Mismatched,
    Text(Seq<char>),
}

/// What the document says of each key. Only a string counts as a value;
/// nothing else is turned into one.
#[derive(Debug)]
pub struct FileLayer {
    pub rpc_url: FileValue,
    pub private_key: FileValue,
}

pub struct FileLayerView {
    pub rpc_url: FileValueView,
    pub private_key: FileValueView,
}

/// The resolved settings. Both fields are always present; whether they are
/// well formed is decided when the client is assembled.
#[derive(Debug)]
pub struct Settings {
    pub rpc_url: String,
    pub private_key: String,
}

pub struct SettingsView {
    pub rpc_url: Seq<char>,
    pub private_key: Seq<char>,
}

/// What the environment says of one name.
#[derive(Debug)]
pub enum Overlay {
    /// No variable has the name.
    Unset,
    /// The variable is there, but holds no text.
    Unreadable,
    /// The variable's text.
    Text(String),
}

pub enum OverlayView {
    Unset,
    Unreadable,
    Text(Seq<char>),
}

pub open spec fn text_view(text: Option<String>) -> Option<Seq<char>> {
    match text {
        Some(t) => Some(t@),
        None => None,
    }
}

impl View for EnvVar {
    type V = EnvVarView;

    open spec fn view(&self) -> EnvVarView {
        EnvVarView { name: self.name@, value: text_view(self.value) }
    }
}

impl View for FileValue {
    type V = FileValueView;

    open spec fn view(&self) -> FileValueView {
        match self {
            FileValue::Absent => FileValueView::Absent,
            FileValue::Mismatched => FileValueView::Mismatched,
            FileValue::Text(text) => FileValueView::Text(text@),
        }
    }
}

impl View for FileLayer {
    type V = FileLayerView;

    open spec fn view(&self) -> FileLayerView {
        FileLayerView { rpc_url: self.rpc_url@, private_key: self.private_key@ }
    }
}

impl View for Settings {
    type V = SettingsView;

    open spec fn view(&self) -> SettingsView {
        SettingsView { rpc_url: self.rpc_url@, private_key: self.private_key@ }
    }
}

impl View for Overlay {
    type V = OverlayView;

    open spec fn view(&self) -> OverlayView {
        match self {
            Overlay::Unset => OverlayView::Unset,
            Overlay::Unreadable => OverlayView::Unreadable,
            Overlay::Text(text) => OverlayView::Text(text@),
        }
    }
}

/// The environment as a sequence of views, in the order given.
pub open spec fn environment_view(environment: Seq<EnvVar>) -> Seq<EnvVarView> {
    environment.map_values(|var: EnvVar| var@)
}

pub open spec fn settings_result_view(
    res: Result<Settings, ConfigurationError>,
) -> Result<SettingsView, ConfigurationError> {
    match res {
        Ok(settings) => Ok(settings@),
        Err(e) => Err(e),
    }
}

/// The key's name in the document.
pub open spec fn document_key(key: SettingsKey) -> Seq<char> {
    match key {
        SettingsKey::RpcUrl => "rpc_url"@,
        SettingsKey::PrivateKey => "private_key"@,
    }
}

/// The key as it is spelled in a variable's name.
pub open spec fn variable_stem(key: SettingsKey) -> Seq<char> {
    match key {
        SettingsKey::RpcUrl => "RPC_URL"@,
        SettingsKey::PrivateKey => "PRIVATE_KEY"@,
    }
}

/// The name of the variable that overrides `key`: prefix, separator, stem.
pub open spec fn variable_name(key: SettingsKey) -> Seq<char> {
    ENV_PREFIX@ + ENV_SEPARATOR@ + variable_stem(key)
}

/// What the environment says of `name`. Where several variables have the
/// name, the last one decides.
pub open spec fn overlay(environment: Seq<EnvVarView>, name: Seq<char>) -> OverlayView
    decreases environment.len(),
{
    if environment.len() == 0 {
        OverlayView::Unset
    } else if environment.last().name == name {
        match environment.last().value {
            Some(text) => OverlayView::Text(text),
            None => OverlayView::Unreadable,
        }
    } else {
        overlay(environment.drop_last(), name)
    }
}

/// What the layer says of `key`.
pub open spec fn layer_value(layer: FileLayerView, key: SettingsKey) -> FileValueView {
    match key {
        SettingsKey::RpcUrl => layer.rpc_url,
        SettingsKey::PrivateKey => layer.private_key,
    }
}

/// The value of `key` once the environment lies over the document: the
/// environment's text where it gives one, whatever the document holds
/// there, and the document's value where it does not.
pub open spec fn merged(
    layer: FileLayerView,
    environment: Seq<EnvVarView>,
    key: SettingsKey,
) -> FileValueView {
    match overlay(environment, variable_name(key)) {
        OverlayView::Text(text) => FileValueView::Text(text),
        _ => layer_value(layer, key),
    }
}

/// Why the merged layers give `key` no string, if they give none.
pub open spec fn key_fault(value: FileValueView, key: SettingsKey) -> Option<ConfigurationError> {
    match value {
        FileValueView::Absent => Some(ConfigurationError::MissingKey(key)),
        FileValueView::Mismatched => Some(ConfigurationError::MismatchedKey(key)),
        FileValueView::Text(_) => None,
    }
}

/// The settings that a document layer and an environment resolve to. An
/// unreadable override is reported before a key without a string, and
/// `rpc_url` before `private_key`.
pub open spec fn resolve_spec(layer: FileLayerView, environment: Seq<EnvVarView>) -> Result<
    SettingsView,
    ConfigurationError,
> {
    if overlay(environment, variable_name(SettingsKey::RpcUrl)) is Unreadable {
        Err(ConfigurationError::UnreadableEnvironment(SettingsKey::RpcUrl))
    } else if overlay(environment, variable_name(SettingsKey::PrivateKey)) is Unreadable {
        Err(ConfigurationError::UnreadableEnvironment(SettingsKey::PrivateKey))
    } else if key_fault(merged(layer, environment, SettingsKey::RpcUrl), SettingsKey::RpcUrl)
        is Some {
        Err(key_fault(merged(layer, environment, SettingsKey::RpcUrl), SettingsKey::RpcUrl)->0)
    } else if key_fault(
        merged(layer, environment, SettingsKey::PrivateKey),
        SettingsKey::PrivateKey,
    ) is Some {
        Err(
            key_fault(
                merged(layer, environment, SettingsKey::PrivateKey),
                SettingsKey::PrivateKey,
            )->0,
        )
    } else {
        Ok(
            SettingsView {
                rpc_url: merged(layer, environment, SettingsKey::RpcUrl)->Text_0,
                private_key: merged(layer, environment, SettingsKey::PrivateKey)->Text_0,
            },
        )
    }
}

impl SettingsKey {
    /// The name of the environment variable that overrides this key.
    pub fn variable(&self) -> (name: String)
        ensures
            name@ == variable_name(*self),
    {
        let head = String::from_str(ENV_PREFIX).concat(ENV_SEPARATOR);
        match self {
            SettingsKey::RpcUrl => head.concat("RPC_URL"),
            SettingsKey::PrivateKey => head.concat("PRIVATE_KEY"),
        }
    }
}

/// Looks `name` up in the environment.
pub fn lookup(environment: &Vec<EnvVar>, name: &String) -> (found: Overlay)
    ensures
        found@ == overlay(environment_view(environment@), name@),
{
    let ghost all = environment_view(environment@);
    let mut upto: usize = environment.len();
    assert(all.take(upto as int) == all);
    while upto > 0
        invariant
            upto <= environment.len(),
            all == environment_view(environment@),
            overlay(all, name@) == overlay(all.take(upto as int), name@),
        decreases upto,
    {
        let var = &environment[upto - 1];
        proof {
            assert(all.take(upto as int).last() == var@);
            assert(all.take(upto as int).drop_last() == all.take(upto - 1));
        }
        if var.name == *name {
            return match &var.value {
                Some(text) => Overlay::Text(text.clone()),
                None => Overlay::Unreadable,
            };
        }
        upto = upto - 1;
    }
    Overlay::Unset
}

/// What a document with these entries says of a key.
pub open spec fn value_of(entries: Map<Seq<char>, Option<Seq<char>>>, key: Seq<char>) -> FileValueView {
    if !entries.contains_key(key) {
        FileValueView::Absent
    } else {
        match entries[key] {
            Some(text) => FileValueView::Text(text),
            None => FileValueView::Mismatched,
        }
    }
}

/// What a document with these entries says of the two keys.
pub open spec fn layer_of(entries: Map<Seq<char>, Option<Seq<char>>>) -> FileLayerView {
    FileLayerView {
        rpc_url: value_of(entries, document_key(SettingsKey::RpcUrl)),
        private_key: value_of(entries, document_key(SettingsKey::PrivateKey)),
    }
}

/// The settings that a document, if there is one, and an environment resolve
/// to.
pub open spec fn from_toml_spec(
    document: Option<Seq<char>>,
    environment: Seq<EnvVarView>,
) -> Result<SettingsView, ConfigurationError> {
    match document {
        None => Err(ConfigurationError::MissingFile),
        Some(text) => match parsed_entries(text) {
            None => Err(ConfigurationError::UnparseableFile),
            Some(entries) => resolve_spec(layer_of(entries), environment),
        },
    }
}

pub open spec fn document_view(document: Option<&str>) -> Option<Seq<char>> {
    match document {
        Some(text) => Some(text@),
        None => None,
    }
}

fn key_value(table: &config::Map<String, Value>, key: &str) -> (value: FileValue)
    ensures
        value@ == value_of(table_entries(*table), key@),
{
    match table_entry(table, key) {
        Some(Some(text)) => FileValue::Text(text),
        Some(None) => FileValue::Mismatched,
        None => FileValue::Absent,
    }
}

impl FileLayer {
    /// Parses a TOML document and reads the two keys from its top level.
    pub fn from_document(text: &str) -> (res: Result<FileLayer, ConfigurationError>)
        ensures
            match res {
                Ok(layer) => parsed_entries(text@) matches Some(entries) && layer@ == layer_of(
                    entries,
                ),
                Err(e) => e == ConfigurationError::UnparseableFile && parsed_entries(text@)
                    is None,
            },
    {
        match parse_table(text) {
            Ok(table) => Ok(
                FileLayer {
                    rpc_url: key_value(&table, "rpc_url"),
                    private_key: key_value(&table, "private_key"),
                },
            ),
            Err(_) => Err(ConfigurationError::UnparseableFile),
        }
    }
}

fn merge(over: Overlay, base: FileValue) -> (value: FileValue)
    ensures
        value@ == match over@ {
            OverlayView::Text(t) => FileValueView::Text(t),
            _ => base@,
        },
{
    match over {
        Overlay::Text(t) => FileValue::Text(t),
        _ => base,
    }
}

impl Settings {
    /// Lays the environment over a document layer. A variable named
    /// `REDEEMER_RPC_URL` or `REDEEMER_PRIVATE_KEY` wins over the document's
    /// value for its key. A key that is left without a string is an error:
    /// nothing is defaulted, and nothing is converted.
    pub fn resolve(layer: FileLayer, environment: &Vec<EnvVar>) -> (res: Result<
        Settings,
        ConfigurationError,
    >)
        ensures
            settings_result_view(res) == resolve_spec(layer@, environment_view(environment@)),
    {
        let url_over = lookup(environment, &SettingsKey::RpcUrl.variable());
        let key_over = lookup(environment, &SettingsKey::PrivateKey.variable());
        if let Overlay::Unreadable = url_over {
            return Err(ConfigurationError::UnreadableEnvironment(SettingsKey::RpcUrl));
        }
        if let Overlay::Unreadable = key_over {
            return Err(ConfigurationError::UnreadableEnvironment(SettingsKey::PrivateKey));
        }
        let rpc_url = match merge(url_over, layer.rpc_url) {
            FileValue::Text(text) => text,
            FileValue::Absent => {
                return Err(ConfigurationError::MissingKey(SettingsKey::RpcUrl));
            },
            FileValue::Mismatched => {
                return Err(ConfigurationError::MismatchedKey(SettingsKey::RpcUrl));
            },
        };
        let private_key = match merge(key_over, layer.private_key) {
            FileValue::Text(text) => text,
            FileValue::Absent => {
                return Err(ConfigurationError::MissingKey(SettingsKey::PrivateKey));
            },
            FileValue::Mismatched => {
                return Err(ConfigurationError::MismatchedKey(SettingsKey::PrivateKey));
            },
        };
        Ok(Settings { rpc_url, private_key })
    }

    /// Resolves the settings from the text of the settings file, `None`
    /// where no file could be read, and from the environment.
    pub fn from_toml(document: Option<&str>, environment: &Vec<EnvVar>) -> (res: Result<
        Settings,
        ConfigurationError,
    >)
        ensures
            settings_result_view(res) == from_toml_spec(
                document_view(document),
                environment_view(environment@),
            ),
    {
        let text = match document {
            Some(text) => text,
            None => { return Err(ConfigurationError::MissingFile); },
        };
        match FileLayer::from_document(text) {
            Ok(layer) => Settings::resolve(layer, environment),
            Err(e) => Err(e),
        }
    }
}

/// The field of the settings that `key` names.
pub open spec fn settings_text(settings: SettingsView, key: SettingsKey) -> Seq<char> {
    match key {
        SettingsKey::RpcUrl => settings.rpc_url,
        SettingsKey::PrivateKey => settings.private_key,
    }
}

/// Whether every override that the environment holds for the two keys can
/// be read.
pub open spec fn overrides_readable(environment: Seq<EnvVarView>) -> bool {
    &&& !(overlay(environment, variable_name(SettingsKey::RpcUrl)) is Unreadable)
    &&& !(overlay(environment, variable_name(SettingsKey::PrivateKey)) is Unreadable)
}

/// The two keys are overridden by two different variables.
pub proof fn law_variable_names_differ()
    ensures
        variable_name(SettingsKey::RpcUrl) != variable_name(SettingsKey::PrivateKey),
{
    reveal_strlit("RPC_URL");
    reveal_strlit("PRIVATE_KEY");
    assert(variable_stem(SettingsKey::RpcUrl).len() != variable_stem(
        SettingsKey::PrivateKey,
    ).len());
    assert(variable_name(SettingsKey::RpcUrl).len() != variable_name(
        SettingsKey::PrivateKey,
    ).len());
}

/// No variable has the name exactly when the name is unset.
pub proof fn law_unset_means_unnamed(environment: Seq<EnvVarView>, name: Seq<char>)
    ensures
        overlay(environment, name) is Unset <==> forall|i: int|
            0 <= i < environment.len() ==> (#[trigger] environment[i]).name != name,
    decreases environment.len(),
{
    if environment.len() > 0 {
        let front = environment.drop_last();
        law_unset_means_unnamed(front, name);
        if environment.last().name != name {
            assert forall|i: int| 0 <= i < front.len() implies (#[trigger] front[i]).name
                == environment[i].name by {}
            if overlay(front, name) is Unset {
                assert forall|i: int| 0 <= i < environment.len() implies (
                #[trigger] environment[i]).name != name by {
                    if i < front.len() {
                        assert(front[i].name != name);
                    }
                }
            } else {
                let i = choose|i: int| 0 <= i < front.len() && (#[trigger] front[i]).name == name;
                assert(environment[i].name == name);
            }
        } else {
            assert(environment[environment.len() - 1].name == name);
        }
    }
}

/// Of the variables that have a name, the last one decides what the name
/// holds.
pub proof fn law_last_variable_decides(environment: Seq<EnvVarView>, name: Seq<char>, at: int)
    requires
        0 <= at < environment.len(),
        environment[at].name == name,
        forall|j: int| at < j < environment.len() ==> (#[trigger] environment[j]).name != name,
    ensures
        overlay(environment, name) == match environment[at].value {
            Some(text) => OverlayView::Text(text),
            None => OverlayView::Unreadable,
        },
    decreases environment.len(),
{
    if at < environment.len() - 1 {
        let front = environment.drop_last();
        assert(environment[environment.len() - 1].name != name);
        assert(front[at] == environment[at]);
        assert forall|j: int| at < j < front.len() implies (#[trigger] front[j]).name != name by {
            assert(front[j] == environment[j]);
        }
        law_last_variable_decides(front, name, at);
    }
}

/// A document that gives both keys a string always resolves, and each
/// field of the settings is the environment's text where the environment
/// gives one, the document's string where it does not. (An override that
/// cannot be read is an error of its own and is left out here.)
pub proof fn law_environment_wins(
    layer: FileLayerView,
    environment: Seq<EnvVarView>,
    key: SettingsKey,
)
    requires
        layer.rpc_url is Text,
        layer.private_key is Text,
        overrides_readable(environment),
    ensures
        resolve_spec(layer, environment) is Ok,
        settings_text(resolve_spec(layer, environment)->Ok_0, key) == match overlay(
            environment,
            variable_name(key),
        ) {
            OverlayView::Text(text) => text,
            _ => layer_value(layer, key)->Text_0,
        },
{
}

/// A document without one of the keys does not resolve, unless the
/// environment gives that key a text: no settings come of it, and no
/// default stands in for the key.
pub proof fn law_missing_key_fails(
    layer: FileLayerView,
    environment: Seq<EnvVarView>,
    key: SettingsKey,
)
    requires
        layer_value(layer, key) is Absent,
        !(overlay(environment, variable_name(key)) is Text),
    ensures
        resolve_spec(layer, environment) is Err,
{
}

/// A document that gives one of the keys a value that is no string does not
/// resolve, unless the environment gives that key a text: the value is not
/// turned into a string.
pub proof fn law_mismatched_key_fails(
    layer: FileLayerView,
    environment: Seq<EnvVarView>,
    key: SettingsKey,
)
    requires
        layer_value(layer, key) is Mismatched,
        !(overlay(environment, variable_name(key)) is Text),
    ensures
        resolve_spec(layer, environment) is Err,
{
}

/// Resolution fails exactly when an override cannot be read, or the merged
/// layers leave a key without a string; and what resolves holds, for each
/// key, the string that the merged layers hold for it.
pub proof fn law_resolution_fails_exactly(layer: FileLayerView, environment: Seq<EnvVarView>)
    ensures
        resolve_spec(layer, environment) is Err <==> !overrides_readable(environment) || !(merged(
            layer,
            environment,
            SettingsKey::RpcUrl,
        ) is Text) || !(merged(layer, environment, SettingsKey::PrivateKey) is Text),
        resolve_spec(layer, environment) matches Ok(settings) ==> forall|key: SettingsKey|
            merged(layer, environment, key) == FileValueView::Text(
                #[trigger] settings_text(settings, key),
            ),
{
}

/// Settings come of a document exactly when there is one, it parses, and
/// its layer resolves.
pub proof fn law_settings_need_a_document(
    document: Option<Seq<char>>,
    environment: Seq<EnvVarView>,
)
    ensures
        from_toml_spec(document, environment) is Ok <==> document is Some && parsed_entries(
            document->0,
        ) is Some && resolve_spec(layer_of(parsed_entries(document->0)->0), environment) is Ok,
{
}

} // verus!
