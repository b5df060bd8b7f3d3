//! The poller's configuration: its data, its default, its normal form and
//! its JSON form.

use crate::json::{
    json_model, json_parse, json_pretty, keys_of, models_of, parse_text, pretty_text,
    push_member, value_field, value_of_bool, value_of_items, value_of_members, value_of_text,
    value_of_u64, JsonModel, NumberModel, SyntaxFault,
};
use serde_json::Value;
use vstd::prelude::*;

verus! {

/// One service to watch.
#[derive(Clone, Debug, PartialEq, Eq)]
pub struct ServiceSpec {
    /// The name handed to the service-control command.
    pub name: String,
    /// The text whose presence in the command's output marks the service active.
    pub active_text: String,
    /// The text whose presence in the command's output marks the service inactive.
    pub inactive_text: String,
}

/// A `ServiceSpec` as a mathematical value.
pub struct ServiceModel {
    pub name: Seq<char>,
    pub active_text: Seq<char>,
    pub inactive_text: Seq<char>,
}

impl View for ServiceSpec {
    type V = ServiceModel;

    open spec fn view(&self) -> ServiceModel {
        ServiceModel {
            name: self.name@,
            active_text: self.active_text@,
            inactive_text: self.inactive_text@,
        }
    }
}

/// The poller's configuration.
#[derive(Clone, Debug, PartialEq, Eq)]
pub struct Config {
    /// Whether invocations and failures are traced to the diagnostic output.
    pub debug: bool,
    /// The pause between two rounds, in seconds.
    pub sleep: u64,
    /// The services, in the order in which they are checked and reported.
    pub services: Vec<ServiceSpec>,
    /// The path of the error log.
    pub log_file: String,
}

/// A `Config` as a mathematical value.
pub struct ConfigModel {
    pub debug: bool,
    pub sleep: u64,
    pub services: Seq<ServiceModel>,
    pub log_file: Seq<char>,
}

/// The services of a list as mathematical values.
pub open spec fn service_models(services: Seq<ServiceSpec>) -> Seq<ServiceModel> {
    services.map_values(|s: ServiceSpec| s@)
}

impl View for Config {
    type V = ConfigModel;

    open spec fn view(&self) -> ConfigModel {
        ConfigModel {
            debug: self.debug,
            sleep: self.sleep,
            services: service_models(self.services@),
            log_file: self.log_file@,
        }
    }
}

/// The path of the error log where the configuration names none.
pub open spec fn default_log_file() -> Seq<char> {
    "error.log"@
}

impl ConfigModel {
    /// A configuration is well formed when it names an error log.
    pub open spec fn well_formed(self) -> bool {
        self.log_file.len() > 0
    }

    /// The normal form: an empty log path becomes the default one.
    pub open spec fn normalized(self) -> ConfigModel {
        ConfigModel {
            log_file: if self.log_file.len() == 0 {
                default_log_file()
            } else {
                self.log_file
            },
            ..self
        }
    }

    /// The configuration that is written where none exists: tracing on, a
    /// pause of two seconds, one sample service, the default error log.
    pub open spec fn initial() -> ConfigModel {
        ConfigModel {
            debug: true,
            sleep: 2,
            services: seq![
                ServiceModel {
                    name: "fake_service"@,
                    active_text: "online"@,
                    inactive_text: "down"@,
                },
            ],
            log_file: default_log_file(),
        }
    }
}

/// The default log path is not empty.
pub proof fn lemma_default_log_file_not_empty()
    ensures
        default_log_file().len() > 0,
{
    reveal_strlit("error.log");
}

/// Normalizing yields a well-formed configuration, changes nothing but an
/// empty log path, and leaves a normalized configuration as it is.
pub proof fn lemma_normalized(c: ConfigModel)
    ensures
        c.normalized().well_formed(),
        c.well_formed() ==> c.normalized() == c,
        c.normalized().normalized() == c.normalized(),
        c.log_file.len() == 0 ==> c.normalized().log_file == default_log_file(),
        c.normalized().debug == c.debug,
        c.normalized().sleep == c.sleep,
        c.normalized().services == c.services,
{
    lemma_default_log_file_not_empty();
}

impl Default for Config {
    /// The configuration that is written where none exists.
    fn default() -> (r: Config)
        ensures
            r@ == ConfigModel::initial(),
            r@.well_formed(),
    {
        let mut services: Vec<ServiceSpec> = Vec::new();
        services.push(
            ServiceSpec {
                name: String::from_str("fake_service"),
                active_text: String::from_str("online"),
                inactive_text: String::from_str("down"),
            },
        );
        let r = Config {
            debug: true,
            sleep: 2,
            services,
            log_file: String::from_str("error.log"),
        };
        proof {
            lemma_default_log_file_not_empty();
            assert(r@.services =~= ConfigModel::initial().services);
        }
        r
    }
}

impl Config {
    /// Puts the configuration into normal form: an empty log path becomes
    /// `error.log`; nothing else changes.
    pub fn normalize(self) -> (r: Config)
        ensures
            r@ == self@.normalized(),
            r@.well_formed(),
    {
        proof {
            lemma_normalized(self@);
        }
        if self.log_file.as_str().is_empty() {
            Config {
                debug: self.debug,
                sleep: self.sleep,
                services: self.services,
                log_file: String::from_str("error.log"),
            }
        } else {
            self
        }
    }
}

/// A field of the configuration document.
#[derive(Clone, Copy, Debug, PartialEq, Eq, Structural)]
pub enum ConfigField {
    Debug,
    Sleep,
    Services,
    LogFile,
}

/// A field of one service in the configuration document.
#[derive(Clone, Copy, Debug, PartialEq, Eq, Structural)]
pub enum ServiceField {
    Name,
    ActiveText,
    InactiveText,
}

/// Why a text is no configuration.
#[derive(Clone, Copy, Debug, PartialEq, Eq, Structural)]
pub enum ConfigParseError {
    /// The text is not JSON.
    Syntax(SyntaxFault),
    /// A field of the document is missing or has the wrong type. `LogFile`
    /// may be missing: it is reported only when present and not a string.
    Field(ConfigField),
    /// A field of the service at `index` is missing or is not a string.
    Service { index: usize, field: ServiceField },
}

impl JsonModel {
    /// The member `key` where it is a boolean.
    pub open spec fn bool_field(self, key: Seq<char>) -> Option<bool> {
        match self.field(key) {
            Some(member) => member.as_bool(),
            None => None,
        }
    }

    /// The member `key` where it is a non-negative integer below 2^64.
    pub open spec fn u64_field(self, key: Seq<char>) -> Option<u64> {
        match self.field(key) {
            Some(member) => member.as_u64(),
            None => None,
        }
    }

    /// The member `key` where it is a string.
    pub open spec fn text_field(self, key: Seq<char>) -> Option<Seq<char>> {
        match self.field(key) {
            Some(member) => member.as_text(),
            None => None,
        }
    }

    /// The elements of the member `key` where it is an array.
    pub open spec fn items_field(self, key: Seq<char>) -> Option<Seq<JsonModel>> {
        match self.field(key) {
            Some(member) => member.as_items(),
            None => None,
        }
    }
}

/// The service that a document describes: its three fields are required
/// strings; the first one that is missing or no string is the error.
pub open spec fn service_of_json(doc: JsonModel) -> Result<ServiceModel, ServiceField> {
    if doc.text_field("name"@) is None {
        Err(ServiceField::Name)
    } else if doc.text_field("active_text"@) is None {
        Err(ServiceField::ActiveText)
    } else if doc.text_field("inactive_text"@) is None {
        Err(ServiceField::InactiveText)
    } else {
        Ok(
            ServiceModel {
                name: doc.text_field("name"@)->0,
                active_text: doc.text_field("active_text"@)->0,
                inactive_text: doc.text_field("inactive_text"@)->0,
            },
        )
    }
}

/// The services that a list of documents describes, in order; the error of
/// the first document that describes none.
pub open spec fn services_of_json(items: Seq<JsonModel>) -> Result<
    Seq<ServiceModel>,
    ConfigParseError,
>
    decreases items.len(),
{
    if items.len() == 0 {
        Ok(Seq::empty())
    } else {
        match services_of_json(items.drop_last()) {
            Err(e) => Err(e),
            Ok(front) => match service_of_json(items.last()) {
                Err(field) => Err(
                    ConfigParseError::Service { index: (items.len() - 1) as usize, field },
                ),
                Ok(service) => Ok(front.push(service)),
            },
        }
    }
}

/// The configuration that a document describes. `debug` (a boolean),
/// `sleep` (a non-negative integer) and `services` (an array of services)
/// are required, and are checked in this order; `log_file` is an optional
/// string. The result is in normal form.
pub open spec fn config_of_json(doc: JsonModel) -> Result<ConfigModel, ConfigParseError> {
    if doc.bool_field("debug"@) is None {
        Err(ConfigParseError::Field(ConfigField::Debug))
    } else if doc.u64_field("sleep"@) is None {
        Err(ConfigParseError::Field(ConfigField::Sleep))
    } else if doc.items_field("services"@) is None {
        Err(ConfigParseError::Field(ConfigField::Services))
    } else {
        match services_of_json(doc.items_field("services"@)->0) {
            Err(e) => Err(e),
            Ok(services) => if doc.field("log_file"@) is Some && doc.text_field("log_file"@)
                is None {
                Err(ConfigParseError::Field(ConfigField::LogFile))
            } else {
                Ok(
                    ConfigModel {
                        debug: doc.bool_field("debug"@)->0,
                        sleep: doc.u64_field("sleep"@)->0,
                        services,
                        log_file: match doc.text_field("log_file"@) {
                            Some(path) => path,
                            None => Seq::empty(),
                        },
                    }.normalized(),
                )
            },
        }
    }
}

/// The configuration that a text describes: the text must be JSON, and the
/// document a configuration.
pub open spec fn config_of_text(text: Seq<char>) -> Result<ConfigModel, ConfigParseError> {
    match json_parse(text) {
        Err(fault) => Err(ConfigParseError::Syntax(fault)),
        Ok(doc) => config_of_json(doc),
    }
}

/// The result of reading a configuration, as a mathematical value.
pub open spec fn config_view(r: Result<Config, ConfigParseError>) -> Result<
    ConfigModel,
    ConfigParseError,
> {
    match r {
        Ok(config) => Ok(config@),
        Err(e) => Err(e),
    }
}

/// Once a list of documents has a prefix that describes no services, the
/// whole list fails with the error of that prefix.
proof fn lemma_services_error_persists(items: Seq<JsonModel>, k: int)
    requires
        0 <= k <= items.len(),
        services_of_json(items.take(k)) is Err,
    ensures
        services_of_json(items) == services_of_json(items.take(k)),
    decreases items.len() - k,
{
    if k < items.len() {
        assert(items.take(k + 1).drop_last() =~= items.take(k));
        lemma_services_error_persists(items, k + 1);
    } else {
        assert(items.take(k) =~= items);
    }
}

fn text_member(v: &Value, key: &str) -> (r: Option<String>)
    ensures
        match r {
            Some(s) => json_model(*v).text_field(key@) == Some(s@),
            None => json_model(*v).text_field(key@) is None,
        },
{
    match value_field(v, key) {
        Some(member) => match member.as_str() {
            Some(s) => Some(String::from_str(s)),
            None => None,
        },
        None => None,
    }
}

fn service_from_value(v: &Value) -> (r: Result<ServiceSpec, ServiceField>)
    ensures
        match r {
            Ok(service) => service_of_json(json_model(*v)) == Ok::<ServiceModel, ServiceField>(
                service@,
            ),
            Err(field) => service_of_json(json_model(*v)) == Err::<ServiceModel, ServiceField>(
                field,
            ),
        },
{
    let name = match text_member(v, "name") {
        Some(s) => s,
        None => { return Err(ServiceField::Name); },
    };
    let active_text = match text_member(v, "active_text") {
        Some(s) => s,
        None => { return Err(ServiceField::ActiveText); },
    };
    let inactive_text = match text_member(v, "inactive_text") {
        Some(s) => s,
        None => { return Err(ServiceField::InactiveText); },
    };
    Ok(ServiceSpec { name, active_text, inactive_text })
}

fn services_from_values(items: &Vec<Value>) -> (r: Result<Vec<ServiceSpec>, ConfigParseError>)
    ensures
        match r {
            Ok(services) => services_of_json(models_of(items@)) == Ok::<
                Seq<ServiceModel>,
                ConfigParseError,
            >(service_models(services@)),
            Err(e) => services_of_json(models_of(items@)) == Err::<
                Seq<ServiceModel>,
                ConfigParseError,
            >(e),
        },
{
    let ghost docs = models_of(items@);
    let mut services: Vec<ServiceSpec> = Vec::new();
    let mut i: usize = 0;
    assert(docs.take(0) =~= Seq::<JsonModel>::empty());
    assert(service_models(services@) =~= Seq::<ServiceModel>::empty());
    while i < items.len()
        invariant
            i <= items.len(),
            docs == models_of(items@),
            services_of_json(docs.take(i as int)) == Ok::<Seq<ServiceModel>, ConfigParseError>(
                service_models(services@),
            ),
        decreases items.len() - i,
    {
        proof {
            assert(docs.take(i + 1).drop_last() =~= docs.take(i as int));
            assert(docs.take(i + 1).last() == json_model(items@[i as int]));
        }
        match service_from_value(&items[i]) {
            Ok(service) => {
                proof {
                    assert(service_models(services@.push(service)) =~= service_models(
                        services@,
                    ).push(service@));
                }
                services.push(service);
            },
            Err(field) => {
                proof {
                    lemma_services_error_persists(docs, i + 1);
                }
                return Err(ConfigParseError::Service { index: i, field });
            },
        }
        i += 1;
    }
    assert(docs.take(i as int) =~= docs);
    Ok(services)
}

/// Reads a configuration from a JSON document.
pub fn config_from_value(v: &Value) -> (r: Result<Config, ConfigParseError>)
    ensures
        config_view(r) == config_of_json(json_model(*v)),
        r matches Ok(config) ==> config@.well_formed(),
{
    let debug = match value_field(v, "debug") {
        Some(member) => member.as_bool(),
        None => None,
    };
    let debug = match debug {
        Some(b) => b,
        None => { return Err(ConfigParseError::Field(ConfigField::Debug)); },
    };
    let sleep = match value_field(v, "sleep") {
        Some(member) => member.as_u64(),
        None => None,
    };
    let sleep = match sleep {
        Some(n) => n,
        None => { return Err(ConfigParseError::Field(ConfigField::Sleep)); },
    };
    let items = match value_field(v, "services") {
        Some(member) => member.as_array(),
        None => None,
    };
    let items = match items {
        Some(items) => items,
        None => { return Err(ConfigParseError::Field(ConfigField::Services)); },
    };
    let services = match services_from_values(items) {
        Ok(services) => services,
        Err(e) => { return Err(e); },
    };
    let log_file = match value_field(v, "log_file") {
        Some(member) => match member.as_str() {
            Some(path) => String::from_str(path),
            None => { return Err(ConfigParseError::Field(ConfigField::LogFile)); },
        },
        None => String::new(),
    };
    Ok(Config { debug, sleep, services, log_file }.normalize())
}

/// Reads a configuration from JSON text.
pub fn parse_config(text: &str) -> (r: Result<Config, ConfigParseError>)
    ensures
        config_view(r) == config_of_text(text@),
        r matches Ok(config) ==> config@.well_formed(),
{
    match parse_text(text) {
        Ok(v) => config_from_value(&v),
        Err(fault) => Err(ConfigParseError::Syntax(fault)),
    }
}

/// The document that describes a service.
pub open spec fn service_json(service: ServiceModel) -> JsonModel {
    JsonModel::Object(
        Map::<Seq<char>, JsonModel>::empty().insert("name"@, JsonModel::Text(service.name)).insert(
            "active_text"@,
            JsonModel::Text(service.active_text),
        ).insert("inactive_text"@, JsonModel::Text(service.inactive_text)),
    )
}

/// The documents that describe a list of services.
pub open spec fn services_json(services: Seq<ServiceModel>) -> Seq<JsonModel> {
    services.map_values(|s: ServiceModel| service_json(s))
}

/// The document that describes a configuration.
pub open spec fn config_json(config: ConfigModel) -> JsonModel {
    JsonModel::Object(
        Map::<Seq<char>, JsonModel>::empty().insert("debug"@, JsonModel::Bool(config.debug)).insert(
            "sleep"@,
            JsonModel::Number(NumberModel::Unsigned(config.sleep)),
        ).insert("services"@, JsonModel::Array(services_json(config.services))).insert(
            "log_file"@,
            JsonModel::Text(config.log_file),
        ),
    )
}

fn service_to_value(service: &ServiceSpec) -> (v: Value)
    ensures
        json_model(v) == service_json(service@),
{
    let mut pairs: Vec<(String, Value)> = Vec::new();
    push_member(&mut pairs, "name", value_of_text(service.name.clone()));
    push_member(&mut pairs, "active_text", value_of_text(service.active_text.clone()));
    push_member(&mut pairs, "inactive_text", value_of_text(service.inactive_text.clone()));
    proof {
        lemma_keys_distinct();
        assert(keys_of(pairs@) =~= seq!["name"@, "active_text"@, "inactive_text"@]);
    }
    value_of_members(pairs)
}

/// The JSON document that describes `config`.
pub fn config_to_value(config: &Config) -> (v: Value)
    ensures
        json_model(v) == config_json(config@),
{
    let mut items: Vec<Value> = Vec::new();
    let mut i: usize = 0;
    while i < config.services.len()
        invariant
            i <= config.services.len(),
            models_of(items@) == services_json(service_models(config.services@).take(i as int)),
        decreases config.services.len() - i,
    {
        let item = service_to_value(&config.services[i]);
        proof {
            let all = service_models(config.services@);
            assert(all[i as int] == config.services@[i as int]@);
            assert(models_of(items@.push(item)) =~= models_of(items@).push(json_model(item)));
            assert(services_json(all.take(i + 1)) =~= services_json(all.take(i as int)).push(
                service_json(all[i as int]),
            ));
        }
        items.push(item);
        i += 1;
    }
    proof {
        let all = service_models(config.services@);
        assert(all.take(i as int) =~= all);
    }
    let mut pairs: Vec<(String, Value)> = Vec::new();
    push_member(&mut pairs, "debug", value_of_bool(config.debug));
    push_member(&mut pairs, "sleep", value_of_u64(config.sleep));
    push_member(&mut pairs, "services", value_of_items(items));
    push_member(&mut pairs, "log_file", value_of_text(config.log_file.clone()));
    proof {
        lemma_keys_distinct();
        assert(keys_of(pairs@) =~= seq!["debug"@, "sleep"@, "services"@, "log_file"@]);
    }
    value_of_members(pairs)
}

/// The JSON text that describes `config`, indented for reading.
pub fn render_config(config: &Config) -> (r: String)
    ensures
        r@ == json_pretty(config_json(config@)),
{
    pretty_text(&config_to_value(config))
}

/// The text of the configuration file that is written where none exists.
pub open spec fn default_config_text() -> Seq<char> {
    json_pretty(config_json(ConfigModel::initial()))
}

/// What the configuration file holds once it has been loaded: what it held
/// before, or the default text where there was no file.
pub open spec fn file_after_load(existing: Option<Seq<char>>) -> Seq<char> {
    match existing {
        Some(text) => text,
        None => default_config_text(),
    }
}

/// What loading yields, given what the file holds on entry (`None`: there
/// is no file): the configuration that the file describes after the load.
pub open spec fn load_result(existing: Option<Seq<char>>) -> Result<
    ConfigModel,
    ConfigParseError,
> {
    config_of_text(file_after_load(existing))
}

/// The outcome of loading the configuration.
#[derive(Debug, PartialEq, Eq)]
pub struct ConfigLoad {
    /// The text to write to the configuration file before anything else
    /// happens: `Some` exactly where the file did not exist.
    pub written: Option<String>,
    /// The configuration, or why the file describes none.
    pub config: Result<Config, ConfigParseError>,
}

/// The text that a load asks to write, as a mathematical value.
pub open spec fn written_view(written: Option<String>) -> Option<Seq<char>> {
    match written {
        Some(text) => Some(text@),
        None => None,
    }
}

/// The text of a file that may not exist, as a mathematical value.
pub open spec fn existing_view(existing: Option<&str>) -> Option<Seq<char>> {
    match existing {
        Some(text) => Some(text@),
        None => None,
    }
}

/// Loads the configuration from what the configuration file holds
/// (`None`: there is no file). Where there is no file, the default
/// configuration is rendered, handed back to be written, and read as the
/// file's content. The configuration that comes back is in normal form.
pub fn read_config(existing: Option<&str>) -> (r: ConfigLoad)
    ensures
        written_view(r.written) == (if existing is None {
            Some(default_config_text())
        } else {
            None
        }),
        config_view(r.config) == load_result(existing_view(existing)),
        r.config matches Ok(config) ==> config@.well_formed(),
{
    match existing {
        Some(text) => ConfigLoad { written: None, config: parse_config(text) },
        None => {
            let text = render_config(&Config::default());
            let config = parse_config(text.as_str());
            ConfigLoad { written: Some(text), config }
        },
    }
}

proof fn lemma_keys_distinct()
    ensures
        "name"@ != "active_text"@,
        "name"@ != "inactive_text"@,
        "active_text"@ != "inactive_text"@,
        "debug"@ != "sleep"@,
        "debug"@ != "services"@,
        "debug"@ != "log_file"@,
        "sleep"@ != "services"@,
        "sleep"@ != "log_file"@,
        "services"@ != "log_file"@,
{
    reveal_strlit("name");
    reveal_strlit("active_text");
    reveal_strlit("inactive_text");
    reveal_strlit("debug");
    reveal_strlit("sleep");
    reveal_strlit("services");
    reveal_strlit("log_file");
    assert("name"@.len() == 4);
    assert("active_text"@.len() == 11);
    assert("inactive_text"@.len() == 13);
    assert("debug"@.len() == 5);
    assert("sleep"@.len() == 5);
    assert("services"@.len() == 8);
    assert("log_file"@.len() == 8);
    assert("debug"@[0] == 'd');
    assert("sleep"@[0] == 's');
    assert("services"@[0] == 's');
    assert("log_file"@[0] == 'l');
}

/// The document of a service describes that service.
pub proof fn lemma_service_json_round_trip(service: ServiceModel)
    ensures
        service_of_json(service_json(service)) == Ok::<ServiceModel, ServiceField>(service),
{
    lemma_keys_distinct();
}

/// The documents of a list of services describe that list.
pub proof fn lemma_services_json_round_trip(services: Seq<ServiceModel>)
    ensures
        services_of_json(services_json(services)) == Ok::<Seq<ServiceModel>, ConfigParseError>(
            services,
        ),
    decreases services.len(),
{
    if services.len() == 0 {
        assert(services =~= Seq::<ServiceModel>::empty());
    } else {
        lemma_services_json_round_trip(services.drop_last());
        lemma_service_json_round_trip(services.last());
        assert(services_json(services).drop_last() =~= services_json(services.drop_last()));
        assert(services.drop_last().push(services.last()) =~= services);
    }
}

/// Reading the document of a configuration gives that configuration back,
/// in normal form.
pub proof fn lemma_config_json_round_trip(config: ConfigModel)
    ensures
        config_of_json(config_json(config)) == Ok::<ConfigModel, ConfigParseError>(
            config.normalized(),
        ),
{
    lemma_keys_distinct();
    lemma_services_json_round_trip(config.services);
}

/// Every configuration that is read names an error log: a missing or empty
/// `log_file` reads as `error.log`, and any other path is kept.
pub proof fn lemma_read_config_is_normal(doc: JsonModel)
    requires
        config_of_json(doc) is Ok,
    ensures
        config_of_json(doc)->Ok_0.well_formed(),
        config_of_json(doc)->Ok_0.normalized() == config_of_json(doc)->Ok_0,
        doc.field("log_file"@) is None ==> config_of_json(doc)->Ok_0.log_file
            == default_log_file(),
        doc.text_field("log_file"@) == Some(Seq::<char>::empty()) ==> config_of_json(
            doc,
        )->Ok_0.log_file == default_log_file(),
        doc.text_field("log_file"@) is Some && doc.text_field("log_file"@)->0.len() > 0
            ==> config_of_json(doc)->Ok_0.log_file == doc.text_field("log_file"@)->0,
{
    lemma_default_log_file_not_empty();
}

/// Loading twice where no file exists at first: the first load leaves the
/// text of the default document, whose `log_file` is `error.log`; the second
/// finds that text, leaves it as it is, and yields what the first one
/// yielded.
pub proof fn lemma_bootstrap_is_idempotent()
    ensures
        file_after_load(None) == json_pretty(config_json(ConfigModel::initial())),
        config_json(ConfigModel::initial()).text_field("log_file"@) == Some("error.log"@),
        file_after_load(Some(file_after_load(None))) == file_after_load(None),
        load_result(Some(file_after_load(None))) == load_result(None),
{
    lemma_keys_distinct();
}

} // verus!
