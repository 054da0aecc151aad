//! The configuration settings (GUCs) of the exporter: their definitions, and
//! how their values become an `ExporterConfig`.

use vstd::prelude::*;
use vstd::string::StringExecFns;
use crate::postgres::{c_text, opt_text};
use crate::text::pg_str;

verus! {

/// When a setting may change.
#[derive(Clone, Copy, Debug, PartialEq, Eq, Structural)]
pub enum GucContext {
    /// In the configuration file, read again on SIGHUP.
    Sighup,
    /// By any user, in the session.
    Userset,
}

/// The type of a setting, with its default value and bounds.
#[derive(Clone, Copy, Debug, PartialEq, Eq)]
pub enum GucKind {
    Text { default_text: Option<&'static str> },
    Integer { default_int: i32, min: i32, max: i32 },
}

/// The definition of a configuration setting.
#[derive(Clone, Copy, Debug, PartialEq, Eq)]
pub struct GucDefinition {
    pub name: &'static str,
    pub short_description: &'static str,
    pub description: &'static str,
    pub kind: GucKind,
    pub context: GucContext,
    /// The setting may not be set in the configuration file (`GUC_DISALLOW_IN_FILE`).
    pub disallow_in_file: bool,
}

/// The name of the OTLP endpoint setting.
pub const OTLP_ENDPOINT_GUC: &'static str = "pg_otel.otlp_endpoint";
/// The name of the OTLP timeout setting.
pub const OTLP_TIMEOUT_MS_GUC: &'static str = "pg_otel.otlp_timeout_ms";
/// The name of the OTLP protocol setting.
pub const OTLP_PROTOCOL_GUC: &'static str = "pg_otel.otlp_protocol";
/// The name of the OTLP authorization setting.
pub const OTLP_AUTHORIZATION_GUC: &'static str = "pg_otel.otlp_authorization";
/// The name of the OTLP CA certificate setting.
pub const OTLP_CA_CERTIFICATE_GUC: &'static str = "pg_otel.otlp_ca_certificate";
/// The name of the service name setting.
pub const OTLP_SERVICE_NAME_GUC: &'static str = "otel.service.name";
/// The name of the traceparent setting.
pub const OTLP_TRACEPARENT_GUC: &'static str = "pg_otel.traceparent";

/// The settings of the exporter, in the order in which they are defined.
pub open spec fn guc_definitions() -> Seq<GucDefinition> {
    seq![
        GucDefinition {
            name: OTLP_ENDPOINT_GUC,
            short_description: "OTLP exporter endpoint",
            description: "The endpoint used by the OTLP exporter.",
            kind: GucKind::Text { default_text: Some("http://localhost:4317") },
            context: GucContext::Sighup,
            disallow_in_file: false,
        },
        GucDefinition {
            name: OTLP_PROTOCOL_GUC,
            short_description: "OTLP protocol",
            description: "The protocol used by the OTLP exporter.",
            kind: GucKind::Text { default_text: Some("grpc") },
            context: GucContext::Sighup,
            disallow_in_file: false,
        },
        GucDefinition {
            name: OTLP_TIMEOUT_MS_GUC,
            short_description: "OTLP exporter timeout in milliseconds",
            description: "The timeout used by the OTLP exporter.",
            kind: GucKind::Integer { default_int: 10_000, min: 1, max: 86_400_000 },
            context: GucContext::Sighup,
            disallow_in_file: false,
        },
        GucDefinition {
            name: OTLP_AUTHORIZATION_GUC,
            short_description: "OTLP authorization header",
            description: "The value of the Authorization header sent to the OTLP collector.",
            kind: GucKind::Text { default_text: None },
            context: GucContext::Sighup,
            disallow_in_file: false,
        },
        GucDefinition {
            name: OTLP_CA_CERTIFICATE_GUC,
            short_description: "OTLP CA certificate path",
            description: "The path to the CA certificate for the OTLP collector.",
            kind: GucKind::Text { default_text: None },
            context: GucContext::Sighup,
            disallow_in_file: false,
        },
        GucDefinition {
            name: OTLP_SERVICE_NAME_GUC,
            short_description: "OTLP service name",
            description: "The name of the OTLP service.",
            kind: GucKind::Text { default_text: Some("postgresql") },
            context: GucContext::Sighup,
            disallow_in_file: false,
        },
        GucDefinition {
            name: OTLP_TRACEPARENT_GUC,
            short_description: "OTLP traceparent",
            description: "The traceparent header value to use for OTLP traces.",
            kind: GucKind::Text { default_text: None },
            context: GucContext::Userset,
            disallow_in_file: true,
        },
    ]
}

/// The values of the settings as PostgreSQL holds them: the bytes of each
/// text setting (`None` when it is not set) and the integer timeout.
#[derive(Debug)]
pub struct GucValues {
    pub endpoint: Option<Vec<u8>>,
    pub protocol: Option<Vec<u8>>,
    pub timeout_ms: i32,
    pub authorization: Option<Vec<u8>>,
    pub ca_certificate: Option<Vec<u8>>,
    pub service_name: Option<Vec<u8>>,
    pub traceparent: Option<Vec<u8>>,
}

/// The configuration of the OTLP exporter.
#[derive(Clone, Debug)]
pub struct ExporterConfig {
    pub endpoint: String,
    pub protocol: String,
    pub timeout_ms: u32,
    pub authorization: Option<String>,
    pub ca_certificate: Option<String>,
    pub service_name: String,
}

/// The service name used when the setting cannot be read.
pub const OTLP_SERVICE_NAME_DEFAULT: &'static str = "postgresql";

/// The service name that the service name setting gives: its text, or
/// `postgresql` when it is not set or not valid UTF-8.
pub open spec fn service_name_spec(setting: Option<Vec<u8>>) -> Seq<char> {
    match c_text(setting) {
        Some(name) => name,
        None => OTLP_SERVICE_NAME_DEFAULT@,
    }
}

/// The text of a setting, as a `String`.
fn setting_text(setting: &Option<Vec<u8>>) -> (r: Option<String>)
    ensures
        opt_text(r) == c_text(*setting),
{
    match setting {
        Some(bytes) => match pg_str(bytes.as_slice()) {
            Some(text) => Some(String::from_str(text)),
            None => None,
        },
        None => None,
    }
}

/// The OTLP endpoint setting: none when the setting is not set or not valid UTF-8.
pub fn get_otlp_endpoint(values: &GucValues) -> (r: Option<String>)
    ensures
        opt_text(r) == c_text(values.endpoint),
{
    setting_text(&values.endpoint)
}

/// The OTLP protocol: none when the setting is not set or not valid UTF-8.
pub fn get_otlp_protocol(values: &GucValues) -> (r: Option<String>)
    ensures
        opt_text(r) == c_text(values.protocol),
{
    setting_text(&values.protocol)
}

/// The value of the Authorization header: none when the setting is not set
/// or not valid UTF-8.
pub fn get_otlp_authorization(values: &GucValues) -> (r: Option<String>)
    ensures
        opt_text(r) == c_text(values.authorization),
{
    setting_text(&values.authorization)
}

/// The path of the CA certificate: none when the setting is not set or not
/// valid UTF-8.
pub fn get_otlp_ca_certificate(values: &GucValues) -> (r: Option<String>)
    ensures
        opt_text(r) == c_text(values.ca_certificate),
{
    setting_text(&values.ca_certificate)
}

/// The service name: `postgresql` when the setting is not set or not valid
/// UTF-8.
pub fn get_otlp_service_name(values: &GucValues) -> (r: String)
    ensures
        r@ == service_name_spec(values.service_name),
{
    match setting_text(&values.service_name) {
        Some(name) => name,
        None => String::from_str(OTLP_SERVICE_NAME_DEFAULT),
    }
}

/// The traceparent that the session set in `pg_otel.traceparent`: none when
/// the setting is not set or not valid UTF-8.
pub fn get_otlp_traceparent(values: &GucValues) -> (r: Option<String>)
    ensures
        opt_text(r) == c_text(values.traceparent),
{
    setting_text(&values.traceparent)
}

impl ExporterConfig {
    /// The settings to register with PostgreSQL, in order.
    pub fn define_gucs() -> (r: Vec<GucDefinition>)
        ensures
            r@ == guc_definitions(),
    {
        let r = vec![
            GucDefinition {
                name: OTLP_ENDPOINT_GUC,
                short_description: "OTLP exporter endpoint",
                description: "The endpoint used by the OTLP exporter.",
                kind: GucKind::Text { default_text: Some("http://localhost:4317") },
                context: GucContext::Sighup,
                disallow_in_file: false,
            },
            GucDefinition {
                name: OTLP_PROTOCOL_GUC,
                short_description: "OTLP protocol",
                description: "The protocol used by the OTLP exporter.",
                kind: GucKind::Text { default_text: Some("grpc") },
                context: GucContext::Sighup,
                disallow_in_file: false,
            },
            GucDefinition {
                name: OTLP_TIMEOUT_MS_GUC,
                short_description: "OTLP exporter timeout in milliseconds",
                description: "The timeout used by the OTLP exporter.",
                kind: GucKind::Integer { default_int: 10_000, min: 1, max: 86_400_000 },
                context: GucContext::Sighup,
                disallow_in_file: false,
            },
            GucDefinition {
                name: OTLP_AUTHORIZATION_GUC,
                short_description: "OTLP authorization header",
                description: "The value of the Authorization header sent to the OTLP collector.",
                kind: GucKind::Text { default_text: None },
                context: GucContext::Sighup,
                disallow_in_file: false,
            },
            GucDefinition {
                name: OTLP_CA_CERTIFICATE_GUC,
                short_description: "OTLP CA certificate path",
                description: "The path to the CA certificate for the OTLP collector.",
                kind: GucKind::Text { default_text: None },
                context: GucContext::Sighup,
                disallow_in_file: false,
            },
            GucDefinition {
                name: OTLP_SERVICE_NAME_GUC,
                short_description: "OTLP service name",
                description: "The name of the OTLP service.",
                kind: GucKind::Text { default_text: Some("postgresql") },
                context: GucContext::Sighup,
                disallow_in_file: false,
            },
            GucDefinition {
                name: OTLP_TRACEPARENT_GUC,
                short_description: "OTLP traceparent",
                description: "The traceparent header value to use for OTLP traces.",
                kind: GucKind::Text { default_text: None },
                context: GucContext::Userset,
                disallow_in_file: true,
            },
        ];
        assert(r@ =~= guc_definitions());
        r
    }

    /// The exporter configuration that the settings give: none when the
    /// endpoint or the protocol is not set or not valid UTF-8. The timeout is
    /// the integer setting read as unsigned; the authorization and the CA
    /// certificate are optional; the service name falls back to `postgresql`.
    pub fn load(values: &GucValues) -> (r: Option<ExporterConfig>)
        ensures
            r is Some <==> c_text(values.endpoint) is Some && c_text(values.protocol) is Some,
            r matches Some(config) ==> {
                &&& Some(config.endpoint@) == c_text(values.endpoint)
                &&& Some(config.protocol@) == c_text(values.protocol)
                &&& config.timeout_ms == values.timeout_ms as u32
                &&& opt_text(config.authorization) == c_text(values.authorization)
                &&& opt_text(config.ca_certificate) == c_text(values.ca_certificate)
                &&& config.service_name@ == service_name_spec(values.service_name)
                &&& 1 <= values.timeout_ms <= 86_400_000 ==> 1 <= config.timeout_ms <= 86_400_000
            },
    {
        let endpoint = match get_otlp_endpoint(values) {
            Some(e) => e,
            None => return None,
        };
        let protocol = match get_otlp_protocol(values) {
            Some(p) => p,
            None => return None,
        };
        Some(ExporterConfig {
            endpoint,
            protocol,
            timeout_ms: values.timeout_ms as u32,
            authorization: get_otlp_authorization(values),
            ca_certificate: get_otlp_ca_certificate(values),
            service_name: get_otlp_service_name(values),
        })
    }
}

/// The settings are those that the configuration documents, in this order:
/// the endpoint, the protocol, the timeout in milliseconds (an integer from
/// 1 to 86 400 000, 10 000 by default), the authorization, the CA certificate
/// path, the service name, and the traceparent, which a session may `SET`
/// but the configuration file may not hold; all but the traceparent are read
/// again when the configuration is reloaded.
pub proof fn law_documented_settings()
    ensures
        guc_definitions().len() == 7,
        guc_definitions()[0].name@ == "pg_otel.otlp_endpoint"@,
        guc_definitions()[1].name@ == "pg_otel.otlp_protocol"@,
        guc_definitions()[2].name@ == "pg_otel.otlp_timeout_ms"@,
        guc_definitions()[2].kind == (GucKind::Integer { default_int: 10_000, min: 1, max: 86_400_000 }),
        guc_definitions()[3].name@ == "pg_otel.otlp_authorization"@,
        guc_definitions()[4].name@ == "pg_otel.otlp_ca_certificate"@,
        guc_definitions()[6].name@ == "pg_otel.traceparent"@,
        guc_definitions()[6].context == GucContext::Userset,
        guc_definitions()[6].disallow_in_file,
        forall|i: int| 0 <= i < 6 ==> (#[trigger] guc_definitions()[i]).context == GucContext::Sighup,
{
}

} // verus!
