//! The background worker's decisions: which exporter the configuration
//! asks for, what a configuration reload leaves in place, and what becomes of
//! the queued spans.

use vstd::prelude::*;
use vstd::string::{StringExecFns, StringSliceAdditionalSpecFns};
use crate::config::ExporterConfig;
use crate::postgres::opt_text;

verus! {

/// Whether bytes may form an HTTP header value: each is a tab, or at least
/// 32 and not 127.
pub open spec fn header_value_bytes(bytes: Seq<u8>) -> bool {
    forall|i: int| 0 <= i < bytes.len() ==> (bytes[i] >= 32 && bytes[i] != 127) || bytes[i] == 9
}

/// `<MetadataValue<Ascii> as FromStr>::from_str`, telling whether it accepts
/// the text.
///
/// Trusted: tonic hands the text to `http::HeaderValue::from_str`, which
/// accepts it exactly when every byte is a tab, or at least 32 and not 127.
#[verifier::external_body]
fn is_ascii_metadata_value(text: &str) -> (r: bool)
    ensures
        r == header_value_bytes(text.spec_bytes()),
{
    text.parse::<tonic::metadata::MetadataValue<tonic::metadata::Ascii>>().is_ok()
}

/// The transport through which spans are exported.
#[derive(Clone, Copy, Debug, PartialEq, Eq, Structural)]
pub enum ExportProtocol {
    /// OTLP over gRPC.
    Grpc,
    /// OTLP over HTTP with protobuf payloads.
    Http,
}

/// A character with ASCII upper case letters folded to lower case.
pub open spec fn ascii_lower(c: char) -> char {
    if 'A' <= c && c <= 'Z' {
        ((c as u32) + 32) as char
    } else {
        c
    }
}

/// A text with ASCII upper case letters folded to lower case.
pub open spec fn ascii_lowercase(s: Seq<char>) -> Seq<char> {
    s.map_values(|c: char| ascii_lower(c))
}

/// The protocol that a protocol setting names, whatever the case of its
/// ASCII letters: `grpc` or `grpc-tonic` for gRPC, `http`, `http/protobuf` or
/// `http-binary` for HTTP, and none for anything else.
pub open spec fn protocol_spec(protocol: Seq<char>) -> Option<ExportProtocol> {
    let p = ascii_lowercase(protocol);
    if p == "grpc"@ || p == "grpc-tonic"@ {
        Some(ExportProtocol::Grpc)
    } else if p == "http"@ || p == "http/protobuf"@ || p == "http-binary"@ {
        Some(ExportProtocol::Http)
    } else {
        None
    }
}

/// The protocol setting is read without regard to the case of its ASCII
/// letters: folding them first names the same protocol.
pub proof fn law_protocol_case_insensitive(protocol: Seq<char>)
    ensures
        protocol_spec(ascii_lowercase(protocol)) == protocol_spec(protocol),
{
    assert(ascii_lowercase(ascii_lowercase(protocol)) =~= ascii_lowercase(protocol));
}

/// The protocols that the configuration documents are supported: `grpc`
/// gives gRPC and `http/protobuf` gives HTTP, in any case of their letters.
pub proof fn law_documented_protocols(protocol: Seq<char>)
    ensures
        ascii_lowercase(protocol) == "grpc"@ ==> protocol_spec(protocol) == Some(ExportProtocol::Grpc),
        ascii_lowercase(protocol) == "http/protobuf"@ ==> protocol_spec(protocol) == Some(ExportProtocol::Http),
        protocol_spec("grpc"@) == Some(ExportProtocol::Grpc),
        protocol_spec("http/protobuf"@) == Some(ExportProtocol::Http),
{
    reveal_strlit("grpc");
    reveal_strlit("http/protobuf");
    reveal_strlit("grpc-tonic");
    reveal_strlit("http");
    assert("http/protobuf"@.len() != "grpc"@.len() && "http/protobuf"@.len() != "grpc-tonic"@.len());
    assert(ascii_lowercase("grpc"@) =~= "grpc"@);
    assert(ascii_lowercase("http/protobuf"@) =~= "http/protobuf"@);
}

/// Whether `text`, with its ASCII letters folded to lower case, is `lower`.
fn equals_folded(text: &str, lower: &str) -> (r: bool)
    ensures
        r == (ascii_lowercase(text@) == lower@),
{
    let n = text.unicode_len();
    if n != lower.unicode_len() {
        proof {
            assert(ascii_lowercase(text@).len() == text@.len());
        }
        return false;
    }
    let mut i: usize = 0;
    while i < n
        invariant
            n == text@.len(),
            n == lower@.len(),
            i <= n,
            forall|j: int| 0 <= j < i ==> ascii_lower(text@[j]) == lower@[j],
        decreases n - i,
    {
        let c = text.get_char(i);
        let e = lower.get_char(i);
        let code = c as u32;
        let folded = if 65 <= code && code <= 90 {
            code + 32
        } else {
            code
        };
        proof {
            vstd::utf8::char_u32_cast(c, code);
            vstd::utf8::char_is_scalar(e);
            if 65 <= code && code <= 90 {
                assert(((code + 32) as char) as u32 == code + 32);
            }
        }
        if folded != e as u32 {
            proof {
                assert(ascii_lowercase(text@)[i as int] == ascii_lower(text@[i as int]));
                if ascii_lower(c) == e {
                    assert(ascii_lower(c) as u32 == e as u32);
                }
            }
            return false;
        }
        proof {
            assert(ascii_lower(c) as u32 == e as u32);
        }
        i = i + 1;
    }
    proof {
        assert(ascii_lowercase(text@) =~= lower@);
    }
    true
}

/// The protocol that the protocol setting names, or none for an unsupported
/// one.
pub fn select_protocol(protocol: &str) -> (r: Option<ExportProtocol>)
    ensures
        r == protocol_spec(protocol@),
{
    if equals_folded(protocol, "grpc") || equals_folded(protocol, "grpc-tonic") {
        Some(ExportProtocol::Grpc)
    } else if equals_folded(protocol, "http") || equals_folded(protocol, "http/protobuf")
        || equals_folded(protocol, "http-binary") {
        Some(ExportProtocol::Http)
    } else {
        None
    }
}


/// The name of the framework that the exporter's resource reports.
pub const SERVICE_FRAMEWORK_NAME: &'static str = "postgresql";

/// The version of the framework that the exporter's resource reports.
pub const SERVICE_FRAMEWORK_VERSION: &'static str = "19";

/// The name of the HTTP header that carries the authorization.
pub const AUTHORIZATION_HEADER: &'static str = "Authorization";

/// How the exporter reaches the collector.
#[derive(Debug)]
pub enum ExporterTransport {
    /// gRPC, with an optional CA certificate (a path) and an optional value of
    /// the `authorization` metadata entry.
    Grpc { ca_certificate: Option<String>, authorization: Option<String> },
    /// HTTP, with the headers to send.
    Http { headers: Vec<(String, String)> },
}

/// The exporter that the configuration asks for.
#[derive(Debug)]
pub struct ExporterPlan {
    pub transport: ExporterTransport,
    pub endpoint: String,
    pub timeout_ms: u64,
    pub service_name: String,
}

/// Why the configuration gives no exporter.
#[derive(Clone, Copy, Debug, PartialEq, Eq, Structural)]
pub enum PlanRefusal {
    /// The protocol is none of those supported.
    UnsupportedProtocol,
    /// The authorization cannot be the value of a gRPC metadata entry.
    InvalidAuthorization,
}

/// The CA certificate path that the setting gives: an empty path means that
/// no custom CA is used.
pub open spec fn custom_ca(setting: Option<String>) -> Option<Seq<char>> {
    match setting {
        Some(path) => if path@.len() > 0 { Some(path@) } else { None },
        None => None,
    }
}

/// The views of a list of headers.
pub open spec fn header_views(headers: Seq<(String, String)>) -> Seq<(Seq<char>, Seq<char>)> {
    headers.map_values(|h: (String, String)| (h.0@, h.1@))
}

/// The exporter that a configuration asks for, or why there is none.
pub open spec fn exporter_plan_spec(config: ExporterConfig, plan: Result<ExporterPlan, PlanRefusal>) -> bool {
    match protocol_spec(config.protocol@) {
        None => plan == Err::<ExporterPlan, PlanRefusal>(PlanRefusal::UnsupportedProtocol),
        Some(protocol) => {
            let auth_ok = match config.authorization {
                Some(a) => header_value_bytes(vstd::utf8::encode_utf8(a@)),
                None => true,
            };
            if protocol == ExportProtocol::Grpc && !auth_ok {
                plan == Err::<ExporterPlan, PlanRefusal>(PlanRefusal::InvalidAuthorization)
            } else {
                &&& plan matches Ok(p)
                &&& p.endpoint@ == config.endpoint@
                &&& p.timeout_ms == config.timeout_ms as u64
                &&& p.service_name@ == config.service_name@
                &&& match p.transport {
                    ExporterTransport::Grpc { ca_certificate, authorization } => {
                        &&& protocol == ExportProtocol::Grpc
                        &&& opt_text(ca_certificate) == custom_ca(config.ca_certificate)
                        &&& opt_text(authorization) == opt_text(config.authorization)
                    },
                    ExporterTransport::Http { headers } => {
                        &&& protocol == ExportProtocol::Http
                        &&& header_views(headers@) == match config.authorization {
                            Some(a) => seq![(AUTHORIZATION_HEADER@, a@)],
                            None => Seq::empty(),
                        }
                    },
                }
            }
        },
    }
}

/// Whether a configuration gives an exporter: its protocol is supported and,
/// over gRPC, its authorization (if any) can be a metadata value.
pub open spec fn select_protocol_accepts(config: ExporterConfig) -> bool {
    match protocol_spec(config.protocol@) {
        None => false,
        Some(ExportProtocol::Grpc) => match config.authorization {
            Some(a) => header_value_bytes(vstd::utf8::encode_utf8(a@)),
            None => true,
        },
        Some(ExportProtocol::Http) => true,
    }
}

/// An exporter built from a configuration sends to the configured endpoint,
/// within the configured timeout, under the configured service name (never
/// the framework's name in its place), over the configured protocol. Over
/// gRPC it passes on the authorization unchanged and the CA certificate path
/// unless that path is empty; over HTTP it sends exactly the configured
/// authorization as the `Authorization` header.
pub proof fn law_exporter_plan_follows_config(config: ExporterConfig, plan: Result<ExporterPlan, PlanRefusal>)
    requires
        exporter_plan_spec(config, plan),
    ensures
        plan matches Ok(p) ==> {
            &&& p.endpoint@ == config.endpoint@
            &&& p.service_name@ == config.service_name@
            &&& p.timeout_ms == config.timeout_ms as u64
            &&& (p.transport is Grpc <==> protocol_spec(config.protocol@) == Some(ExportProtocol::Grpc))
            &&& (p.transport is Http <==> protocol_spec(config.protocol@) == Some(ExportProtocol::Http))
        },
        plan matches Ok(p) ==> (p.transport matches ExporterTransport::Grpc { ca_certificate, authorization } ==> {
            &&& opt_text(authorization) == opt_text(config.authorization)
            &&& (config.ca_certificate matches Some(ca) ==> (ca@.len() > 0 ==> opt_text(ca_certificate) == Some(ca@)))
            &&& (config.ca_certificate matches Some(ca) ==> (ca@.len() == 0 ==> ca_certificate is None))
            &&& (config.ca_certificate is None ==> ca_certificate is None)
        }),
        plan matches Ok(p) ==> (p.transport matches ExporterTransport::Http { headers } ==> {
            &&& config.authorization is None ==> headers@.len() == 0
            &&& config.authorization matches Some(a) ==> headers@.len() == 1
                && headers@[0].0@ == AUTHORIZATION_HEADER@ && headers@[0].1@ == a@
        }),
        plan is Ok <==> select_protocol_accepts(config),
        protocol_spec(config.protocol@) is None ==> plan == Err::<ExporterPlan, PlanRefusal>(PlanRefusal::UnsupportedProtocol),
{
    match plan {
        Ok(p) => {
            match p.transport {
                ExporterTransport::Http { headers } => {
                    assert(header_views(headers@).len() == headers@.len());
                    if headers@.len() == 1 {
                        assert(header_views(headers@)[0] == (headers@[0].0@, headers@[0].1@));
                    }
                },
                _ => {},
            }
        },
        Err(_) => {},
    }
}

/// Decides the exporter that the configuration asks for: gRPC or HTTP as the
/// protocol setting says (case-insensitively), with the endpoint, timeout and
/// service name of the configuration. Over gRPC the authorization becomes a
/// metadata entry and the CA certificate path is passed on, unless it is
/// empty (no custom CA); over HTTP the
/// authorization becomes the `Authorization` header.
pub fn build_exporter_plan(config: ExporterConfig) -> (r: Result<ExporterPlan, PlanRefusal>)
    ensures
        exporter_plan_spec(config, r),
        r matches Ok(p) ==> {
            &&& p.endpoint@ == config.endpoint@
            &&& p.service_name@ == config.service_name@
            &&& p.timeout_ms == config.timeout_ms as u64
        },
        r is Ok <==> select_protocol_accepts(config),
{
    let ghost original = config;
    let protocol = match select_protocol(config.protocol.as_str()) {
        Some(p) => p,
        None => return Err(PlanRefusal::UnsupportedProtocol),
    };
    let timeout_ms = config.timeout_ms as u64;
    let transport = match protocol {
        ExportProtocol::Grpc => {
            match &config.authorization {
                Some(a) => {
                    if !is_ascii_metadata_value(a.as_str()) {
                        return Err(PlanRefusal::InvalidAuthorization);
                    }
                },
                None => {},
            }
            let ca_certificate = match config.ca_certificate {
                Some(path) => if path.as_str().is_empty() {
                    None
                } else {
                    Some(path)
                },
                None => None,
            };
            ExporterTransport::Grpc { ca_certificate, authorization: config.authorization }
        },
        ExportProtocol::Http => {
            let mut headers: Vec<(String, String)> = Vec::new();
            match config.authorization {
                Some(a) => {
                    headers.push((String::from_str(AUTHORIZATION_HEADER), a));
                },
                None => {},
            }
            proof {
                assert(header_views(headers@) =~= match original.authorization {
                    Some(a) => seq![(AUTHORIZATION_HEADER@, a@)],
                    None => Seq::empty(),
                });
            }
            ExporterTransport::Http { headers }
        },
    };
    Ok(ExporterPlan {
        transport,
        endpoint: config.endpoint,
        timeout_ms,
        service_name: config.service_name,
    })
}

/// What a reload of the configuration leaves as the exporter: the newly
/// built one, or the current one when none could be built. The flag tells
/// whether the exporter was replaced.
pub fn after_reload<E>(current: Option<E>, reloaded: Option<E>) -> (r: (Option<E>, bool))
    ensures
        reloaded is Some ==> r.0 == reloaded && r.1,
        reloaded is None ==> r.0 == current && !r.1,
{
    match reloaded {
        Some(e) => (Some(e), true),
        None => (current, false),
    }
}

/// What becomes of the queued spans at a wake-up of the worker.
#[derive(Clone, Copy, Debug, PartialEq, Eq, Structural)]
pub enum QueueDisposal {
    /// They are taken out of the queue and exported.
    Export,
    /// They are taken out of the queue and dropped, so that it does not stay full.
    Discard,
}

/// The queued spans are exported when there is an exporter, and dropped
/// otherwise.
pub fn queue_disposal(has_exporter: bool) -> (r: QueueDisposal)
    ensures
        r == (if has_exporter { QueueDisposal::Export } else { QueueDisposal::Discard }),
{
    if has_exporter {
        QueueDisposal::Export
    } else {
        QueueDisposal::Discard
    }
}

} // verus!
