//! Tracing and OpenTelemetry configuration.
use crate::debug::{
    bool_field, field, field_models, number_field, optional_quoted, quote, quote_optional, quoted, struct_text,
    text_field, write_struct, DebugField, FieldModel,
};
use crate::error::{Error, Result};
use crate::text::{
    ascii_lowered, bool_text, characters, copy_optional, decimal_text, find, first_of, is_word, optional_text, parts_of,
    ranges_fit, split, split_ranges, texts, trim, trimmed,
};
use crate::text_map::TextMap;
use crate::types::{SDK_NAME, SDK_VERSION};
use std::path::PathBuf;
use vstd::prelude::*;
use vstd::string::{StrSliceExecFns, StringExecFns};

verus! {

/// The texts of a map by key.
pub type TextsByKey = Map<Seq<char>, Seq<char>>;

/// What a map of texts stands for.
pub open spec fn texts_by_key(map: TextMap<String>) -> TextsByKey {
    map@.map_values(|text: String| text@)
}

/// A copy of a map of texts.
fn copy_map(map: &TextMap<String>) -> (copy: TextMap<String>)
    ensures
        texts_by_key(copy) == texts_by_key(*map),
        copy.keys() == map.keys(),
{
    let copy = map.clone();
    assert(texts_by_key(copy) =~= texts_by_key(*map));
    copy
}

/// A copy of a map of maps of texts.
fn copy_tracestate(map: &TextMap<TextMap<String>>) -> (copy: TextMap<TextMap<String>>)
    ensures
        copy@.map_values(|fields: TextMap<String>| texts_by_key(fields)) == map@.map_values(
            |fields: TextMap<String>| texts_by_key(fields),
        ),
        copy.keys() == map.keys(),
{
    let copy = map.clone();
    proof {
        assert forall|key: Seq<char>| #[trigger] copy@.contains_key(key) implies texts_by_key(copy@[key])
            == texts_by_key(map@[key]) by {
            assert(cloned::<TextMap<String>>(map@[key], copy@[key]));
            assert(texts_by_key(copy@[key]) =~= texts_by_key(map@[key]));
        }
        assert(copy@.map_values(|fields: TextMap<String>| texts_by_key(fields)) =~= map@.map_values(
            |fields: TextMap<String>| texts_by_key(fields),
        ));
    }
    copy
}

/// Stores a text in a map.
fn put(map: &mut TextMap<String>, key: String, text: String)
    ensures
        texts_by_key(*final(map)) == texts_by_key(*old(map)).insert(key@, text@),
{
    let _ = map.insert(key, text);
    assert(texts_by_key(*map) =~= texts_by_key(*old(map)).insert(key@, text@));
}

/// How OTLP over HTTP is encoded.
#[derive(Clone, Copy, PartialEq, Eq, Structural, Debug)]
pub enum OtelHttpProtocol {
    Binary,
    Json,
}

/// TLS settings of an exporter, carried as JSON text.
pub struct OtelTlsConfig {
    pub extra: String,
}

impl Clone for OtelTlsConfig {
    fn clone(&self) -> (copy: Self)
        ensures
            copy == *self,
    {
        OtelTlsConfig { extra: self.extra.clone() }
    }
}

/// Where telemetry goes.
pub enum OtelExporter {
    Disabled,
    Statsig,
    OtlpGrpc { endpoint: String, headers: TextMap<String>, tls: Option<OtelTlsConfig> },
    OtlpHttp {
        endpoint: String,
        headers: TextMap<String>,
        protocol: OtelHttpProtocol,
        tls: Option<OtelTlsConfig>,
    },
}

/// What an [`OtelExporter`] stands for.
pub enum ExporterModel {
    Disabled,
    Statsig,
    OtlpGrpc { endpoint: Seq<char>, headers: TextsByKey, tls: Option<OtelTlsConfig> },
    OtlpHttp {
        endpoint: Seq<char>,
        headers: TextsByKey,
        protocol: OtelHttpProtocol,
        tls: Option<OtelTlsConfig>,
    },
}

impl View for OtelExporter {
    type V = ExporterModel;

    open spec fn view(&self) -> ExporterModel {
        match *self {
            OtelExporter::Disabled => ExporterModel::Disabled,
            OtelExporter::Statsig => ExporterModel::Statsig,
            OtelExporter::OtlpGrpc { endpoint, headers, tls } => ExporterModel::OtlpGrpc {
                endpoint: endpoint@,
                headers: texts_by_key(headers),
                tls,
            },
            OtelExporter::OtlpHttp { endpoint, headers, protocol, tls } => ExporterModel::OtlpHttp {
                endpoint: endpoint@,
                headers: texts_by_key(headers),
                protocol,
                tls,
            },
        }
    }
}

impl Clone for OtelExporter {
    fn clone(&self) -> (copy: Self)
        ensures
            copy@ == self@,
    {
        match self {
            OtelExporter::Disabled => OtelExporter::Disabled,
            OtelExporter::Statsig => OtelExporter::Statsig,
            OtelExporter::OtlpGrpc { endpoint, headers, tls } => {
                let tls = match tls {
                    Some(tls) => Some(tls.clone()),
                    None => None,
                };
                OtelExporter::OtlpGrpc { endpoint: endpoint.clone(), headers: copy_map(headers), tls }
            },
            OtelExporter::OtlpHttp { endpoint, headers, protocol, tls } => {
                let tls = match tls {
                    Some(tls) => Some(tls.clone()),
                    None => None,
                };
                OtelExporter::OtlpHttp {
                    endpoint: endpoint.clone(),
                    headers: copy_map(headers),
                    protocol: *protocol,
                    tls,
                }
            },
        }
    }
}

/// The name of an exporter's kind, which tells neither endpoint nor headers.
pub open spec fn kind_name(exporter: ExporterModel) -> Seq<char> {
    match exporter {
        ExporterModel::Disabled => "none"@,
        ExporterModel::Statsig => "statsig"@,
        ExporterModel::OtlpGrpc { .. } => "otlp_grpc"@,
        ExporterModel::OtlpHttp { .. } => "otlp_http"@,
    }
}

/// The name of an exporter's kind.
pub fn exporter_kind(exporter: &OtelExporter) -> (kind: &'static str)
    ensures
        kind@ == kind_name(exporter@),
{
    match exporter {
        OtelExporter::Disabled => "none",
        OtelExporter::Statsig => "statsig",
        OtelExporter::OtlpGrpc { .. } => "otlp_grpc",
        OtelExporter::OtlpHttp { .. } => "otlp_http",
    }
}

/// OpenTelemetry settings.
pub struct OtelSettings {
    pub environment: String,
    pub service_name: String,
    pub service_version: String,
    pub codex_home: PathBuf,
    /// Where logs go.
    pub exporter: OtelExporter,
    pub trace_exporter: OtelExporter,
    pub metrics_exporter: OtelExporter,
    pub runtime_metrics: bool,
    pub span_attributes: TextMap<String>,
    pub tracestate: TextMap<TextMap<String>>,
}

/// What [`OtelSettings`] stand for.
#[verifier::ext_equal]
pub struct SettingsModel {
    pub environment: Seq<char>,
    pub service_name: Seq<char>,
    pub service_version: Seq<char>,
    pub codex_home: PathBuf,
    pub exporter: ExporterModel,
    pub trace_exporter: ExporterModel,
    pub metrics_exporter: ExporterModel,
    pub runtime_metrics: bool,
    pub span_attributes: TextsByKey,
    pub tracestate: Map<Seq<char>, TextsByKey>,
}

impl View for OtelSettings {
    type V = SettingsModel;

    open spec fn view(&self) -> SettingsModel {
        SettingsModel {
            environment: self.environment@,
            service_name: self.service_name@,
            service_version: self.service_version@,
            codex_home: self.codex_home,
            exporter: self.exporter@,
            trace_exporter: self.trace_exporter@,
            metrics_exporter: self.metrics_exporter@,
            runtime_metrics: self.runtime_metrics,
            span_attributes: texts_by_key(self.span_attributes),
            tracestate: self.tracestate@.map_values(|fields: TextMap<String>| texts_by_key(fields)),
        }
    }
}

impl Clone for OtelSettings {
    fn clone(&self) -> (copy: Self)
        ensures
            copy@ == self@,
            copy.span_attributes.keys() == self.span_attributes.keys(),
            copy.tracestate.keys() == self.tracestate.keys(),
    {
        let copy = OtelSettings {
            environment: self.environment.clone(),
            service_name: self.service_name.clone(),
            service_version: self.service_version.clone(),
            codex_home: self.codex_home.clone(),
            exporter: self.exporter.clone(),
            trace_exporter: self.trace_exporter.clone(),
            metrics_exporter: self.metrics_exporter.clone(),
            runtime_metrics: self.runtime_metrics,
            span_attributes: copy_map(&self.span_attributes),
            tracestate: copy_tracestate(&self.tracestate),
        };
        assert(copy@ =~= self@);
        copy
    }
}

/// What kind of telemetry.
#[derive(Clone, Copy, PartialEq, Eq, Structural, Debug)]
pub enum Signal {
    Logs,
    Traces,
    Metrics,
}

impl Signal {
    /// The variable that sets the endpoint.
    pub open spec fn endpoint_variable(self) -> Seq<char> {
        match self {
            Signal::Logs => "OTEL_EXPORTER_OTLP_LOGS_ENDPOINT"@,
            Signal::Traces => "OTEL_EXPORTER_OTLP_TRACES_ENDPOINT"@,
            Signal::Metrics => "OTEL_EXPORTER_OTLP_METRICS_ENDPOINT"@,
        }
    }

    /// The variable that sets the endpoint.
    pub fn endpoint_key(self) -> (key: &'static str)
        ensures
            key@ == self.endpoint_variable(),
    {
        match self {
            Signal::Logs => "OTEL_EXPORTER_OTLP_LOGS_ENDPOINT",
            Signal::Traces => "OTEL_EXPORTER_OTLP_TRACES_ENDPOINT",
            Signal::Metrics => "OTEL_EXPORTER_OTLP_METRICS_ENDPOINT",
        }
    }

    /// The variable that sets the protocol.
    pub open spec fn protocol_variable(self) -> Seq<char> {
        match self {
            Signal::Logs => "OTEL_EXPORTER_OTLP_LOGS_PROTOCOL"@,
            Signal::Traces => "OTEL_EXPORTER_OTLP_TRACES_PROTOCOL"@,
            Signal::Metrics => "OTEL_EXPORTER_OTLP_METRICS_PROTOCOL"@,
        }
    }

    /// The variable that sets the protocol.
    pub fn protocol_key(self) -> (key: &'static str)
        ensures
            key@ == self.protocol_variable(),
    {
        match self {
            Signal::Logs => "OTEL_EXPORTER_OTLP_LOGS_PROTOCOL",
            Signal::Traces => "OTEL_EXPORTER_OTLP_TRACES_PROTOCOL",
            Signal::Metrics => "OTEL_EXPORTER_OTLP_METRICS_PROTOCOL",
        }
    }

    /// The variable that sets the headers.
    pub open spec fn headers_variable(self) -> Seq<char> {
        match self {
            Signal::Logs => "OTEL_EXPORTER_OTLP_LOGS_HEADERS"@,
            Signal::Traces => "OTEL_EXPORTER_OTLP_TRACES_HEADERS"@,
            Signal::Metrics => "OTEL_EXPORTER_OTLP_METRICS_HEADERS"@,
        }
    }

    /// The variable that sets the headers.
    pub fn headers_key(self) -> (key: &'static str)
        ensures
            key@ == self.headers_variable(),
    {
        match self {
            Signal::Logs => "OTEL_EXPORTER_OTLP_LOGS_HEADERS",
            Signal::Traces => "OTEL_EXPORTER_OTLP_TRACES_HEADERS",
            Signal::Metrics => "OTEL_EXPORTER_OTLP_METRICS_HEADERS",
        }
    }
}

/// Whether a value counts as not set.
pub open spec fn is_blank(value: Seq<char>) -> bool {
    trimmed(value).len() == 0
}

fn blank(value: &str) -> (blank: bool)
    ensures
        blank == is_blank(value@),
{
    let list = characters(value);
    let (start, end) = trim(&list, 0, list.len());
    assert(list@.subrange(0, list@.len() as int) =~= value@);
    start == end
}

/// The first of `values` that is not blank.
pub open spec fn first_set(values: Seq<Seq<char>>) -> Option<Seq<char>>
    decreases values.len(),
{
    if values.len() == 0 {
        None
    } else if !is_blank(values[0]) {
        Some(values[0])
    } else {
        first_set(values.drop_first())
    }
}

/// The first of `values` that is not blank.
pub fn first_non_empty(values: Vec<String>) -> (found: Option<String>)
    ensures
        optional_text(found) == first_set(texts(values@)),
{
    let mut rest = values;
    let ghost all = texts(values@);
    while rest.len() > 0
        invariant
            all == texts(values@),
            first_set(texts(rest@)) == first_set(all),
        decreases rest@.len(),
    {
        let ghost before = texts(rest@);
        let value = rest.remove(0);
        assert(value@ == before[0]);
        assert(texts(rest@) =~= before.drop_first());
        if !blank(value.as_str()) {
            return Some(value);
        }
    }
    None
}

/// The values of those of `keys` that `env` has, in order.
pub open spec fn values_of(env: TextsByKey, keys: Seq<Seq<char>>) -> Seq<Seq<char>>
    decreases keys.len(),
{
    if keys.len() == 0 {
        Seq::empty()
    } else {
        let front = values_of(env, keys.drop_last());
        if env.contains_key(keys.last()) {
            front.push(env[keys.last()])
        } else {
            front
        }
    }
}

/// The value of the first of `keys` that `env` sets to something.
pub open spec fn env_value(env: TextsByKey, keys: Seq<Seq<char>>) -> Option<Seq<char>> {
    first_set(values_of(env, keys))
}

/// The characters of each of several texts.
pub open spec fn key_texts(keys: Seq<&'static str>) -> Seq<Seq<char>> {
    keys.map_values(|key: &'static str| key@)
}

/// The value of the first of `keys` that the environment `env` sets to
/// something.
pub fn first_env(env: &TextMap<String>, keys: &Vec<&'static str>) -> (value: Option<String>)
    ensures
        optional_text(value) == env_value(texts_by_key(*env), key_texts(keys@)),
{
    let mut values: Vec<String> = Vec::new();
    let ghost model = texts_by_key(*env);
    let ghost names = key_texts(keys@);
    let mut i: usize = 0;
    assert(names.take(0) =~= Seq::<Seq<char>>::empty());
    assert(texts(values@) =~= values_of(model, names.take(0)));
    while i < keys.len()
        invariant
            i <= keys@.len(),
            model == texts_by_key(*env),
            names == key_texts(keys@),
            texts(values@) == values_of(model, names.take(i as int)),
        decreases keys@.len() - i,
    {
        proof {
            assert(names.take(i + 1).drop_last() =~= names.take(i as int));
            assert(names.take(i + 1).last() == names[i as int]);
        }
        let ghost before = texts(values@);
        if let Some(value) = env.get(keys[i]) {
            values.push(value.clone());
            assert(texts(values@) =~= before.push(value@));
        }
        i += 1;
    }
    assert(names.take(i as int) =~= names);
    first_non_empty(values)
}

/// What a truth value in the environment says.
pub open spec fn truth_of(value: Seq<char>) -> Option<bool> {
    let word = ascii_lowered(trimmed(value));
    if word == "1"@ || word == "true"@ || word == "yes"@ || word == "on"@ {
        Some(true)
    } else if word == "0"@ || word == "false"@ || word == "no"@ || word == "off"@ {
        Some(false)
    } else {
        None
    }
}

/// What the variable `key` says, where it is a truth value.
pub open spec fn env_truth(env: TextsByKey, key: Seq<char>) -> Option<bool> {
    if env.contains_key(key) {
        truth_of(env[key])
    } else {
        None
    }
}

/// What the variable `key` says, where it is a truth value.
pub fn env_bool(env: &TextMap<String>, key: &str) -> (value: Option<bool>)
    ensures
        value == env_truth(texts_by_key(*env), key@),
{
    match env.get(key) {
        Some(text) => {
            let list = characters(text.as_str());
            let (start, end) = trim(&list, 0, list.len());
            assert(list@.subrange(0, list@.len() as int) =~= text@);
            if is_word(&list, start, end, "1") || is_word(&list, start, end, "true") || is_word(
                &list,
                start,
                end,
                "yes",
            ) || is_word(&list, start, end, "on") {
                Some(true)
            } else if is_word(&list, start, end, "0") || is_word(&list, start, end, "false") || is_word(
                &list,
                start,
                end,
                "no",
            ) || is_word(&list, start, end, "off") {
                Some(false)
            } else {
                None
            }
        },
        None => None,
    }
}

/// A key and its value.
pub struct Pair {
    pub key: Seq<char>,
    pub value: Seq<char>,
}

/// What one part of a list of settings says.
pub enum PartModel {
    /// Nothing.
    Blank,
    /// Something without an equals sign.
    Malformed(Seq<char>),
    /// A setting.
    Entry(Pair),
}

/// What one part of a list of settings says.
pub open spec fn read_part(part: Seq<char>) -> PartModel {
    let text = trimmed(part);
    let at = first_of(text, '=');
    if text.len() == 0 {
        PartModel::Blank
    } else if at == text.len() {
        PartModel::Malformed(text)
    } else {
        PartModel::Entry(Pair { key: trimmed(text.take(at)), value: trimmed(text.skip(at + 1)) })
    }
}

/// What the parts of a list of settings say: the settings in order, or the
/// first part that is none.
pub open spec fn read_parts(parts: Seq<Seq<char>>) -> std::result::Result<Seq<Pair>, Seq<char>>
    decreases parts.len(),
{
    if parts.len() == 0 {
        Ok(Seq::empty())
    } else {
        match read_parts(parts.drop_last()) {
            Err(text) => Err(text),
            Ok(pairs) => match read_part(parts.last()) {
                PartModel::Blank => Ok(pairs),
                PartModel::Malformed(text) => Err(text),
                PartModel::Entry(pair) => Ok(pairs.push(pair)),
            },
        }
    }
}

/// What a comma-separated list of settings says: the settings in order, or the
/// first part that is none.
pub open spec fn read_list(input: Seq<char>) -> std::result::Result<Seq<Pair>, Seq<char>> {
    read_parts(split(input, ','))
}

/// A part that is no setting makes the whole list none.
proof fn lemma_malformed_part_stays(parts: Seq<Seq<char>>, count: int)
    requires
        0 <= count <= parts.len(),
        read_parts(parts.take(count)) is Err,
    ensures
        read_parts(parts) == read_parts(parts.take(count)),
    decreases parts.len() - count,
{
    if count < parts.len() {
        assert(parts.take(count + 1).drop_last() =~= parts.take(count));
        lemma_malformed_part_stays(parts, count + 1);
    } else {
        assert(parts.take(count) =~= parts);
    }
}

/// What settings stand for.
pub open spec fn pairs_model(pairs: Seq<(String, String)>) -> Seq<Pair> {
    pairs.map_values(|pair: (String, String)| Pair { key: pair.0@, value: pair.1@ })
}

/// What is wrong with a part that is no setting.
pub open spec fn malformed_text(part: Seq<char>) -> Seq<char> {
    "expected key=value entry in comma-separated list: "@ + quoted(part)
}

/// Reads a comma-separated list of `key=value` settings.
pub fn parse_key_value_list(input: &str) -> (pairs: Result<Vec<(String, String)>>)
    ensures
        match read_list(input@) {
            Ok(read) => pairs matches Ok(pairs) && pairs_model(pairs@) == read,
            Err(part) => pairs matches Err(Error::Observability { source }) && source@ == malformed_text(part),
        },
{
    let list = characters(input);
    let ranges = split_ranges(&list, ',');
    let ghost parts = split(input@, ',');
    let mut pairs: Vec<(String, String)> = Vec::new();
    let mut i: usize = 0;
    assert(parts.take(0) =~= Seq::<Seq<char>>::empty());
    assert(pairs_model(pairs@) =~= Seq::<Pair>::empty());
    while i < ranges.len()
        invariant
            i <= ranges@.len(),
            list@ == input@,
            ranges_fit(ranges@, list@.len()),
            parts == split(input@, ','),
            parts == parts_of(list@, ranges@),
            read_parts(parts.take(i as int)) == Ok::<Seq<Pair>, Seq<char>>(pairs_model(pairs@)),
        decreases ranges@.len() - i,
    {
        let ghost part = parts[i as int];
        let ghost before = pairs_model(pairs@);
        proof {
            assert(parts.take(i + 1).drop_last() =~= parts.take(i as int));
            assert(parts.take(i + 1).last() == part);
            assert(ranges@[i as int].0 <= ranges@[i as int].1 <= list@.len());
        }
        let (from, to) = ranges[i];
        let (start, end) = trim(&list, from, to);
        let ghost text = list@.subrange(start as int, end as int);
        if start < end {
            let at = find(&list, start, end, '=');
            if at == end {
                let part_text = input.substring_char(start, end);
                proof {
                    assert(part_text@ =~= text);
                    assert(read_parts(parts.take(i + 1)) == Err::<Seq<Pair>, Seq<char>>(text));
                    lemma_malformed_part_stays(parts, i + 1);
                }
                let source = "expected key=value entry in comma-separated list: ".to_owned().concat(
                    quote(part_text).as_str(),
                );
                return Err(Error::Observability { source });
            }
            let (key_start, key_end) = trim(&list, start, at);
            let (value_start, value_end) = trim(&list, at + 1, end);
            let key = input.substring_char(key_start, key_end).to_owned();
            let value = input.substring_char(value_start, value_end).to_owned();
            proof {
                assert(list@.subrange(start as int, at as int) =~= text.take(at - start));
                assert(list@.subrange(at + 1, end as int) =~= text.skip(at - start + 1));
            }
            pairs.push((key, value));
            assert(pairs_model(pairs@) =~= before.push(Pair { key: key@, value: value@ }));
        }
        i += 1;
    }
    assert(parts.take(i as int) =~= parts);
    Ok(pairs)
}

/// `map` after all of `pairs` were stored in it, the last ones last.
pub open spec fn stored_all(map: TextsByKey, pairs: Seq<Pair>) -> TextsByKey
    decreases pairs.len(),
{
    if pairs.len() == 0 {
        map
    } else {
        stored_all(map, pairs.drop_last()).insert(pairs.last().key, pairs.last().value)
    }
}

/// The headers that one variable sets.
pub open spec fn headers_from(env: TextsByKey, key: Seq<char>) -> std::result::Result<Seq<Pair>, Seq<char>> {
    match env_value(env, seq![key]) {
        Some(value) => read_list(value),
        None => Ok(Seq::empty()),
    }
}

/// The headers of a signal: those of all signals, and over them its own.
pub open spec fn headers_of(env: TextsByKey, signal: Signal) -> std::result::Result<TextsByKey, Seq<char>> {
    match headers_from(env, "OTEL_EXPORTER_OTLP_HEADERS"@) {
        Err(part) => Err(part),
        Ok(common) => match headers_from(env, signal.headers_variable()) {
            Err(part) => Err(part),
            Ok(own) => Ok(stored_all(stored_all(Map::empty(), common), own)),
        },
    }
}

/// Stores the headers that one variable sets.
fn add_headers(env: &TextMap<String>, key: &'static str, headers: &mut TextMap<String>) -> (added: Result<()>)
    ensures
        match headers_from(texts_by_key(*env), key@) {
            Ok(pairs) => added is Ok && texts_by_key(*final(headers)) == stored_all(texts_by_key(*old(headers)), pairs),
            Err(part) => added matches Err(Error::Observability { source }) && source@ == malformed_text(part),
        },
{
    let keys: Vec<&'static str> = vec![key];
    assert(key_texts(keys@) =~= seq![key@]);
    match first_env(env, &keys) {
        Some(value) => match parse_key_value_list(value.as_str()) {
            Ok(pairs) => {
                let ghost read = pairs_model(pairs@);
                let mut rest = pairs;
                let ghost mut i: int = 0;
                assert(read.take(0) =~= Seq::<Pair>::empty());
                while rest.len() > 0
                    invariant
                        0 <= i <= read.len(),
                        pairs_model(rest@) == read.skip(i),
                        texts_by_key(*headers) == stored_all(texts_by_key(*old(headers)), read.take(i)),
                    decreases rest@.len(),
                {
                    let ghost left = pairs_model(rest@);
                    let (header, header_value) = rest.remove(0);
                    proof {
                        assert(left == read.skip(i) && left.len() > 0);
                        assert(left[0] == read[i]);
                        assert(pairs_model(rest@) =~= left.drop_first());
                        assert(read.skip(i).drop_first() =~= read.skip(i + 1));
                        assert(read.take(i + 1).drop_last() =~= read.take(i));
                        assert(read.take(i + 1).last() == read[i]);
                    }
                    put(headers, header, header_value);
                    proof {
                        i = i + 1;
                    }
                }
                assert(read.take(i) =~= read);
                Ok(())
            },
            Err(error) => Err(error),
        },
        None => Ok(()),
    }
}

/// The headers of a signal: those of all signals, and over them its own.
pub fn merged_headers(env: &TextMap<String>, signal: Signal) -> (headers: Result<TextMap<String>>)
    ensures
        match headers_of(texts_by_key(*env), signal) {
            Ok(merged) => headers matches Ok(headers) && texts_by_key(headers) == merged,
            Err(part) => headers matches Err(Error::Observability { source }) && source@ == malformed_text(part),
        },
{
    let mut headers: TextMap<String> = TextMap::new();
    assert(texts_by_key(headers) =~= Map::<Seq<char>, Seq<char>>::empty());
    match add_headers(env, "OTEL_EXPORTER_OTLP_HEADERS", &mut headers) {
        Ok(()) => {},
        Err(error) => return Err(error),
    }
    match add_headers(env, signal.headers_key(), &mut headers) {
        Ok(()) => Ok(headers),
        Err(error) => Err(error),
    }
}

/// The exporter that the environment sets for a signal, or what is wrong with
/// it.
pub open spec fn exporter_of(env: TextsByKey, signal: Signal) -> std::result::Result<ExporterModel, Seq<char>> {
    match env_value(env, seq![signal.endpoint_variable(), "OTEL_EXPORTER_OTLP_ENDPOINT"@]) {
        None => Ok(ExporterModel::Disabled),
        Some(endpoint) => {
            let protocol = match env_value(env, seq![signal.protocol_variable(), "OTEL_EXPORTER_OTLP_PROTOCOL"@]) {
                Some(protocol) => protocol,
                None => "http/protobuf"@,
            };
            match headers_of(env, signal) {
                Err(part) => Err(malformed_text(part)),
                Ok(headers) => if protocol == "grpc"@ {
                    Ok(ExporterModel::OtlpGrpc { endpoint, headers, tls: None })
                } else if protocol == "http/protobuf"@ || protocol == "http"@ {
                    Ok(ExporterModel::OtlpHttp { endpoint, headers, protocol: OtelHttpProtocol::Binary, tls: None })
                } else if protocol == "http/json"@ {
                    Ok(ExporterModel::OtlpHttp { endpoint, headers, protocol: OtelHttpProtocol::Json, tls: None })
                } else {
                    Err("unsupported OTEL protocol "@ + quoted(protocol))
                },
            }
        },
    }
}

/// Whether two texts are the same.
fn is_text(text: &String, other: &str) -> (same: bool)
    ensures
        same == (text@ == other@),
{
    *text == other.to_owned()
}

/// The exporter that the environment sets for a signal.
pub fn exporter_from_env(env: &TextMap<String>, signal: Signal) -> (exporter: Result<OtelExporter>)
    ensures
        match exporter_of(texts_by_key(*env), signal) {
            Ok(model) => exporter matches Ok(exporter) && exporter@ == model,
            Err(text) => exporter matches Err(Error::Observability { source }) && source@ == text,
        },
{
    let endpoint_keys: Vec<&'static str> = vec![signal.endpoint_key(), "OTEL_EXPORTER_OTLP_ENDPOINT"];
    assert(key_texts(endpoint_keys@) =~= seq![signal.endpoint_variable(), "OTEL_EXPORTER_OTLP_ENDPOINT"@]);
    let endpoint = match first_env(env, &endpoint_keys) {
        Some(endpoint) => endpoint,
        None => return Ok(OtelExporter::Disabled),
    };
    let protocol_keys: Vec<&'static str> = vec![signal.protocol_key(), "OTEL_EXPORTER_OTLP_PROTOCOL"];
    assert(key_texts(protocol_keys@) =~= seq![signal.protocol_variable(), "OTEL_EXPORTER_OTLP_PROTOCOL"@]);
    let protocol = match first_env(env, &protocol_keys) {
        Some(protocol) => protocol,
        None => "http/protobuf".to_owned(),
    };
    let headers = match merged_headers(env, signal) {
        Ok(headers) => headers,
        Err(error) => return Err(error),
    };
    if is_text(&protocol, "grpc") {
        Ok(OtelExporter::OtlpGrpc { endpoint, headers, tls: None })
    } else if is_text(&protocol, "http/protobuf") || is_text(&protocol, "http") {
        Ok(OtelExporter::OtlpHttp { endpoint, headers, protocol: OtelHttpProtocol::Binary, tls: None })
    } else if is_text(&protocol, "http/json") {
        Ok(OtelExporter::OtlpHttp { endpoint, headers, protocol: OtelHttpProtocol::Json, tls: None })
    } else {
        let source = "unsupported OTEL protocol ".to_owned().concat(quote(protocol.as_str()).as_str());
        Err(Error::Observability { source })
    }
}

/// The settings after one resource attribute: some attributes have a setting
/// of their own.
pub open spec fn attributed(settings: SettingsModel, pair: Pair) -> SettingsModel {
    if pair.key == "service.name"@ {
        SettingsModel { service_name: pair.value, ..settings }
    } else if pair.key == "service.version"@ {
        SettingsModel { service_version: pair.value, ..settings }
    } else if pair.key == "deployment.environment"@ || pair.key == "deployment.environment.name"@ {
        SettingsModel { environment: pair.value, ..settings }
    } else {
        SettingsModel { span_attributes: settings.span_attributes.insert(pair.key, pair.value), ..settings }
    }
}

/// The settings after several resource attributes.
pub open spec fn attributed_all(settings: SettingsModel, pairs: Seq<Pair>) -> SettingsModel
    decreases pairs.len(),
{
    if pairs.len() == 0 {
        settings
    } else {
        attributed(attributed_all(settings, pairs.drop_last()), pairs.last())
    }
}

/// Entry point for configuring tracing and OpenTelemetry.
pub struct Observability {}

impl Observability {
    /// A builder with the SDK's defaults. `codex_home` is the working directory
    /// of the process.
    pub fn builder(codex_home: PathBuf) -> (builder: ObservabilityBuilder)
        ensures
            builder@ == BuilderModel::defaults(codex_home),
    {
        ObservabilityBuilder::new(codex_home)
    }

    /// A builder after the environment `env` was applied.
    pub fn from_env(codex_home: PathBuf, env: &TextMap<String>) -> (builder: Result<ObservabilityBuilder>)
        ensures
            env_applied(BuilderModel::defaults(codex_home), builder, texts_by_key(*env)),
    {
        ObservabilityBuilder::new(codex_home).with_env(env)
    }
}

/// Builder for SDK tracing and OpenTelemetry configuration.
pub struct ObservabilityBuilder {
    pub settings: OtelSettings,
    /// Optional tracing env-filter expression.
    pub env_filter: Option<String>,
    /// Whether a global subscriber is registered.
    pub install_subscriber: bool,
    /// Whether a human-readable formatting layer is added.
    pub fmt_layer: bool,
}

/// What an [`ObservabilityBuilder`] stands for.
#[verifier::ext_equal]
pub struct BuilderModel {
    pub settings: SettingsModel,
    pub env_filter: Option<Seq<char>>,
    pub install_subscriber: bool,
    pub fmt_layer: bool,
}

impl View for ObservabilityBuilder {
    type V = BuilderModel;

    open spec fn view(&self) -> BuilderModel {
        BuilderModel {
            settings: self.settings@,
            env_filter: optional_text(self.env_filter),
            install_subscriber: self.install_subscriber,
            fmt_layer: self.fmt_layer,
        }
    }
}

impl Clone for ObservabilityBuilder {
    fn clone(&self) -> (copy: Self)
        ensures
            copy@ == self@,
            copy.settings.span_attributes.keys() == self.settings.span_attributes.keys(),
            copy.settings.tracestate.keys() == self.settings.tracestate.keys(),
    {
        ObservabilityBuilder {
            settings: self.settings.clone(),
            env_filter: copy_optional(&self.env_filter),
            install_subscriber: self.install_subscriber,
            fmt_layer: self.fmt_layer,
        }
    }
}

impl BuilderModel {
    /// Nothing was set.
    pub open spec fn defaults(codex_home: PathBuf) -> Self {
        BuilderModel {
            settings: SettingsModel {
                environment: "development"@,
                service_name: SDK_NAME@,
                service_version: SDK_VERSION@,
                codex_home,
                exporter: ExporterModel::Disabled,
                trace_exporter: ExporterModel::Disabled,
                metrics_exporter: ExporterModel::Disabled,
                runtime_metrics: false,
                span_attributes: Map::empty(),
                tracestate: Map::empty(),
            },
            env_filter: Some("info"@),
            install_subscriber: true,
            fmt_layer: true,
        }
    }

    /// No telemetry leaves the process.
    pub open spec fn disabled(self) -> Self {
        BuilderModel {
            settings: SettingsModel {
                exporter: ExporterModel::Disabled,
                trace_exporter: ExporterModel::Disabled,
                metrics_exporter: ExporterModel::Disabled,
                ..self.settings
            },
            ..self
        }
    }

    /// The builder after the plain variables of `env`.
    pub open spec fn named_by(self, env: TextsByKey) -> Self {
        BuilderModel {
            settings: SettingsModel {
                service_name: value_or(env, seq!["OTEL_SERVICE_NAME"@], self.settings.service_name),
                service_version: value_or(env, seq!["OTEL_SERVICE_VERSION"@], self.settings.service_version),
                environment: value_or(
                    env,
                    seq!["CODEX_SDK_OTEL_ENVIRONMENT"@, "CODEX_ENV"@, "APP_ENV"@],
                    self.settings.environment,
                ),
                runtime_metrics: match env_truth(env, "CODEX_SDK_OTEL_RUNTIME_METRICS"@) {
                    Some(enabled) => enabled,
                    None => self.settings.runtime_metrics,
                },
                ..self.settings
            },
            env_filter: match env_value(env, seq!["RUST_LOG"@, "CODEX_SDK_LOG"@]) {
                Some(filter) => Some(filter),
                None => self.env_filter,
            },
            ..self
        }
    }

    /// The builder after the environment `env`, or what is wrong with that.
    pub open spec fn with_env(self, env: TextsByKey) -> std::result::Result<Self, Seq<char>> {
        if env_truth(env, "OTEL_SDK_DISABLED"@) == Some(true) {
            Ok(self.disabled())
        } else {
            let named = self.named_by(env);
            let attributes = match env_value(env, seq!["OTEL_RESOURCE_ATTRIBUTES"@]) {
                Some(value) => read_list(value),
                None => Ok(Seq::empty()),
            };
            match attributes {
                Err(part) => Err(malformed_text(part)),
                Ok(pairs) => match (
                    exporter_of(env, Signal::Logs),
                    exporter_of(env, Signal::Traces),
                    exporter_of(env, Signal::Metrics),
                ) {
                    (Err(text), _, _) => Err(text),
                    (_, Err(text), _) => Err(text),
                    (_, _, Err(text)) => Err(text),
                    (Ok(exporter), Ok(trace_exporter), Ok(metrics_exporter)) => Ok(
                        BuilderModel {
                            settings: SettingsModel {
                                exporter,
                                trace_exporter,
                                metrics_exporter,
                                ..attributed_all(named.settings, pairs)
                            },
                            ..named
                        },
                    ),
                },
            }
        }
    }

    /// The fields of the debug text.
    pub open spec fn debug_fields(self, attributes: nat, members: nat, env_filter: Option<String>) -> Seq<FieldModel> {
        seq![
            field("environment"@, quoted(self.settings.environment)),
            field("service_name"@, quoted(self.settings.service_name)),
            field("service_version"@, quoted(self.settings.service_version)),
            field("logs_exporter"@, quoted(kind_name(self.settings.exporter))),
            field("traces_exporter"@, quoted(kind_name(self.settings.trace_exporter))),
            field("metrics_exporter"@, quoted(kind_name(self.settings.metrics_exporter))),
            field("runtime_metrics"@, bool_text(self.settings.runtime_metrics)),
            field("span_attribute_count"@, decimal_text(attributes)),
            field("tracestate_count"@, decimal_text(members)),
            field("env_filter"@, optional_quoted(env_filter)),
            field("install_subscriber"@, bool_text(self.install_subscriber)),
            field("fmt_layer"@, bool_text(self.fmt_layer)),
        ]
    }
}

/// The value of the first of `keys` that `env` sets to something, or else
/// `fallback`.
pub open spec fn value_or(env: TextsByKey, keys: Seq<Seq<char>>, fallback: Seq<char>) -> Seq<char> {
    match env_value(env, keys) {
        Some(value) => value,
        None => fallback,
    }
}

/// What applying the environment `env` does.
pub open spec fn env_applied(before: BuilderModel, applied: Result<ObservabilityBuilder>, env: TextsByKey) -> bool {
    match before.with_env(env) {
        Ok(model) => applied matches Ok(builder) && builder@ == model,
        Err(text) => applied matches Err(Error::Observability { source }) && source@ == text,
    }
}

impl ObservabilityBuilder {
    /// A builder with the SDK's defaults.
    pub fn new(codex_home: PathBuf) -> (builder: Self)
        ensures
            builder@ == BuilderModel::defaults(codex_home),
    {
        let span_attributes: TextMap<String> = TextMap::new();
        let tracestate: TextMap<TextMap<String>> = TextMap::new();
        let builder = ObservabilityBuilder {
            settings: OtelSettings {
                environment: "development".to_owned(),
                service_name: SDK_NAME.to_owned(),
                service_version: SDK_VERSION.to_owned(),
                codex_home,
                exporter: OtelExporter::Disabled,
                trace_exporter: OtelExporter::Disabled,
                metrics_exporter: OtelExporter::Disabled,
                runtime_metrics: false,
                span_attributes,
                tracestate,
            },
            env_filter: Some("info".to_owned()),
            install_subscriber: true,
            fmt_layer: true,
        };
        assert(builder@.settings.span_attributes =~= Map::<Seq<char>, Seq<char>>::empty());
        assert(builder@.settings.tracestate =~= Map::<Seq<char>, TextsByKey>::empty());
        builder
    }

    /// Current OpenTelemetry settings.
    pub fn settings(&self) -> (settings: &OtelSettings)
        ensures
            *settings == self.settings,
    {
        &self.settings
    }

    /// Mutable access to the full OpenTelemetry settings.
    pub fn settings_mut(&mut self) -> (settings: &mut OtelSettings)
        ensures
            *settings == old(self).settings,
            *final(self) == (ObservabilityBuilder { settings: *final(settings), ..*old(self) }),
    {
        &mut self.settings
    }

    /// Replaces all OpenTelemetry settings.
    pub fn with_settings(self, settings: OtelSettings) -> (builder: Self)
        ensures
            builder == (ObservabilityBuilder { settings, ..self }),
    {
        ObservabilityBuilder { settings, ..self }
    }

    /// Applies the variables of the environment `env` that the SDK supports.
    pub fn with_env(self, env: &TextMap<String>) -> (applied: Result<Self>)
        ensures
            env_applied(self@, applied, texts_by_key(*env)),
    {
        match env_bool(env, "OTEL_SDK_DISABLED") {
            Some(true) => return Ok(self.disabled()),
            _ => {},
        }
        let mut builder = self.named_from(env);
        match builder.apply_resource_attributes(env) {
            Ok(()) => {},
            Err(error) => return Err(error),
        }
        let exporter = match exporter_from_env(env, Signal::Logs) {
            Ok(exporter) => exporter,
            Err(error) => return Err(error),
        };
        let trace_exporter = match exporter_from_env(env, Signal::Traces) {
            Ok(exporter) => exporter,
            Err(error) => return Err(error),
        };
        let metrics_exporter = match exporter_from_env(env, Signal::Metrics) {
            Ok(exporter) => exporter,
            Err(error) => return Err(error),
        };
        builder.settings.exporter = exporter;
        builder.settings.trace_exporter = trace_exporter;
        builder.settings.metrics_exporter = metrics_exporter;
        Ok(builder)
    }

    /// Applies the plain variables of the environment.
    fn named_from(self, env: &TextMap<String>) -> (builder: Self)
        ensures
            builder@ == self@.named_by(texts_by_key(*env)),
    {
        let name_keys: Vec<&'static str> = vec!["OTEL_SERVICE_NAME"];
        let version_keys: Vec<&'static str> = vec!["OTEL_SERVICE_VERSION"];
        let environment_keys: Vec<&'static str> = vec!["CODEX_SDK_OTEL_ENVIRONMENT", "CODEX_ENV", "APP_ENV"];
        let filter_keys: Vec<&'static str> = vec!["RUST_LOG", "CODEX_SDK_LOG"];
        proof {
            assert(key_texts(name_keys@) =~= seq!["OTEL_SERVICE_NAME"@]);
            assert(key_texts(version_keys@) =~= seq!["OTEL_SERVICE_VERSION"@]);
            assert(key_texts(environment_keys@) =~= seq!["CODEX_SDK_OTEL_ENVIRONMENT"@, "CODEX_ENV"@, "APP_ENV"@]);
            assert(key_texts(filter_keys@) =~= seq!["RUST_LOG"@, "CODEX_SDK_LOG"@]);
        }
        let mut builder = self;
        if let Some(service_name) = first_env(env, &name_keys) {
            builder.settings.service_name = service_name;
        }
        if let Some(service_version) = first_env(env, &version_keys) {
            builder.settings.service_version = service_version;
        }
        if let Some(environment) = first_env(env, &environment_keys) {
            builder.settings.environment = environment;
        }
        if let Some(filter) = first_env(env, &filter_keys) {
            builder.env_filter = Some(filter);
        }
        if let Some(runtime_metrics) = env_bool(env, "CODEX_SDK_OTEL_RUNTIME_METRICS") {
            builder.settings.runtime_metrics = runtime_metrics;
        }
        builder
    }

    /// Applies the resource attributes of the environment.
    fn apply_resource_attributes(&mut self, env: &TextMap<String>) -> (applied: Result<()>)
        ensures
            match (match env_value(texts_by_key(*env), seq!["OTEL_RESOURCE_ATTRIBUTES"@]) {
                Some(value) => read_list(value),
                None => Ok(Seq::empty()),
            }) {
                Ok(pairs) => applied is Ok && final(self)@ == (BuilderModel {
                    settings: attributed_all(old(self)@.settings, pairs),
                    ..old(self)@
                }),
                Err(part) => applied matches Err(Error::Observability { source }) && source@ == malformed_text(part),
            },
    {
        let keys: Vec<&'static str> = vec!["OTEL_RESOURCE_ATTRIBUTES"];
        assert(key_texts(keys@) =~= seq!["OTEL_RESOURCE_ATTRIBUTES"@]);
        let attributes = match first_env(env, &keys) {
            Some(attributes) => attributes,
            None => return Ok(()),
        };
        let mut rest = match parse_key_value_list(attributes.as_str()) {
            Ok(pairs) => pairs,
            Err(error) => return Err(error),
        };
        let ghost read = pairs_model(rest@);
        let ghost mut i: int = 0;
        assert(read.take(0) =~= Seq::<Pair>::empty());
        assert(read.skip(0) =~= read);
        while rest.len() > 0
            invariant
                0 <= i <= read.len(),
                pairs_model(rest@) == read.skip(i),
                self@ == (BuilderModel {
                    settings: attributed_all(old(self)@.settings, read.take(i)),
                    ..old(self)@
                }),
            decreases rest@.len(),
        {
            let ghost left = pairs_model(rest@);
            let ghost before = self@;
            let (key, value) = rest.remove(0);
            proof {
                assert(left == read.skip(i) && left.len() > 0);
                assert(left[0] == read[i]);
                assert(pairs_model(rest@) =~= left.drop_first());
                assert(read.skip(i).drop_first() =~= read.skip(i + 1));
                assert(read.take(i + 1).drop_last() =~= read.take(i));
                assert(read.take(i + 1).last() == read[i]);
            }
            if is_text(&key, "service.name") {
                self.settings.service_name = value;
            } else if is_text(&key, "service.version") {
                self.settings.service_version = value;
            } else if is_text(&key, "deployment.environment") || is_text(&key, "deployment.environment.name") {
                self.settings.environment = value;
            } else {
                put(&mut self.settings.span_attributes, key, value);
            }
            assert(self@ =~= (BuilderModel { settings: attributed(before.settings, read[i]), ..before }));
            proof {
                i = i + 1;
            }
        }
        assert(read.take(i) =~= read);
        Ok(())
    }

    /// Sets the deployment environment attached to telemetry resources.
    pub fn environment(self, environment: String) -> (builder: Self)
        ensures
            builder@ == (BuilderModel { settings: SettingsModel { environment: environment@, ..self@.settings }, ..self@ }),
    {
        let mut builder = self;
        builder.settings.environment = environment;
        builder
    }

    /// Sets the service name attached to telemetry resources.
    pub fn service_name(self, service_name: String) -> (builder: Self)
        ensures
            builder@ == (BuilderModel { settings: SettingsModel { service_name: service_name@, ..self@.settings }, ..self@ }),
    {
        let mut builder = self;
        builder.settings.service_name = service_name;
        builder
    }

    /// Sets the service version attached to telemetry resources.
    pub fn service_version(self, service_version: String) -> (builder: Self)
        ensures
            builder@ == (BuilderModel { settings: SettingsModel { service_version: service_version@, ..self@.settings }, ..self@ }),
    {
        let mut builder = self;
        builder.settings.service_version = service_version;
        builder
    }

    /// Sets the Codex home directory that telemetry settings carry.
    pub fn codex_home(self, codex_home: PathBuf) -> (builder: Self)
        ensures
            builder@ == (BuilderModel { settings: SettingsModel { codex_home: codex_home, ..self@.settings }, ..self@ }),
    {
        let mut builder = self;
        builder.settings.codex_home = codex_home;
        builder
    }

    /// Sets the logs exporter.
    pub fn logs_exporter(self, exporter: OtelExporter) -> (builder: Self)
        ensures
            builder@ == (BuilderModel { settings: SettingsModel { exporter: exporter@, ..self@.settings }, ..self@ }),
    {
        let mut builder = self;
        builder.settings.exporter = exporter;
        builder
    }

    /// Sets the traces exporter.
    pub fn traces_exporter(self, exporter: OtelExporter) -> (builder: Self)
        ensures
            builder@ == (BuilderModel { settings: SettingsModel { trace_exporter: exporter@, ..self@.settings }, ..self@ }),
    {
        let mut builder = self;
        builder.settings.trace_exporter = exporter;
        builder
    }

    /// Sets the metrics exporter.
    pub fn metrics_exporter(self, exporter: OtelExporter) -> (builder: Self)
        ensures
            builder@ == (BuilderModel { settings: SettingsModel { metrics_exporter: exporter@, ..self@.settings }, ..self@ }),
    {
        let mut builder = self;
        builder.settings.metrics_exporter = exporter;
        builder
    }

    /// Uses the same exporter for logs, traces, and metrics.
    pub fn all_exporters(self, exporter: OtelExporter) -> (builder: Self)
        ensures
            builder@ == self@.exporting(exporter@),
    {
        let mut builder = self;
        builder.settings.exporter = exporter.clone();
        builder.settings.trace_exporter = exporter.clone();
        builder.settings.metrics_exporter = exporter;
        builder
    }

    /// Sends logs, traces, and metrics to an OTLP/HTTP endpoint.
    pub fn otlp_http(self, endpoint: String) -> (builder: Self)
        ensures
            builder@ == self@.exporting(
                ExporterModel::OtlpHttp {
                    endpoint: endpoint@,
                    headers: Map::empty(),
                    protocol: OtelHttpProtocol::Binary,
                    tls: None,
                },
            ),
    {
        let headers: TextMap<String> = TextMap::new();
        assert(texts_by_key(headers) =~= Map::<Seq<char>, Seq<char>>::empty());
        self.all_exporters(
            OtelExporter::OtlpHttp { endpoint, headers, protocol: OtelHttpProtocol::Binary, tls: None },
        )
    }

    /// Sends logs, traces, and metrics to an OTLP/gRPC endpoint.
    pub fn otlp_grpc(self, endpoint: String) -> (builder: Self)
        ensures
            builder@ == self@.exporting(
                ExporterModel::OtlpGrpc { endpoint: endpoint@, headers: Map::empty(), tls: None },
            ),
    {
        let headers: TextMap<String> = TextMap::new();
        assert(texts_by_key(headers) =~= Map::<Seq<char>, Seq<char>>::empty());
        self.all_exporters(OtelExporter::OtlpGrpc { endpoint, headers, tls: None })
    }

    /// Disables all telemetry exporters.
    pub fn disabled(self) -> (builder: Self)
        ensures
            builder@ == self@.disabled(),
    {
        let mut builder = self;
        builder.settings.exporter = OtelExporter::Disabled;
        builder.settings.trace_exporter = OtelExporter::Disabled;
        builder.settings.metrics_exporter = OtelExporter::Disabled;
        builder
    }

    /// Enables or disables runtime metrics collection.
    pub fn runtime_metrics(self, enabled: bool) -> (builder: Self)
        ensures
            builder@ == (BuilderModel { settings: SettingsModel { runtime_metrics: enabled, ..self@.settings }, ..self@ }),
    {
        let mut builder = self;
        builder.settings.runtime_metrics = enabled;
        builder
    }

    /// Adds an attribute to all emitted spans.
    pub fn span_attribute(self, key: String, value: String) -> (builder: Self)
        ensures
            builder@ == (BuilderModel {
                settings: SettingsModel {
                    span_attributes: self@.settings.span_attributes.insert(key@, value@),
                    ..self@.settings
                },
                ..self@
            }),
    {
        let mut builder = self;
        put(&mut builder.settings.span_attributes, key, value);
        builder
    }

    /// Adds a tracestate field for distributed trace propagation.
    pub fn tracestate_field(self, member: String, key: String, value: String) -> (builder: Self)
        ensures
            builder@ == (BuilderModel {
                settings: SettingsModel {
                    tracestate: self@.settings.tracestate.insert(
                        member@,
                        self@.settings.fields_of(member@).insert(key@, value@),
                    ),
                    ..self@.settings
                },
                ..self@
            }),
    {
        let mut builder = self;
        let ghost before = builder@.settings.tracestate;
        let mut fields: TextMap<String> = match builder.settings.tracestate.remove(member.as_str()) {
            Some(fields) => fields,
            None => {
                let fields: TextMap<String> = TextMap::new();
                assert(texts_by_key(fields) =~= Map::<Seq<char>, Seq<char>>::empty());
                fields
            },
        };
        put(&mut fields, key, value);
        let ghost changed = texts_by_key(fields);
        let ghost removed = builder@.settings.tracestate;
        let _ = builder.settings.tracestate.insert(member, fields);
        proof {
            assert(removed =~= before.remove(member@));
            assert(builder@.settings.tracestate =~= removed.insert(member@, changed));
            assert(builder@.settings.tracestate =~= before.insert(member@, changed));
        }
        builder
    }

    /// Sets the tracing env-filter expression, such as `info,codex_sdk=debug`.
    pub fn env_filter(self, filter: String) -> (builder: Self)
        ensures
            builder == (ObservabilityBuilder { env_filter: Some(filter), ..self }),
    {
        ObservabilityBuilder { env_filter: Some(filter), ..self }
    }

    /// Disables env-filter installation.
    pub fn no_env_filter(self) -> (builder: Self)
        ensures
            builder == (ObservabilityBuilder { env_filter: None, ..self }),
    {
        ObservabilityBuilder { env_filter: None, ..self }
    }

    /// Chooses whether a global subscriber is installed.
    pub fn install_subscriber(self, install: bool) -> (builder: Self)
        ensures
            builder == (ObservabilityBuilder { install_subscriber: install, ..self }),
    {
        ObservabilityBuilder { install_subscriber: install, ..self }
    }

    /// Enables or disables the human-readable formatting layer.
    pub fn fmt_layer(self, enabled: bool) -> (builder: Self)
        ensures
            builder == (ObservabilityBuilder { fmt_layer: enabled, ..self }),
    {
        ObservabilityBuilder { fmt_layer: enabled, ..self }
    }

    /// The debug text of the builder. Of the exporters it tells the kind, and
    /// of attributes and tracestate how many there are.
    pub fn debug_text(&self) -> (text: String)
        ensures
            text@ == struct_text(
                "ObservabilityBuilder"@,
                self@.debug_fields(
                    self.settings.span_attributes.keys().len(),
                    self.settings.tracestate.keys().len(),
                    self.env_filter,
                ),
                false,
            ),
    {
        let fields: Vec<DebugField> = vec![
            text_field("environment", self.settings.environment.as_str()),
            text_field("service_name", self.settings.service_name.as_str()),
            text_field("service_version", self.settings.service_version.as_str()),
            text_field("logs_exporter", exporter_kind(&self.settings.exporter)),
            text_field("traces_exporter", exporter_kind(&self.settings.trace_exporter)),
            text_field("metrics_exporter", exporter_kind(&self.settings.metrics_exporter)),
            bool_field("runtime_metrics", self.settings.runtime_metrics),
            number_field("span_attribute_count", self.settings.span_attributes.len()),
            number_field("tracestate_count", self.settings.tracestate.len()),
            DebugField { name: "env_filter", value: quote_optional(&self.env_filter) },
            bool_field("install_subscriber", self.install_subscriber),
            bool_field("fmt_layer", self.fmt_layer),
        ];
        assert(field_models(fields@) =~= self@.debug_fields(
            self.settings.span_attributes.keys().len(),
            self.settings.tracestate.keys().len(),
            self.env_filter,
        ));
        write_struct("ObservabilityBuilder", fields, false)
    }
}

impl BuilderModel {
    /// All telemetry goes to `exporter`.
    pub open spec fn exporting(self, exporter: ExporterModel) -> Self {
        BuilderModel {
            settings: SettingsModel {
                exporter,
                trace_exporter: exporter,
                metrics_exporter: exporter,
                ..self.settings
            },
            ..self
        }
    }
}

impl SettingsModel {
    /// The tracestate fields of a member.
    pub open spec fn fields_of(self, member: Seq<char>) -> TextsByKey {
        if self.tracestate.contains_key(member) {
            self.tracestate[member]
        } else {
            Map::empty()
        }
    }
}

/// Owner of the telemetry that was set up: whether there is a provider, and
/// whether it was shut down.
pub struct ObservabilityGuard {
    provider: bool,
    is_shutdown: bool,
}

/// What an [`ObservabilityGuard`] stands for.
pub struct GuardModel {
    pub provider: bool,
    pub is_shutdown: bool,
}

impl View for ObservabilityGuard {
    type V = GuardModel;

    closed spec fn view(&self) -> GuardModel {
        GuardModel { provider: self.provider, is_shutdown: self.is_shutdown }
    }
}

impl ObservabilityGuard {
    /// A guard that was not shut down.
    pub fn new(provider: bool) -> (guard: Self)
        ensures
            guard@ == (GuardModel { provider, is_shutdown: false }),
    {
        ObservabilityGuard { provider, is_shutdown: false }
    }

    /// Whether exporters are enabled.
    pub fn provider(&self) -> (provider: bool)
        ensures
            provider == self@.provider,
    {
        self.provider
    }

    /// Shuts telemetry down. The result says whether the provider has to be
    /// shut down now.
    pub fn shutdown(&mut self) -> (now: bool)
        ensures
            now == (old(self)@.provider && !old(self)@.is_shutdown),
            final(self)@ == (GuardModel { is_shutdown: true, ..old(self)@ }),
    {
        if self.is_shutdown {
            return false;
        }
        self.is_shutdown = true;
        self.provider
    }
}

/// A variable that names a signal wins over the one for all signals, unless it
/// is blank.
pub proof fn law_signal_variables_win(env: TextsByKey, own: Seq<char>, common: Seq<char>)
    ensures
        env_value(env, seq![own, common]) == (if env.contains_key(own) && !is_blank(env[own]) {
            Some(env[own])
        } else if env.contains_key(common) && !is_blank(env[common]) {
            Some(env[common])
        } else {
            None
        }),
{
    let keys = seq![own, common];
    assert(keys.drop_last() =~= seq![own]);
    assert(seq![own].drop_last() =~= Seq::<Seq<char>>::empty());
    reveal_with_fuel(values_of, 3);
    reveal_with_fuel(first_set, 3);
    let values = values_of(env, keys);
    assert(values =~= values_of(env, seq![own]) + if env.contains_key(common) {
        seq![env[common]]
    } else {
        Seq::empty()
    });
    assert(values_of(env, seq![own]) =~= if env.contains_key(own) {
        seq![env[own]]
    } else {
        Seq::empty()
    });
    if values.len() == 2 {
        assert(values.drop_first() =~= seq![env[common]]);
        assert(values.drop_first().drop_first() =~= Seq::<Seq<char>>::empty());
    } else if values.len() == 1 {
        assert(values.drop_first() =~= Seq::<Seq<char>>::empty());
    }
}

/// A header that a signal's own variable sets wins over the same header for all
/// signals, and leaves the other headers as they are.
pub proof fn law_own_headers_win(common: Seq<Pair>, own: Seq<Pair>, key: Seq<char>)
    ensures
        ({
            let shared = stored_all(Map::empty(), common);
            let alone = stored_all(Map::empty(), own);
            let merged = stored_all(shared, own);
            &&& merged.contains_key(key) == (shared.contains_key(key) || alone.contains_key(key))
            &&& alone.contains_key(key) ==> merged[key] == alone[key]
            &&& !alone.contains_key(key) && shared.contains_key(key) ==> merged[key] == shared[key]
        }),
    decreases own.len(),
{
    if own.len() > 0 {
        law_own_headers_win(common, own.drop_last(), key);
    }
}

/// Of several settings of one key the last one counts.
pub proof fn law_last_setting_counts(map: TextsByKey, pairs: Seq<Pair>, at: int)
    requires
        0 <= at < pairs.len(),
        forall|later: int| at < later < pairs.len() ==> pairs[later].key != pairs[at].key,
    ensures
        stored_all(map, pairs).contains_key(pairs[at].key),
        stored_all(map, pairs)[pairs[at].key] == pairs[at].value,
    decreases pairs.len(),
{
    if at < pairs.len() - 1 {
        law_last_setting_counts(map, pairs.drop_last(), at);
    }
}

/// The last resource attribute that names the service counts, whatever the
/// service was called before.
pub proof fn law_resource_attributes_name_the_service(settings: SettingsModel, pairs: Seq<Pair>, at: int)
    requires
        0 <= at < pairs.len(),
        pairs[at].key == "service.name"@,
        forall|later: int| at < later < pairs.len() ==> pairs[later].key != "service.name"@,
    ensures
        attributed_all(settings, pairs).service_name == pairs[at].value,
    decreases pairs.len(),
{
    if at < pairs.len() - 1 {
        law_resource_attributes_name_the_service(settings, pairs.drop_last(), at);
    }
}

/// The debug text tells neither endpoints nor headers nor attribute values:
/// builders whose exporters are of the same kinds, and that differ in nothing
/// else that it tells, have the same text.
pub proof fn law_observability_debug_text_tells_no_secret(
    one: BuilderModel,
    other: BuilderModel,
    attributes: nat,
    members: nat,
    env_filter: Option<String>,
)
    requires
        kind_name(one.settings.exporter) == kind_name(other.settings.exporter),
        kind_name(one.settings.trace_exporter) == kind_name(other.settings.trace_exporter),
        kind_name(one.settings.metrics_exporter) == kind_name(other.settings.metrics_exporter),
        one.settings.environment == other.settings.environment,
        one.settings.service_name == other.settings.service_name,
        one.settings.service_version == other.settings.service_version,
        one.settings.runtime_metrics == other.settings.runtime_metrics,
        one.install_subscriber == other.install_subscriber,
        one.fmt_layer == other.fmt_layer,
    ensures
        one.debug_fields(attributes, members, env_filter) == other.debug_fields(attributes, members, env_filter),
{
}

/// Where the SDK is switched off, the environment changes nothing but that no
/// telemetry leaves the process.
pub proof fn law_disabled_environment_only_disables(builder: BuilderModel, env: TextsByKey)
    requires
        env_truth(env, "OTEL_SDK_DISABLED"@) == Some(true),
    ensures
        builder.with_env(env) == Ok::<BuilderModel, Seq<char>>(builder.disabled()),
{
}

} // verus!
