//! What the environment says of telemetry.
use crate::debug::quoted;
use crate::error::{Error, Result};
use crate::observability::{
    attributed_all, env_bool, env_value, exporter_from_env, exporter_kind, first_env, first_set, key_texts,
    law_last_setting_counts, law_signal_variables_win, merged_headers, pairs_model,
    parse_key_value_list, read_list, read_part, read_parts, stored_all, texts_by_key, values_of, BuilderModel,
    ExporterModel, Observability, ObservabilityBuilder, ObservabilityGuard, OtelExporter, OtelHttpProtocol, Pair,
    PartModel, SettingsModel, Signal, TextsByKey,
};
use crate::text::{ascii_lowered, first_of, is_space, optional_text, split, trimmed};
use crate::text_laws::{
    all_space, lacks, law_first_position_is_the_first, law_trimming_takes_outer_space_off, law_trimming_undoes_padding,
    lemma_trimmed,
};
use crate::text_map::TextMap;
use std::path::PathBuf;
use vstd::prelude::*;

verus! {

/// The environment sets `key` to something other than white space.
pub open spec fn is_set(env: TextsByKey, key: Seq<char>) -> bool {
    env.contains_key(key) && !all_space(env[key])
}

/// What `own` is set to, or else `common`.
pub open spec fn either(env: TextsByKey, own: Seq<char>, common: Seq<char>) -> Option<Seq<char>> {
    if is_set(env, own) {
        Some(env[own])
    } else if is_set(env, common) {
        Some(env[common])
    } else {
        None
    }
}

proof fn lemma_either(env: TextsByKey, own: Seq<char>, common: Seq<char>)
    ensures
        env_value(env, seq![own, common]) == either(env, own, common),
{
    law_signal_variables_win(env, own, common);
    law_trimming_takes_outer_space_off(env[own]);
    law_trimming_takes_outer_space_off(env[common]);
}

proof fn lemma_first_set_pushed(values: Seq<Seq<char>>, value: Seq<char>)
    ensures
        first_set(values.push(value)) == (match first_set(values) {
            Some(found) => Some(found),
            None => if all_space(value) {
                None
            } else {
                Some(value)
            },
        }),
    decreases values.len(),
{
    let longer = values.push(value);
    law_trimming_takes_outer_space_off(value);
    if values.len() == 0 {
        reveal_with_fuel(first_set, 2);
        assert(longer[0] == value);
        assert(longer.drop_first() =~= Seq::<Seq<char>>::empty());
    } else {
        assert(longer[0] == values[0]);
        assert(longer.drop_first() =~= values.drop_first().push(value));
        lemma_first_set_pushed(values.drop_first(), value);
    }
}

/// Of several variables the first one that is set counts: it has a value that
/// is not blank, and none before it has.
pub proof fn law_first_variable_counts(env: TextsByKey, keys: Seq<Seq<char>>)
    ensures
        match env_value(env, keys) {
            Some(value) => exists|i: int|
                0 <= i < keys.len() && is_set(env, #[trigger] keys[i]) && env[keys[i]] == value && (forall|j: int|
                    0 <= j < i ==> !is_set(env, #[trigger] keys[j])),
            None => forall|i: int| 0 <= i < keys.len() ==> !is_set(env, #[trigger] keys[i]),
        },
    decreases keys.len(),
{
    if keys.len() > 0 {
        let front = keys.drop_last();
        let last = keys.last();
        law_first_variable_counts(env, front);
        assert(keys[keys.len() - 1] == last);
        if env.contains_key(last) {
            lemma_first_set_pushed(values_of(env, front), env[last]);
        }
        match env_value(env, front) {
            Some(value) => {
                let i = choose|i: int|
                    0 <= i < front.len() && is_set(env, #[trigger] front[i]) && env[front[i]] == value && (forall|j: int|
                        0 <= j < i ==> !is_set(env, #[trigger] front[j]));
                assert(keys[i] == front[i]);
                assert forall|j: int| 0 <= j < i implies !is_set(env, #[trigger] keys[j]) by {
                    assert(front[j] == keys[j]);
                }
            },
            None => {
                assert forall|j: int| 0 <= j < front.len() implies !is_set(env, #[trigger] keys[j]) by {
                    assert(front[j] == keys[j]);
                }
            },
        }
    }
}

proof fn lemma_one(env: TextsByKey, key: Seq<char>)
    ensures
        env_value(env, seq![key]) == (if is_set(env, key) {
            Some(env[key])
        } else {
            None
        }),
{
    let keys = seq![key];
    law_first_variable_counts(env, keys);
    assert(keys[0] == key);
}

/// What is looked up in the environment is the first variable that is set.
pub proof fn law_lookups_find_the_first_variable(
    env: TextMap<String>,
    keys: Vec<&'static str>,
    value: Option<String>,
)
    requires
        call_ensures(first_env, (&env, &keys), value),
    ensures
        match value {
            Some(value) => exists|i: int|
                0 <= i < keys@.len() && is_set(texts_by_key(env), #[trigger] key_texts(keys@)[i]) && texts_by_key(
                    env,
                )[keys@[i]@] == value@ && (forall|j: int|
                    0 <= j < i ==> !is_set(texts_by_key(env), #[trigger] key_texts(keys@)[j])),
            None => forall|i: int|
                0 <= i < keys@.len() ==> !is_set(texts_by_key(env), #[trigger] key_texts(keys@)[i]),
        },
{
    law_first_variable_counts(texts_by_key(env), key_texts(keys@));
}

proof fn lemma_endpoint_and_protocol(env: TextsByKey, signal: Signal)
    ensures
        env_value(env, seq![signal.endpoint_variable(), "OTEL_EXPORTER_OTLP_ENDPOINT"@]) == either(
            env,
            signal.endpoint_variable(),
            "OTEL_EXPORTER_OTLP_ENDPOINT"@,
        ),
        env_value(env, seq![signal.protocol_variable(), "OTEL_EXPORTER_OTLP_PROTOCOL"@]) == either(
            env,
            signal.protocol_variable(),
            "OTEL_EXPORTER_OTLP_PROTOCOL"@,
        ),
        "grpc"@ != "http"@,
        "grpc"@ != "http/protobuf"@,
        "grpc"@ != "http/json"@,
        "http/json"@ != "http"@,
        "http/json"@ != "http/protobuf"@,
{
    lemma_either(env, signal.endpoint_variable(), "OTEL_EXPORTER_OTLP_ENDPOINT"@);
    lemma_either(env, signal.protocol_variable(), "OTEL_EXPORTER_OTLP_PROTOCOL"@);
    reveal_strlit("grpc");
    reveal_strlit("http");
    reveal_strlit("http/protobuf");
    reveal_strlit("http/json");
    assert("grpc"@[0] == 'g');
    assert("http"@[0] == 'h');
    assert("http"@.len() == 4);
    assert("http/json"@.len() == 9);
    assert("http/protobuf"@.len() == 13);
}

/// Telemetry goes over OTLP to the endpoint that the environment sets for the
/// signal, or else for all signals, with the headers of the signal. The
/// protocol is the one that is set, and binary OTLP over HTTP where none is.
pub proof fn law_exporters_follow_the_environment(
    env: TextMap<String>,
    signal: Signal,
    exporter: Result<OtelExporter>,
    headers: TextMap<String>,
)
    requires
        call_ensures(exporter_from_env, (&env, signal), exporter),
        call_ensures(merged_headers, (&env, signal), Ok(headers)),
    ensures
        ({
            let vars = texts_by_key(env);
            let endpoint = either(
                vars,
                match signal {
                    Signal::Logs => "OTEL_EXPORTER_OTLP_LOGS_ENDPOINT"@,
                    Signal::Traces => "OTEL_EXPORTER_OTLP_TRACES_ENDPOINT"@,
                    Signal::Metrics => "OTEL_EXPORTER_OTLP_METRICS_ENDPOINT"@,
                },
                "OTEL_EXPORTER_OTLP_ENDPOINT"@,
            );
            let protocol = either(
                vars,
                match signal {
                    Signal::Logs => "OTEL_EXPORTER_OTLP_LOGS_PROTOCOL"@,
                    Signal::Traces => "OTEL_EXPORTER_OTLP_TRACES_PROTOCOL"@,
                    Signal::Metrics => "OTEL_EXPORTER_OTLP_METRICS_PROTOCOL"@,
                },
                "OTEL_EXPORTER_OTLP_PROTOCOL"@,
            );
            &&& endpoint is Some && (protocol is None || protocol == Some("http/protobuf"@) || protocol
                == Some("http"@)) ==> (exporter matches Ok(
                OtelExporter::OtlpHttp { endpoint: used, headers: sent, protocol: encoding, tls },
            ) && used@ == endpoint->0 && texts_by_key(sent) == texts_by_key(headers) && encoding == OtelHttpProtocol::Binary
                && tls is None)
            &&& endpoint is Some && protocol == Some("http/json"@) ==> (exporter matches Ok(
                OtelExporter::OtlpHttp { endpoint: used, headers: sent, protocol: encoding, tls },
            ) && used@ == endpoint->0 && texts_by_key(sent) == texts_by_key(headers) && encoding == OtelHttpProtocol::Json
                && tls is None)
            &&& endpoint is Some && protocol == Some("grpc"@) ==> (exporter matches Ok(
                OtelExporter::OtlpGrpc { endpoint: used, headers: sent, tls },
            ) && used@ == endpoint->0 && texts_by_key(sent) == texts_by_key(headers) && tls is None)
            &&& endpoint is Some && protocol is Some && protocol->0 != "http/protobuf"@ && protocol->0 != "http"@
                && protocol->0 != "http/json"@ && protocol->0 != "grpc"@ ==> (exporter matches Err(
                Error::Observability { source },
            ) && source@ == "unsupported OTEL protocol "@ + quoted(protocol->0))
        }),
{
    lemma_endpoint_and_protocol(texts_by_key(env), signal);
}

/// Without an endpoint no telemetry leaves the process, whatever else is set.
pub proof fn law_no_endpoint_means_no_exporter(env: TextMap<String>, signal: Signal, exporter: Result<OtelExporter>)
    requires
        call_ensures(exporter_from_env, (&env, signal), exporter),
    ensures
        ({
            let vars = texts_by_key(env);
            let endpoint = either(
                vars,
                match signal {
                    Signal::Logs => "OTEL_EXPORTER_OTLP_LOGS_ENDPOINT"@,
                    Signal::Traces => "OTEL_EXPORTER_OTLP_TRACES_ENDPOINT"@,
                    Signal::Metrics => "OTEL_EXPORTER_OTLP_METRICS_ENDPOINT"@,
                },
                "OTEL_EXPORTER_OTLP_ENDPOINT"@,
            );
            endpoint is None <==> exporter == Ok::<OtelExporter, Error>(OtelExporter::Disabled)
        }),
{
    lemma_endpoint_and_protocol(texts_by_key(env), signal);
}

/// Headers that cannot be read leave a signal with an endpoint without an
/// exporter: the error is that of the headers.
pub proof fn law_unreadable_headers_are_an_error(
    env: TextMap<String>,
    signal: Signal,
    exporter: Result<OtelExporter>,
    headers: Result<TextMap<String>>,
)
    requires
        call_ensures(exporter_from_env, (&env, signal), exporter),
        call_ensures(merged_headers, (&env, signal), headers),
        headers is Err,
        exporter != Ok::<OtelExporter, Error>(OtelExporter::Disabled),
    ensures
        exporter matches Err(Error::Observability { source }) && (headers matches Err(
            Error::Observability { source: cause },
        ) && source@ == cause@),
{
}

proof fn lemma_trimmed_apart(front: Seq<char>, back: Seq<char>)
    requires
        lacks(front, '='),
    ensures
        ({
            let text = trimmed(front.push('=') + back);
            let at = first_of(text, '=');
            &&& text.len() > 0
            &&& 0 <= at < text.len()
            &&& trimmed(text.take(at)) == trimmed(front)
            &&& trimmed(text.skip(at + 1)) == trimmed(back)
        }),
{
    let part = front.push('=') + back;
    let range = lemma_trimmed(part);
    let sign = front.len() as int;
    let text = trimmed(part);
    assert(part[sign] == '=');
    if range.0 > sign {
        assert(is_space(part.take(range.0)[sign]));
    }
    if range.1 <= sign {
        assert(is_space(part.skip(range.1)[sign - range.1]));
    }
    let place = sign - range.0;
    assert(text[place] == '=');
    let at = first_of(text, '=');
    law_first_position_is_the_first(text, '=');
    if at > place {
        assert(text.take(at)[place] == '=');
    }
    if at < place {
        assert(text[at] == front[range.0 + at]);
    }
    let kept = text.take(at);
    let inner = lemma_trimmed(kept);
    assert(front =~= front.take(range.0 + inner.0) + trimmed(kept) + front.skip(range.0 + inner.1));
    assert(all_space(front.take(range.0 + inner.0))) by {
        let outer = front.take(range.0 + inner.0);
        assert forall|i: int| 0 <= i < outer.len() implies is_space(#[trigger] outer[i]) by {
            if i < range.0 {
                assert(part.take(range.0)[i] == outer[i]);
            } else {
                assert(kept.take(inner.0)[i - range.0] == outer[i]);
            }
        }
    }
    assert(all_space(front.skip(range.0 + inner.1))) by {
        let outer = front.skip(range.0 + inner.1);
        assert forall|i: int| 0 <= i < outer.len() implies is_space(#[trigger] outer[i]) by {
            assert(kept.skip(inner.1)[i] == outer[i]);
        }
    }
    if trimmed(kept).len() > 0 {
        assert(trimmed(kept)[0] == kept[inner.0]);
        assert(trimmed(kept).last() == kept[inner.1 - 1]);
    }
    law_trimming_undoes_padding(front.take(range.0 + inner.0), trimmed(kept), front.skip(range.0 + inner.1));
    let rest = text.skip(at + 1);
    let within = lemma_trimmed(rest);
    assert(back =~= back.take(within.0) + trimmed(rest) + back.skip(within.1));
    assert(all_space(back.take(within.0))) by {
        let outer = back.take(within.0);
        assert forall|i: int| 0 <= i < outer.len() implies is_space(#[trigger] outer[i]) by {
            assert(rest.take(within.0)[i] == outer[i]);
        }
    }
    assert(all_space(back.skip(within.1))) by {
        let outer = back.skip(within.1);
        assert forall|i: int| 0 <= i < outer.len() implies is_space(#[trigger] outer[i]) by {
            if within.1 + i < rest.len() {
                assert(rest.skip(within.1)[i] == outer[i]);
            } else {
                assert(part.skip(range.1)[within.1 + i - rest.len()] == outer[i]);
            }
        }
    }
    if trimmed(rest).len() > 0 {
        assert(trimmed(rest)[0] == rest[within.0]);
        assert(trimmed(rest).last() == rest[within.1 - 1]);
    }
    law_trimming_undoes_padding(back.take(within.0), trimmed(rest), back.skip(within.1));
}

/// A setting is what stands before and after the first equals sign, without
/// the white space around either.
pub proof fn law_settings_are_keys_and_values(key: Seq<char>, value: Seq<char>)
    requires
        lacks(key, '='),
    ensures
        read_part(key.push('=') + value) == PartModel::Entry(Pair { key: trimmed(key), value: trimmed(value) }),
{
    lemma_trimmed_apart(key, value);
}

/// White space is no setting, and anything else without an equals sign is
/// malformed.
pub proof fn law_settings_need_an_equals_sign(part: Seq<char>)
    requires
        lacks(part, '='),
    ensures
        all_space(part) ==> read_part(part) == PartModel::Blank,
        !all_space(part) ==> read_part(part) == PartModel::Malformed(trimmed(part)),
{
    law_trimming_takes_outer_space_off(part);
    let text = trimmed(part);
    law_first_position_is_the_first(text, '=');
    let range = lemma_trimmed(part);
    let at = first_of(text, '=');
    if at < text.len() {
        assert(part[range.0 + at] == '=');
    }
}

/// A list of settings is read part by part, up to the first part that is
/// malformed.
pub proof fn law_lists_are_read_part_by_part(parts: Seq<Seq<char>>, part: Seq<char>)
    ensures
        read_parts(Seq::empty()) == Ok::<Seq<Pair>, Seq<char>>(Seq::empty()),
        read_parts(parts) is Err ==> read_parts(parts.push(part)) == read_parts(parts),
        read_parts(parts) matches Ok(pairs) ==> match read_part(part) {
            PartModel::Blank => read_parts(parts.push(part)) == Ok::<Seq<Pair>, Seq<char>>(pairs),
            PartModel::Malformed(text) => read_parts(parts.push(part)) == Err::<Seq<Pair>, Seq<char>>(text),
            PartModel::Entry(pair) => read_parts(parts.push(part)) == Ok::<Seq<Pair>, Seq<char>>(pairs.push(pair)),
        },
{
    assert(parts.push(part).drop_last() =~= parts);
}

/// Lists of settings have commas between them.
pub proof fn law_lists_are_separated_by_commas(input: Seq<char>)
    ensures
        read_list(input) == read_parts(split(input, ',')),
{
}

/// What is read from a list of settings is what it says, and a list with a
/// malformed part is refused with that part.
pub proof fn law_lists_are_read_or_refused(input: &str, pairs: Result<Vec<(String, String)>>)
    requires
        call_ensures(parse_key_value_list, (input,), pairs),
    ensures
        read_list(input@) matches Ok(read) ==> (pairs matches Ok(list) && list@.len() == read.len() && forall|i: int|
            0 <= i < read.len() ==> (#[trigger] list@[i]).0@ == read[i].key && list@[i].1@ == read[i].value),
        read_list(input@) matches Err(part) ==> (pairs matches Err(Error::Observability { source }) && source@
            == "expected key=value entry in comma-separated list: "@ + quoted(part)),
{
    if let Ok(read) = read_list(input@) {
        let list = pairs->Ok_0;
        assert(pairs_model(list@).len() == list@.len());
        assert forall|i: int| 0 <= i < read.len() implies (#[trigger] list@[i]).0@ == read[i].key && list@[i].1@
            == read[i].value by {
            assert(pairs_model(list@)[i] == read[i]);
        }
    }
}

/// What a variable that holds a list says. One that is not set says nothing.
pub open spec fn listed(env: TextsByKey, key: Seq<char>) -> std::result::Result<Seq<Pair>, Seq<char>> {
    if is_set(env, key) {
        read_list(env[key])
    } else {
        Ok(Seq::empty())
    }
}

/// `at` is the last of `pairs` with its key.
pub open spec fn is_last(pairs: Seq<Pair>, at: int) -> bool {
    &&& 0 <= at < pairs.len()
    &&& forall|later: int| at < later < pairs.len() ==> (#[trigger] pairs[later]).key != pairs[at].key
}

/// None of `pairs` has the key `key`.
pub open spec fn sets_nothing(pairs: Seq<Pair>, key: Seq<char>) -> bool {
    forall|i: int| 0 <= i < pairs.len() ==> (#[trigger] pairs[i]).key != key
}

proof fn lemma_unset_key(map: TextsByKey, pairs: Seq<Pair>, key: Seq<char>)
    requires
        sets_nothing(pairs, key),
    ensures
        stored_all(map, pairs).contains_key(key) == map.contains_key(key),
        map.contains_key(key) ==> stored_all(map, pairs)[key] == map[key],
    decreases pairs.len(),
{
    if pairs.len() > 0 {
        let front = pairs.drop_last();
        assert(pairs[pairs.len() - 1].key != key);
        assert forall|i: int| 0 <= i < front.len() implies (#[trigger] front[i]).key != key by {
            assert(front[i] == pairs[i]);
        }
        lemma_unset_key(map, front, key);
    }
}

/// The headers of a signal are those that the variable for all signals lists,
/// and those that its own variable lists. Its own win, of several with one
/// name the last one counts, and there are no others.
pub proof fn law_headers_follow_the_environment(
    env: TextMap<String>,
    signal: Signal,
    headers: Result<TextMap<String>>,
    common: Seq<Pair>,
    own: Seq<Pair>,
    at: int,
    key: Seq<char>,
)
    requires
        call_ensures(merged_headers, (&env, signal), headers),
        listed(texts_by_key(env), "OTEL_EXPORTER_OTLP_HEADERS"@) == Ok::<Seq<Pair>, Seq<char>>(common),
        listed(
            texts_by_key(env),
            match signal {
                Signal::Logs => "OTEL_EXPORTER_OTLP_LOGS_HEADERS"@,
                Signal::Traces => "OTEL_EXPORTER_OTLP_TRACES_HEADERS"@,
                Signal::Metrics => "OTEL_EXPORTER_OTLP_METRICS_HEADERS"@,
            },
        ) == Ok::<Seq<Pair>, Seq<char>>(own),
    ensures
        headers is Ok,
        is_last(own, at) ==> texts_by_key(headers->Ok_0).contains_key(own[at].key) && texts_by_key(
            headers->Ok_0,
        )[own[at].key] == own[at].value,
        is_last(common, at) && sets_nothing(own, common[at].key) ==> texts_by_key(headers->Ok_0).contains_key(
            common[at].key,
        ) && texts_by_key(headers->Ok_0)[common[at].key] == common[at].value,
        sets_nothing(common, key) && sets_nothing(own, key) ==> !texts_by_key(headers->Ok_0).contains_key(key),
{
    let vars = texts_by_key(env);
    lemma_one(vars, "OTEL_EXPORTER_OTLP_HEADERS"@);
    lemma_one(vars, signal.headers_variable());
    let shared = stored_all(Map::empty(), common);
    if is_last(own, at) {
        law_last_setting_counts(shared, own, at);
    }
    if is_last(common, at) && sets_nothing(own, common[at].key) {
        law_last_setting_counts(Map::empty(), common, at);
        lemma_unset_key(shared, own, common[at].key);
    }
    if sets_nothing(common, key) && sets_nothing(own, key) {
        lemma_unset_key(Map::empty(), common, key);
        lemma_unset_key(shared, own, key);
    }
}

/// A malformed list of headers is refused, that of all signals first.
pub proof fn law_malformed_headers_are_refused(
    env: TextMap<String>,
    signal: Signal,
    headers: Result<TextMap<String>>,
    part: Seq<char>,
)
    requires
        call_ensures(merged_headers, (&env, signal), headers),
    ensures
        ({
            let vars = texts_by_key(env);
            let common = listed(vars, "OTEL_EXPORTER_OTLP_HEADERS"@);
            let own = listed(
                vars,
                match signal {
                    Signal::Logs => "OTEL_EXPORTER_OTLP_LOGS_HEADERS"@,
                    Signal::Traces => "OTEL_EXPORTER_OTLP_TRACES_HEADERS"@,
                    Signal::Metrics => "OTEL_EXPORTER_OTLP_METRICS_HEADERS"@,
                },
            );
            let text = "expected key=value entry in comma-separated list: "@ + quoted(part);
            &&& common == Err::<Seq<Pair>, Seq<char>>(part) ==> (headers matches Err(Error::Observability { source })
                && source@ == text)
            &&& common is Ok && own == Err::<Seq<Pair>, Seq<char>>(part) ==> (headers matches Err(
                Error::Observability { source },
            ) && source@ == text)
        }),
{
    let vars = texts_by_key(env);
    lemma_one(vars, "OTEL_EXPORTER_OTLP_HEADERS"@);
    lemma_one(vars, signal.headers_variable());
}

proof fn lemma_words()
    ensures
        "1"@ != "0"@,
        "1"@ != "false"@,
        "1"@ != "no"@,
        "1"@ != "off"@,
        "true"@ != "0"@,
        "true"@ != "false"@,
        "true"@ != "no"@,
        "true"@ != "off"@,
        "yes"@ != "0"@,
        "yes"@ != "false"@,
        "yes"@ != "no"@,
        "yes"@ != "off"@,
        "on"@ != "0"@,
        "on"@ != "false"@,
        "on"@ != "no"@,
        "on"@ != "off"@,
{
    reveal_strlit("1");
    reveal_strlit("true");
    reveal_strlit("yes");
    reveal_strlit("on");
    reveal_strlit("0");
    reveal_strlit("false");
    reveal_strlit("no");
    reveal_strlit("off");
    assert("1"@.len() == 1 && "1"@[0] == '1');
    assert("true"@.len() == 4 && "true"@[0] == 't');
    assert("yes"@.len() == 3 && "yes"@[0] == 'y');
    assert("on"@.len() == 2 && "on"@[0] == 'o');
    assert("0"@.len() == 1 && "0"@[0] == '0');
    assert("false"@.len() == 5 && "false"@[0] == 'f');
    assert("no"@.len() == 2 && "no"@[0] == 'n');
    assert("off"@.len() == 3 && "off"@[0] == 'o');
    assert("on"@[1] == 'n');
}

/// A variable is a truth value where it is one of the usual words, in any
/// case and with white space around it. Where it is none, or is not there, it
/// says nothing.
pub proof fn law_truth_values_are_the_usual_words(env: TextMap<String>, key: &str, value: Option<bool>)
    requires
        call_ensures(env_bool, (&env, key), value),
    ensures
        ({
            let vars = texts_by_key(env);
            let word = ascii_lowered(trimmed(vars[key@]));
            &&& !vars.contains_key(key@) ==> value is None
            &&& vars.contains_key(key@) && word == "1"@ ==> value == Some(true)
            &&& vars.contains_key(key@) && word == "true"@ ==> value == Some(true)
            &&& vars.contains_key(key@) && word == "yes"@ ==> value == Some(true)
            &&& vars.contains_key(key@) && word == "on"@ ==> value == Some(true)
            &&& vars.contains_key(key@) && word == "0"@ ==> value == Some(false)
            &&& vars.contains_key(key@) && word == "false"@ ==> value == Some(false)
            &&& vars.contains_key(key@) && word == "no"@ ==> value == Some(false)
            &&& vars.contains_key(key@) && word == "off"@ ==> value == Some(false)
            &&& value is Some ==> {
                ||| word == "1"@
                ||| word == "true"@
                ||| word == "yes"@
                ||| word == "on"@
                ||| word == "0"@
                ||| word == "false"@
                ||| word == "no"@
                ||| word == "off"@
            }
        }),
{
    lemma_words();
}

/// Two environments that give a variable the same word, but for case and white
/// space around it, give it the same truth value.
pub proof fn law_truth_values_ignore_case_and_padding(
    one: TextMap<String>,
    other: TextMap<String>,
    key: &str,
    first: Option<bool>,
    second: Option<bool>,
)
    requires
        call_ensures(env_bool, (&one, key), first),
        call_ensures(env_bool, (&other, key), second),
        texts_by_key(one).contains_key(key@),
        texts_by_key(other).contains_key(key@),
        ascii_lowered(trimmed(texts_by_key(one)[key@])) == ascii_lowered(trimmed(texts_by_key(other)[key@])),
    ensures
        first == second,
{
}

/// Without other settings telemetry stays in the process, and tracing goes to
/// a subscriber of the SDK's own at the level `info`.
pub proof fn law_observability_has_its_defaults(codex_home: PathBuf, builder: ObservabilityBuilder)
    requires
        call_ensures(Observability::builder, (codex_home,), builder),
    ensures
        builder.settings.environment@ == "development"@,
        builder.settings.service_name@ == "codex-sdk-rs"@,
        builder.settings.service_version@ == "0.1.0"@,
        builder.settings.codex_home == codex_home,
        builder.settings.exporter is Disabled,
        builder.settings.trace_exporter is Disabled,
        builder.settings.metrics_exporter is Disabled,
        !builder.settings.runtime_metrics,
        builder@.settings.span_attributes == TextsByKey::empty(),
        builder@.settings.tracestate == Map::<Seq<char>, TextsByKey>::empty(),
        optional_text(builder.env_filter) == Some("info"@),
        builder.install_subscriber,
        builder.fmt_layer,
{
}

/// To start from the environment is to apply it to a builder with the
/// defaults.
pub proof fn law_builders_from_the_environment_start_with_the_defaults(
    codex_home: PathBuf,
    env: TextMap<String>,
    fresh: ObservabilityBuilder,
    builder: Result<ObservabilityBuilder>,
    applied: Result<ObservabilityBuilder>,
)
    requires
        call_ensures(ObservabilityBuilder::new, (codex_home,), fresh),
        call_ensures(Observability::from_env, (codex_home, &env), builder),
        call_ensures(ObservabilityBuilder::with_env, (fresh, &env), applied),
    ensures
        builder matches Ok(made) ==> (applied matches Ok(other) && made@ == other@),
        builder is Err ==> applied is Err,
{
}

/// The variable `key` says yes.
pub open spec fn says_true(env: TextsByKey, key: Seq<char>) -> bool {
    let word = ascii_lowered(trimmed(env[key]));
    env.contains_key(key) && (word == "1"@ || word == "true"@ || word == "yes"@ || word == "on"@)
}

/// Where the SDK is switched off, every exporter is, and all other settings
/// stay as they were.
pub proof fn law_switched_off_means_no_telemetry(
    builder: ObservabilityBuilder,
    env: TextMap<String>,
    applied: Result<ObservabilityBuilder>,
)
    requires
        call_ensures(ObservabilityBuilder::with_env, (builder, &env), applied),
        says_true(texts_by_key(env), "OTEL_SDK_DISABLED"@),
    ensures
        applied matches Ok(after) && after.settings.exporter is Disabled && after.settings.trace_exporter is Disabled
            && after.settings.metrics_exporter is Disabled && after@ == (BuilderModel {
            settings: SettingsModel {
                exporter: ExporterModel::Disabled,
                trace_exporter: ExporterModel::Disabled,
                metrics_exporter: ExporterModel::Disabled,
                ..builder@.settings
            },
            ..builder@
        }),
{
    lemma_words();
}

/// Each signal goes to the exporter that the environment sets for it.
pub proof fn law_each_signal_has_its_exporter(
    builder: ObservabilityBuilder,
    env: TextMap<String>,
    after: ObservabilityBuilder,
    logs: Result<OtelExporter>,
    traces: Result<OtelExporter>,
    metrics: Result<OtelExporter>,
)
    requires
        call_ensures(ObservabilityBuilder::with_env, (builder, &env), Ok(after)),
        !says_true(texts_by_key(env), "OTEL_SDK_DISABLED"@),
        call_ensures(exporter_from_env, (&env, Signal::Logs), logs),
        call_ensures(exporter_from_env, (&env, Signal::Traces), traces),
        call_ensures(exporter_from_env, (&env, Signal::Metrics), metrics),
    ensures
        logs matches Ok(exporter) && after@.settings.exporter == exporter@,
        traces matches Ok(exporter) && after@.settings.trace_exporter == exporter@,
        metrics matches Ok(exporter) && after@.settings.metrics_exporter == exporter@,
{
}

/// The environment is refused exactly where the resource attributes or the
/// exporter of a signal are.
pub proof fn law_wrong_environments_are_refused(
    builder: ObservabilityBuilder,
    env: TextMap<String>,
    applied: Result<ObservabilityBuilder>,
    logs: Result<OtelExporter>,
    traces: Result<OtelExporter>,
    metrics: Result<OtelExporter>,
)
    requires
        call_ensures(ObservabilityBuilder::with_env, (builder, &env), applied),
        !says_true(texts_by_key(env), "OTEL_SDK_DISABLED"@),
        call_ensures(exporter_from_env, (&env, Signal::Logs), logs),
        call_ensures(exporter_from_env, (&env, Signal::Traces), traces),
        call_ensures(exporter_from_env, (&env, Signal::Metrics), metrics),
    ensures
        applied is Err <==> listed(texts_by_key(env), "OTEL_RESOURCE_ATTRIBUTES"@) is Err || logs is Err || traces is Err
            || metrics is Err,
{
    lemma_one(texts_by_key(env), "OTEL_RESOURCE_ATTRIBUTES"@);
}

/// `value` is what `key` is set to, or else `fallback`.
pub open spec fn set_or_kept(env: TextsByKey, key: Seq<char>, value: Seq<char>, fallback: Seq<char>) -> bool {
    &&& is_set(env, key) ==> value == env[key]
    &&& !is_set(env, key) ==> value == fallback
}

proof fn lemma_three(env: TextsByKey, one: Seq<char>, two: Seq<char>, three: Seq<char>)
    ensures
        env_value(env, seq![one, two, three]) == (if is_set(env, one) {
            Some(env[one])
        } else if is_set(env, two) {
            Some(env[two])
        } else if is_set(env, three) {
            Some(env[three])
        } else {
            None
        }),
{
    let keys = seq![one, two, three];
    law_first_variable_counts(env, keys);
    assert(keys[0] == one);
    assert(keys[1] == two);
    assert(keys[2] == three);
}

/// Without resource attributes the plain variables name the service, its
/// version, the environment and the tracing filter. What they do not set is
/// kept, and so is everything that no variable sets.
pub proof fn law_variables_name_the_service(
    builder: ObservabilityBuilder,
    env: TextMap<String>,
    after: ObservabilityBuilder,
)
    requires
        call_ensures(ObservabilityBuilder::with_env, (builder, &env), Ok(after)),
        !says_true(texts_by_key(env), "OTEL_SDK_DISABLED"@),
        !is_set(texts_by_key(env), "OTEL_RESOURCE_ATTRIBUTES"@),
    ensures
        ({
            let vars = texts_by_key(env);
            let old_settings = builder@.settings;
            let settings = after@.settings;
            &&& set_or_kept(vars, "OTEL_SERVICE_NAME"@, settings.service_name, old_settings.service_name)
            &&& set_or_kept(vars, "OTEL_SERVICE_VERSION"@, settings.service_version, old_settings.service_version)
            &&& settings.environment == (if is_set(vars, "CODEX_SDK_OTEL_ENVIRONMENT"@) {
                vars["CODEX_SDK_OTEL_ENVIRONMENT"@]
            } else if is_set(vars, "CODEX_ENV"@) {
                vars["CODEX_ENV"@]
            } else if is_set(vars, "APP_ENV"@) {
                vars["APP_ENV"@]
            } else {
                old_settings.environment
            })
            &&& after@.env_filter == (if is_set(vars, "RUST_LOG"@) {
                Some(vars["RUST_LOG"@])
            } else if is_set(vars, "CODEX_SDK_LOG"@) {
                Some(vars["CODEX_SDK_LOG"@])
            } else {
                builder@.env_filter
            })
            &&& settings.codex_home == old_settings.codex_home
            &&& settings.span_attributes == old_settings.span_attributes
            &&& settings.tracestate == old_settings.tracestate
            &&& after.install_subscriber == builder.install_subscriber
            &&& after.fmt_layer == builder.fmt_layer
        }),
{
    let vars = texts_by_key(env);
    lemma_one(vars, "OTEL_RESOURCE_ATTRIBUTES"@);
    lemma_one(vars, "OTEL_SERVICE_NAME"@);
    lemma_one(vars, "OTEL_SERVICE_VERSION"@);
    lemma_three(vars, "CODEX_SDK_OTEL_ENVIRONMENT"@, "CODEX_ENV"@, "APP_ENV"@);
    lemma_either(vars, "RUST_LOG"@, "CODEX_SDK_LOG"@);
}

/// The environment switches runtime metrics on and off, and leaves them as
/// they are where it says nothing of them.
pub proof fn law_variables_switch_runtime_metrics(
    builder: ObservabilityBuilder,
    env: TextMap<String>,
    after: ObservabilityBuilder,
    switch: Option<bool>,
)
    requires
        call_ensures(ObservabilityBuilder::with_env, (builder, &env), Ok(after)),
        !says_true(texts_by_key(env), "OTEL_SDK_DISABLED"@),
        call_ensures(env_bool, (&env, "CODEX_SDK_OTEL_RUNTIME_METRICS"), switch),
    ensures
        switch matches Some(enabled) ==> after.settings.runtime_metrics == enabled,
        switch is None ==> after.settings.runtime_metrics == builder.settings.runtime_metrics,
{
    let vars = texts_by_key(env);
    if let Ok(pairs) = listed(vars, "OTEL_RESOURCE_ATTRIBUTES"@) {
        lemma_one(vars, "OTEL_RESOURCE_ATTRIBUTES"@);
        law_attributes_leave_other_settings_alone(builder@.named_by(vars).settings, pairs);
    } else {
        lemma_one(vars, "OTEL_RESOURCE_ATTRIBUTES"@);
    }
}

/// Resource attributes change the names of the service and of the environment,
/// and the attributes of spans. They change nothing else.
pub proof fn law_attributes_leave_other_settings_alone(settings: SettingsModel, pairs: Seq<Pair>)
    ensures
        ({
            let after = attributed_all(settings, pairs);
            &&& after.codex_home == settings.codex_home
            &&& after.exporter == settings.exporter
            &&& after.trace_exporter == settings.trace_exporter
            &&& after.metrics_exporter == settings.metrics_exporter
            &&& after.runtime_metrics == settings.runtime_metrics
            &&& after.tracestate == settings.tracestate
            &&& pairs.len() == 0 ==> after == settings
        }),
    decreases pairs.len(),
{
    if pairs.len() > 0 {
        law_attributes_leave_other_settings_alone(settings, pairs.drop_last());
    }
}

/// `key` is an attribute that has a setting of its own.
pub open spec fn has_own_setting(key: Seq<char>) -> bool {
    ||| key == "service.name"@
    ||| key == "service.version"@
    ||| key == "deployment.environment"@
    ||| key == "deployment.environment.name"@
}

proof fn lemma_attribute_names()
    ensures
        "service.name"@ != "service.version"@,
        "service.name"@ != "deployment.environment"@,
        "service.name"@ != "deployment.environment.name"@,
        "service.version"@ != "deployment.environment"@,
        "service.version"@ != "deployment.environment.name"@,
{
    reveal_strlit("service.name");
    reveal_strlit("service.version");
    reveal_strlit("deployment.environment");
    reveal_strlit("deployment.environment.name");
    assert("service.name"@.len() == 12);
    assert("service.version"@.len() == 15);
    assert("deployment.environment"@.len() == 22);
    assert("deployment.environment.name"@.len() == 27);
}

/// A resource attribute that has a setting of its own sets that one, and any
/// other becomes an attribute of spans. Of several that set the same the last
/// one counts.
pub proof fn law_last_attribute_counts(settings: SettingsModel, pairs: Seq<Pair>, pair: Pair, key: Seq<char>)
    ensures
        ({
            let before = attributed_all(settings, pairs);
            let after = attributed_all(settings, pairs.push(pair));
            &&& pair.key == "service.name"@ ==> after == (SettingsModel { service_name: pair.value, ..before })
            &&& pair.key == "service.version"@ ==> after == (SettingsModel { service_version: pair.value, ..before })
            &&& pair.key == "deployment.environment"@ || pair.key == "deployment.environment.name"@ ==> after == (
            SettingsModel { environment: pair.value, ..before })
            &&& !has_own_setting(pair.key) ==> {
                &&& after == (SettingsModel { span_attributes: after.span_attributes, ..before })
                &&& after.span_attributes.contains_key(pair.key)
                &&& after.span_attributes[pair.key] == pair.value
                &&& key != pair.key ==> after.span_attributes.contains_key(key) == before.span_attributes.contains_key(key)
                &&& key != pair.key && before.span_attributes.contains_key(key) ==> after.span_attributes[key]
                    == before.span_attributes[key]
            }
        }),
{
    assert(pairs.push(pair).drop_last() =~= pairs);
    lemma_attribute_names();
}

/// Resource attributes come after the plain variables: they apply to what
/// those have set.
pub proof fn law_attributes_come_after_the_variables(
    builder: ObservabilityBuilder,
    env: TextMap<String>,
    after: ObservabilityBuilder,
    pairs: Seq<Pair>,
    at: int,
)
    requires
        call_ensures(ObservabilityBuilder::with_env, (builder, &env), Ok(after)),
        !says_true(texts_by_key(env), "OTEL_SDK_DISABLED"@),
        listed(texts_by_key(env), "OTEL_RESOURCE_ATTRIBUTES"@) == Ok::<Seq<Pair>, Seq<char>>(pairs),
        is_last(pairs, at),
    ensures
        pairs[at].key == "service.name"@ ==> after@.settings.service_name == pairs[at].value,
        pairs[at].key == "service.version"@ ==> after@.settings.service_version == pairs[at].value,
        pairs[at].key == "deployment.environment"@ && sets_nothing(pairs, "deployment.environment.name"@)
            ==> after@.settings.environment == pairs[at].value,
        pairs[at].key == "deployment.environment.name"@ && sets_nothing(pairs, "deployment.environment"@)
            ==> after@.settings.environment == pairs[at].value,
        !has_own_setting(pairs[at].key) ==> after@.settings.span_attributes.contains_key(pairs[at].key)
            && after@.settings.span_attributes[pairs[at].key] == pairs[at].value,
{
    let vars = texts_by_key(env);
    lemma_one(vars, "OTEL_RESOURCE_ATTRIBUTES"@);
    lemma_last_attribute(builder@.named_by(vars).settings, pairs, at);
}

proof fn lemma_last_attribute(settings: SettingsModel, pairs: Seq<Pair>, at: int)
    requires
        is_last(pairs, at),
    ensures
        ({
            let after = attributed_all(settings, pairs);
            &&& pairs[at].key == "service.name"@ ==> after.service_name == pairs[at].value
            &&& pairs[at].key == "service.version"@ ==> after.service_version == pairs[at].value
            &&& pairs[at].key == "deployment.environment"@ && sets_nothing(pairs, "deployment.environment.name"@)
                ==> after.environment == pairs[at].value
            &&& pairs[at].key == "deployment.environment.name"@ && sets_nothing(pairs, "deployment.environment"@)
                ==> after.environment == pairs[at].value
            &&& !has_own_setting(pairs[at].key) ==> after.span_attributes.contains_key(pairs[at].key)
                && after.span_attributes[pairs[at].key] == pairs[at].value
        }),
    decreases pairs.len(),
{
    lemma_attribute_names();
    let last = pairs.len() - 1;
    if at < last {
        let front = pairs.drop_last();
        assert(pairs[last].key != pairs[at].key);
        assert forall|later: int| at < later < front.len() implies (#[trigger] front[later]).key != front[at].key by {
            assert(front[later] == pairs[later]);
        }
        lemma_last_attribute(settings, front, at);
        if sets_nothing(pairs, "deployment.environment.name"@) {
            assert forall|i: int| 0 <= i < front.len() implies (#[trigger] front[i]).key
                != "deployment.environment.name"@ by {
                assert(front[i] == pairs[i]);
            }
        }
        if sets_nothing(pairs, "deployment.environment"@) {
            assert forall|i: int| 0 <= i < front.len() implies (#[trigger] front[i]).key
                != "deployment.environment"@ by {
                assert(front[i] == pairs[i]);
            }
        }
    }
}

/// One exporter for all signals is the exporter of each, and no other setting
/// changes.
pub proof fn law_one_exporter_serves_all_signals(
    builder: ObservabilityBuilder,
    exporter: OtelExporter,
    after: ObservabilityBuilder,
)
    requires
        call_ensures(ObservabilityBuilder::all_exporters, (builder, exporter), after),
    ensures
        after@.settings.exporter == exporter@,
        after@.settings.trace_exporter == exporter@,
        after@.settings.metrics_exporter == exporter@,
        after@ == (BuilderModel {
            settings: SettingsModel {
                exporter: after@.settings.exporter,
                trace_exporter: after@.settings.trace_exporter,
                metrics_exporter: after@.settings.metrics_exporter,
                ..builder@.settings
            },
            ..builder@
        }),
{
}

/// An OTLP endpoint that is set in code serves all signals, without headers
/// and TLS settings, and over HTTP in the binary encoding.
pub proof fn law_endpoints_serve_all_signals(
    builder: ObservabilityBuilder,
    endpoint: String,
    http: ObservabilityBuilder,
    grpc: ObservabilityBuilder,
)
    requires
        call_ensures(ObservabilityBuilder::otlp_http, (builder, endpoint), http),
        call_ensures(ObservabilityBuilder::otlp_grpc, (builder, endpoint), grpc),
    ensures
        http@.settings.exporter == (ExporterModel::OtlpHttp {
            endpoint: endpoint@,
            headers: Map::empty(),
            protocol: OtelHttpProtocol::Binary,
            tls: None,
        }),
        http@.settings.trace_exporter == http@.settings.exporter,
        http@.settings.metrics_exporter == http@.settings.exporter,
        grpc@.settings.exporter == (ExporterModel::OtlpGrpc { endpoint: endpoint@, headers: Map::empty(), tls: None }),
        grpc@.settings.trace_exporter == grpc@.settings.exporter,
        grpc@.settings.metrics_exporter == grpc@.settings.exporter,
{
}

/// Switching telemetry off switches every exporter off.
pub proof fn law_disabled_builders_export_nothing(builder: ObservabilityBuilder, after: ObservabilityBuilder)
    requires
        call_ensures(ObservabilityBuilder::disabled, (builder,), after),
    ensures
        after.settings.exporter is Disabled,
        after.settings.trace_exporter is Disabled,
        after.settings.metrics_exporter is Disabled,
        after@ == (BuilderModel {
            settings: SettingsModel {
                exporter: ExporterModel::Disabled,
                trace_exporter: ExporterModel::Disabled,
                metrics_exporter: ExporterModel::Disabled,
                ..builder@.settings
            },
            ..builder@
        }),
{
}

/// The kinds of exporters have their names.
pub proof fn law_exporters_have_their_kinds(exporter: OtelExporter, kind: &'static str)
    requires
        call_ensures(exporter_kind, (&exporter,), kind),
    ensures
        exporter is Disabled ==> kind@ == "none"@,
        exporter is Statsig ==> kind@ == "statsig"@,
        exporter is OtlpGrpc ==> kind@ == "otlp_grpc"@,
        exporter is OtlpHttp ==> kind@ == "otlp_http"@,
{
}

/// A tracestate field joins those of its member, and the fields of other
/// members stay as they are.
pub proof fn law_tracestate_fields_add_up(
    builder: ObservabilityBuilder,
    member: String,
    key: String,
    value: String,
    after: ObservabilityBuilder,
    other: Seq<char>,
)
    requires
        call_ensures(ObservabilityBuilder::tracestate_field, (builder, member, key, value), after),
    ensures
        ({
            let before = builder@.settings.tracestate;
            let state = after@.settings.tracestate;
            &&& state.contains_key(member@) && state[member@].contains_key(key@) && state[member@][key@] == value@
            &&& before.contains_key(member@) && other != key@ ==> state[member@].contains_key(other)
                == before[member@].contains_key(other)
            &&& before.contains_key(member@) && other != key@ && before[member@].contains_key(other)
                ==> state[member@][other] == before[member@][other]
            &&& other != member@ ==> state.contains_key(other) == before.contains_key(other)
            &&& other != member@ && before.contains_key(other) ==> state[other] == before[other]
        }),
{
}

/// The provider is shut down once, and only where there is one.
pub proof fn law_guards_shut_down_once(guard: &mut ObservabilityGuard, now: bool)
    requires
        call_ensures(ObservabilityGuard::shutdown, (guard,), now),
    ensures
        now <==> old(guard)@.provider && !old(guard)@.is_shutdown,
        final(guard)@.is_shutdown,
        final(guard)@.provider == old(guard)@.provider,
{
}

} // verus!
