use libddwaf::context::{timeout_micros, STATUS_ERR_INTERNAL, STATUS_ERR_INVALID_ARGUMENT, STATUS_ERR_INVALID_OBJECT, STATUS_MATCH, STATUS_OK};
use libddwaf::log::{Level, UnknownLogLevelError};
use libddwaf::object::{Keyed, WafArray, WafMap, WafObject, WafObjectType, WafOwned, WafString};
use libddwaf::{Builder, Config, Context, RunError, RunOutput, RunResult};

fn entry(key: &str, value: WafObject) -> Keyed<WafObject> {
    Keyed::with_key_str(key, value)
}

fn sample_output() -> WafOwned<WafMap> {
    let rule = WafMap::from(vec![entry("id", WafString::from_text("arachni_rule").into())]);
    let event = WafMap::from(vec![entry("rule", rule.into())]);
    WafOwned::from_engine(WafMap::from(vec![
        entry("timeout", false.into()),
        entry("keep", true.into()),
        entry("duration", 1500_u64.into()),
        entry("events", WafArray::from(vec![event.into()]).into()),
        entry("actions", WafMap::from(vec![entry("block_request", WafMap::new(0).into())]).into()),
        entry("attributes", WafMap::new(0).into()),
    ]))
}

#[test]
fn run_output_accessors() {
    let out = RunOutput::new(sample_output());
    assert!(!out.timeout());
    assert!(out.keep());
    assert_eq!(out.duration_nanos(), 1500);
    assert_eq!(out.duration(), std::time::Duration::from_nanos(1500));
    let events = out.events().expect("Expected some events");
    assert_eq!(events.len(), 1);
    let rule = events.at(0).as_type::<WafMap>().unwrap().get_str("rule").unwrap();
    let id = rule.as_type::<WafMap>().unwrap().get_str("id").unwrap();
    assert_eq!(id.to_str(), Some("arachni_rule"));
    assert_eq!(out.actions().expect("Expected some actions").len(), 1);
    assert_eq!(out.attributes().expect("Expected attributes").len(), 0);
}

#[test]
fn run_output_missing_fields() {
    let out = RunOutput::new(WafOwned::from_engine(WafMap::from(vec![
        entry("timeout", 1_u64.into()),
        entry("events", WafMap::new(0).into()),
    ])));
    assert!(!out.timeout());
    assert!(!out.keep());
    assert_eq!(out.duration_nanos(), 0);
    assert!(out.events().is_none());
    assert!(out.actions().is_none());
    assert!(out.attributes().is_none());
}

#[test]
fn run_status_classification() {
    let mut ctx = Context::new();
    let data = WafMap::from(vec![entry("server.request.headers.no_cookies", WafMap::new(0).into())]);
    match ctx.complete_run(STATUS_MATCH, Some(data), sample_output()) {
        Ok(RunResult::Match(out)) => assert!(out.events().is_some()),
        _ => panic!("Unexpected result"),
    }
    assert!(matches!(
        ctx.complete_run(STATUS_OK, None, WafOwned::default()),
        Ok(RunResult::NoMatch(_))
    ));
    assert!(matches!(
        ctx.complete_run(STATUS_ERR_INTERNAL, Some(WafMap::new(0)), WafOwned::default()),
        Err(RunError::InternalError)
    ));
    assert!(matches!(
        ctx.complete_run(STATUS_ERR_INVALID_OBJECT, Some(WafMap::new(0)), WafOwned::default()),
        Err(RunError::InvalidObject)
    ));
    assert!(matches!(
        ctx.complete_run(STATUS_ERR_INVALID_ARGUMENT, None, WafOwned::default()),
        Err(RunError::InvalidArgument)
    ));
    assert_eq!(RunError::InternalError.message(), "The WAF encountered an internal error");
}

#[test]
fn timeout_saturates() {
    assert_eq!(timeout_micros(1_000_000), 1_000_000);
    assert_eq!(timeout_micros(u128::from(u64::MAX) + 1), u64::MAX);
}

#[test]
fn builder_empty_path_is_refused() {
    assert_eq!(Builder::config_path_length(""), None);
    assert_eq!(Builder::config_path_length("test"), Some(4));
    assert_eq!(Builder::removal_path_length("test"), 4);
    assert_eq!(Builder::filter_length(None), 0);
    assert_eq!(Builder::filter_length(Some("rules.*")), 7);
    let builder = Builder::new(&Config::default());
    assert!(builder.config().obfuscator().key_regex().is_some());
}

#[test]
fn json_length_boundary() {
    assert_eq!(WafObject::json_length(b""), Some(0));
    assert_eq!(WafObject::json_length(b"{"), Some(1));
    assert_eq!(WafObject::json_length(br#"{"a": 1}"#), Some(8));
}

#[test]
fn log_levels() {
    assert_eq!(Level::Trace.as_raw(), 0);
    assert_eq!(Level::Off.as_raw(), 5);
    assert_eq!(Level::try_from(3), Ok(Level::Warn));
    assert_eq!(Level::try_from(9), Err(UnknownLogLevelError { raw: 9 }));
    assert_eq!(Level::of_message(9), Level::Error);
    assert_eq!(Level::of_message(1), Level::Debug);
    assert_eq!(Level::Info.as_str(), "INFO");
}

#[test]
fn object_type_raw_values() {
    assert_eq!(WafObjectType::Mapping.as_raw(), 16);
    assert_eq!(WafObjectType::try_from(128).unwrap(), WafObjectType::Null);
    assert!(WafObjectType::try_from(3).is_err());
}

#[test]
fn unknown_discriminator_reads_as_invalid() {
    assert_eq!(WafObjectType::from_raw_or_invalid(3), WafObjectType::Invalid);
    assert_eq!(WafObjectType::from_raw_or_invalid(32), WafObjectType::Bool);
    assert_eq!(WafObjectType::from_raw_or_invalid(0), WafObjectType::Invalid);
}

#[test]
fn builder_keeps_obfuscator() {
    let config = Config::new(
        libddwaf::Limits { max_container_size: 1, max_container_depth: 2, max_string_length: 3 },
        libddwaf::Obfuscator::new(Some("k.*"), Some("v.*")),
    );
    let builder = Builder::new(&config);
    assert_eq!(builder.config().obfuscator().key_regex(), Some("k.*"));
    assert_eq!(builder.config().obfuscator().value_regex(), Some("v.*"));
    assert_eq!(builder.config().limits().max_string_length, 3);
    let copy = config.obfuscator().copy();
    assert_eq!(copy.key_regex(), Some("k.*"));
}
