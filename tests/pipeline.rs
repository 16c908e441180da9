use collector_config::manager::{ChangeEvent, ConfigManager, Outcome};
use collector_config::parser::{parse, parse_modbus_rtu, find_field, Lookup, ParseError, RawField, RawPayload, RawValue};
use collector_config::reader::{backoff_for, WatchReader};
use collector_config::resolver::{
    is_supported_baud, resolve, resolve_payload, validate, Rejection, ValidationError, ValidationReason,
};
use collector_config::schema::{ConfigVariant, FieldName};
use collector_config::{default_1, default_holding, default_none, CfgParity, RegisterType};

fn text(key: &str, v: &str) -> RawField {
    RawField { key: key.to_string(), value: RawValue::Text(v.to_string()) }
}

fn num(key: &str, v: u64) -> RawField {
    RawField { key: key.to_string(), value: RawValue::Int(v) }
}

/// The minimal accepted payload: every required field, no optional one.
fn base_fields() -> Vec<RawField> {
    vec![
        text("serial_path", "/dev/ttyS0"),
        num("slave", 3),
        num("baud_rate", 9600),
        num("data_bits", 8),
        num("stop_bits", 1),
        num("register", 100),
        text("format", "u16_be"),
    ]
}

fn payload(fields: Vec<RawField>) -> RawPayload {
    RawPayload { tag: "modbus_rtu".to_string(), fields }
}

fn with(key: &str, value: RawField) -> Vec<RawField> {
    let mut fields: Vec<RawField> = base_fields().into_iter().filter(|f| f.key != key).collect();
    fields.push(value);
    fields
}

fn event(path: &str, version: u64, fields: Vec<RawField>) -> ChangeEvent {
    ChangeEvent { path: path.to_string(), version, raw: payload(fields) }
}

fn rtu(v: &ConfigVariant) -> &collector_config::ModbusRtuConfig {
    match v {
        ConfigVariant::ModbusRtu(c) => c,
    }
}

#[test]
fn defaults_are_declared_values() {
    assert_eq!(default_1(), 1);
    assert_eq!(default_holding(), RegisterType::Holding);
    assert_eq!(default_none(), CfgParity::NoParity);
}

#[test]
fn end_to_end_minimal_payload_is_accepted_with_defaults() {
    let mut m = ConfigManager::new();
    let path = "/cfg/rtu".to_string();
    assert_eq!(m.handle_event(event("/cfg/rtu", 1, base_fields()), 1000), Outcome::Applied);
    let s = m.current_config(&path).expect("snapshot");
    assert_eq!(s.path, "/cfg/rtu");
    assert_eq!(s.version, 1);
    assert_eq!(s.accepted_at, 1000);
    let c = rtu(&s.variant);
    assert_eq!(c.serial_path, "/dev/ttyS0");
    assert_eq!(c.slave, 3);
    assert_eq!(c.baud_rate, 9600);
    assert_eq!(c.data_bits, 8);
    assert_eq!(c.stop_bits, 1);
    assert_eq!(c.register, 100);
    assert_eq!(c.format, "u16_be");
    assert_eq!(c.parity, CfgParity::NoParity);
    assert_eq!(c.count, 1);
    assert_eq!(c.register_type, RegisterType::Holding);
    assert!(m.last_rejection(&path).is_none());
}

#[test]
fn end_to_end_nine_data_bits_is_rejected_and_path_stays_unresolved() {
    let mut m = ConfigManager::new();
    let path = "/cfg/rtu".to_string();
    let out = m.handle_event(event("/cfg/rtu", 1, with("data_bits", num("data_bits", 9))), 5);
    let err = ValidationError { field: FieldName::DataBits, reason: ValidationReason::OutOfSet };
    assert_eq!(out, Outcome::Rejected(Rejection::Validation(err)));
    assert!(m.current_config(&path).is_none());
    let rec = m.last_rejection(&path).expect("record");
    assert_eq!(rec.path, "/cfg/rtu");
    assert_eq!(rec.version, 1);
    assert_eq!(rec.rejection, Rejection::Validation(err));
}

#[test]
fn end_to_end_nine_data_bits_keeps_prior_snapshot() {
    let mut m = ConfigManager::new();
    let path = "/cfg/rtu".to_string();
    assert_eq!(m.handle_event(event("/cfg/rtu", 1, base_fields()), 5), Outcome::Applied);
    let out = m.handle_event(event("/cfg/rtu", 2, with("data_bits", num("data_bits", 9))), 6);
    assert!(matches!(out, Outcome::Rejected(Rejection::Validation(e)) if e.field == FieldName::DataBits));
    let s = m.current_config(&path).expect("snapshot");
    assert_eq!(s.version, 1);
    assert_eq!(rtu(&s.variant).data_bits, 8);
}

#[test]
fn end_to_end_unknown_register_type_literal_is_parse_error() {
    let p = payload(with("register_type", text("register_type", "range")));
    assert_eq!(parse(&p).err(), Some(ParseError::UnknownLiteral(FieldName::RegisterType)));
    let mut m = ConfigManager::new();
    let out = m.handle_event(event("/p", 1, with("register_type", text("register_type", "range"))), 0);
    assert_eq!(out, Outcome::Rejected(Rejection::Parse(ParseError::UnknownLiteral(FieldName::RegisterType))));
}

#[test]
fn explicit_optional_fields_are_kept() {
    let mut fields = base_fields();
    fields.push(text("parity", "even"));
    fields.push(num("count", 4));
    fields.push(text("register_type", "coil"));
    let c = parse_modbus_rtu(&fields).expect("parses");
    assert_eq!(c.parity, CfgParity::Even);
    assert_eq!(c.count, 4);
    assert_eq!(c.register_type, RegisterType::Coil);
    assert_eq!(CfgParity::from_literal(&"odd".to_string()), Some(CfgParity::Odd));
    assert_eq!(RegisterType::from_literal(&"input".to_string()), Some(RegisterType::Input));
    assert_eq!(CfgParity::from_literal(&"None".to_string()), None);
}

#[test]
fn unknown_tag_is_parse_error() {
    let p = RawPayload { tag: "modbus_tcp".to_string(), fields: base_fields() };
    assert_eq!(parse(&p).err(), Some(ParseError::UnknownTag));
}

#[test]
fn missing_required_field_is_parse_error() {
    let fields: Vec<RawField> = base_fields().into_iter().filter(|f| f.key != "baud_rate").collect();
    assert_eq!(parse_modbus_rtu(&fields).err(), Some(ParseError::MissingField(FieldName::BaudRate)));
    let fields: Vec<RawField> = base_fields().into_iter().filter(|f| f.key != "format").collect();
    assert_eq!(parse_modbus_rtu(&fields).err(), Some(ParseError::MissingField(FieldName::Format)));
}

#[test]
fn first_failing_field_in_declaration_order_is_reported() {
    let fields = vec![num("baud_rate", 9600), text("format", "x")];
    assert_eq!(parse_modbus_rtu(&fields).err(), Some(ParseError::MissingField(FieldName::SerialPath)));
}

#[test]
fn non_numeric_baud_rate_is_type_mismatch() {
    let fields = with("baud_rate", text("baud_rate", "fast"));
    assert_eq!(parse_modbus_rtu(&fields).err(), Some(ParseError::TypeMismatch(FieldName::BaudRate)));
}

#[test]
fn slave_above_255_is_type_mismatch() {
    let fields = with("slave", num("slave", 256));
    assert_eq!(parse_modbus_rtu(&fields).err(), Some(ParseError::TypeMismatch(FieldName::Slave)));
    let fields = with("slave", num("slave", 255));
    assert_eq!(parse_modbus_rtu(&fields).expect("parses").slave, 255);
}

#[test]
fn duplicate_field_is_parse_error() {
    let mut fields = base_fields();
    fields.push(num("slave", 4));
    assert_eq!(parse_modbus_rtu(&fields).err(), Some(ParseError::DuplicateField(FieldName::Slave)));
}

#[test]
fn unknown_parity_literal_is_parse_error() {
    let fields = with("parity", text("parity", "mark"));
    assert_eq!(parse_modbus_rtu(&fields).err(), Some(ParseError::UnknownLiteral(FieldName::Parity)));
}

#[test]
fn unrelated_keys_are_ignored() {
    let fields = with("comment", text("comment", "spare"));
    assert!(parse_modbus_rtu(&fields).is_ok());
}

#[test]
fn find_field_reports_position_and_duplicates() {
    let fields = base_fields();
    assert_eq!(find_field(&fields, FieldName::Register), Lookup::At(5));
    assert_eq!(find_field(&fields, FieldName::Count), Lookup::Absent);
    let mut fields = base_fields();
    fields.push(num("register", 7));
    assert_eq!(find_field(&fields, FieldName::Register), Lookup::Duplicate);
}

fn validation_of(fields: Vec<RawField>) -> Result<(), ValidationError> {
    validate(&parse(&payload(fields)).expect("parses"))
}

#[test]
fn validation_errors_by_field() {
    let e = |field, reason| Err(ValidationError { field, reason });
    assert_eq!(validation_of(with("serial_path", text("serial_path", ""))), e(FieldName::SerialPath, ValidationReason::Empty));
    assert_eq!(validation_of(with("baud_rate", num("baud_rate", 9601))), e(FieldName::BaudRate, ValidationReason::Unsupported));
    assert_eq!(validation_of(with("baud_rate", num("baud_rate", 0))), e(FieldName::BaudRate, ValidationReason::Unsupported));
    assert_eq!(validation_of(with("data_bits", num("data_bits", 4))), e(FieldName::DataBits, ValidationReason::OutOfSet));
    assert_eq!(validation_of(with("stop_bits", num("stop_bits", 3))), e(FieldName::StopBits, ValidationReason::OutOfSet));
    assert_eq!(validation_of(with("stop_bits", num("stop_bits", 0))), e(FieldName::StopBits, ValidationReason::OutOfSet));
    assert_eq!(validation_of(with("count", num("count", 0))), e(FieldName::Count, ValidationReason::BelowMinimum));
    assert_eq!(validation_of(with("data_bits", num("data_bits", 5))), Ok(()));
    assert_eq!(validation_of(with("stop_bits", num("stop_bits", 2))), Ok(()));
}

#[test]
fn register_block_past_last_address_is_rejected() {
    let mut fields = with("register", num("register", 65535));
    fields.push(num("count", 2));
    assert_eq!(
        validation_of(fields),
        Err(ValidationError { field: FieldName::Count, reason: ValidationReason::AddressOverflow })
    );
    let mut fields = with("register", num("register", 65535));
    fields.push(num("count", 1));
    assert_eq!(validation_of(fields), Ok(()));
    let mut fields = with("register", num("register", 60000));
    fields.push(num("count", 5536));
    assert_eq!(validation_of(fields), Ok(()));
    let mut fields = with("register", num("register", 60000));
    fields.push(num("count", 5537));
    assert!(validation_of(fields).is_err());
}

#[test]
fn first_failing_check_decides_the_reason() {
    let mut fields = with("data_bits", num("data_bits", 9));
    fields.retain(|f| f.key != "stop_bits");
    fields.push(num("stop_bits", 7));
    assert_eq!(
        validation_of(fields),
        Err(ValidationError { field: FieldName::DataBits, reason: ValidationReason::OutOfSet })
    );
}

#[test]
fn supported_baud_rates() {
    assert!(is_supported_baud(9600));
    assert!(is_supported_baud(115200));
    assert!(!is_supported_baud(1));
}

#[test]
fn resolving_twice_gives_equal_snapshots_but_for_time() {
    let p = payload(base_fields());
    let a = resolve_payload(&p, "/x".to_string(), 7, 1).expect("accepted");
    let b = resolve_payload(&p, "/x".to_string(), 7, 2).expect("accepted");
    assert_eq!(a.path, b.path);
    assert_eq!(a.version, b.version);
    assert_eq!(format!("{:?}", a.variant), format!("{:?}", b.variant));
    assert_eq!((a.accepted_at, b.accepted_at), (1, 2));
    let bad = payload(with("count", num("count", 0)));
    assert_eq!(
        resolve_payload(&bad, "/x".to_string(), 7, 1).err(),
        resolve_payload(&bad, "/x".to_string(), 7, 2).err()
    );
}

#[test]
fn resolve_wraps_path_and_version() {
    let v = parse(&payload(base_fields())).expect("parses");
    let s = resolve(v, "/y".to_string(), 3, 9).expect("accepted");
    assert_eq!((s.path.as_str(), s.version, s.accepted_at), ("/y", 3, 9));
}

#[test]
fn stale_and_equal_versions_are_ignored() {
    let mut m = ConfigManager::new();
    let path = "/cfg".to_string();
    assert_eq!(m.handle_event(event("/cfg", 5, base_fields()), 1), Outcome::Applied);
    let changed = with("slave", num("slave", 9));
    assert_eq!(m.handle_event(event("/cfg", 5, changed), 2), Outcome::Ignored);
    let changed = with("slave", num("slave", 9));
    assert_eq!(m.handle_event(event("/cfg", 4, changed), 3), Outcome::Ignored);
    let s = m.current_config(&path).expect("snapshot");
    assert_eq!((s.version, s.accepted_at, rtu(&s.variant).slave), (5, 1, 3));
    let changed = with("slave", num("slave", 9));
    assert_eq!(m.handle_event(event("/cfg", 6, changed), 4), Outcome::Applied);
    let s = m.current_config(&path).expect("snapshot");
    assert_eq!((s.version, rtu(&s.variant).slave), (6, 9));
}

#[test]
fn paths_are_independent() {
    let mut m = ConfigManager::new();
    assert_eq!(m.handle_event(event("/a", 3, base_fields()), 1), Outcome::Applied);
    assert_eq!(m.handle_event(event("/b", 1, base_fields()), 1), Outcome::Applied);
    assert_eq!(m.current_config(&"/a".to_string()).expect("a").version, 3);
    assert_eq!(m.current_config(&"/b".to_string()).expect("b").version, 1);
    assert!(m.current_config(&"/c".to_string()).is_none());
}

#[test]
fn backoff_doubles_up_to_the_cap() {
    assert_eq!(backoff_for(0), 100);
    assert_eq!(backoff_for(1), 100);
    assert_eq!(backoff_for(2), 200);
    assert_eq!(backoff_for(3), 400);
    assert_eq!(backoff_for(9), 25600);
    assert_eq!(backoff_for(10), 30000);
    assert_eq!(backoff_for(u32::MAX), 30000);
}

#[test]
fn reader_passes_on_only_newer_notifications() {
    let mut r = WatchReader::new("/cfg".to_string());
    let ev = r.on_fetched(payload(base_fields()), 2).expect("first read");
    assert_eq!((ev.path.as_str(), ev.version), ("/cfg", 2));
    assert!(r.on_notification(payload(base_fields()), 2).is_none());
    assert!(r.on_notification(payload(base_fields()), 1).is_none());
    assert_eq!(r.on_notification(payload(base_fields()), 3).expect("newer").version, 3);
    assert!(r.on_fetched(payload(base_fields()), 3).is_none());
}

#[test]
fn reconnect_replays_current_version_once_and_replaces_nothing() {
    let mut m = ConfigManager::new();
    let mut r = WatchReader::new("/cfg".to_string());
    let first = r.on_fetched(payload(base_fields()), 4).expect("initial read");
    assert_eq!(m.handle_event(first, 10), Outcome::Applied);

    assert_eq!(r.on_disconnected(), 100);
    assert!(r.on_notification(payload(base_fields()), 5).is_none());
    assert_eq!(r.on_disconnected(), 200);
    r.on_reconnected();

    let replay = r.on_fetched(payload(base_fields()), 4).expect("synthetic event");
    assert_eq!(replay.version, 4);
    assert!(r.on_fetched(payload(base_fields()), 4).is_none());
    assert!(r.on_notification(payload(base_fields()), 4).is_none());

    assert_eq!(m.handle_event(replay, 20), Outcome::Ignored);
    let s = m.current_config(&"/cfg".to_string()).expect("snapshot");
    assert_eq!((s.version, s.accepted_at), (4, 10));
    assert_eq!(r.on_disconnected(), 100);
}
