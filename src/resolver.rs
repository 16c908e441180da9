use vstd::prelude::*;
use crate::parser::{parse, parse_spec, ParseError, RawPayload};
use vstd::string::StrSliceExecFns;
use crate::schema::{ConfigVariant, FieldName, ModbusRtuConfig, RtuConfigView, VariantView};

verus! {

/// What is wrong with a well-formed field value.
#[derive(Debug, Clone, Copy, PartialEq, Eq, Structural)]
pub enum ValidationReason {
    /// The value must not be empty.
    Empty,
    /// The value is not one the transport supports.
    Unsupported,
    /// The value is not in the field's closed set of allowed values.
    OutOfSet,
    /// The value is below the field's minimum.
    BelowMinimum,
    /// The register block runs past the last register address.
    AddressOverflow,
}

/// The first semantic check that a configuration failed.
#[derive(Debug, Clone, Copy, PartialEq, Eq, Structural)]
pub struct ValidationError {
    pub field: FieldName,
    pub reason: ValidationReason,
}

/// Why a raw payload was not accepted, by stage.
#[derive(Debug, Clone, Copy, PartialEq, Eq, Structural)]
pub enum Rejection {
    Parse(ParseError),
    Validation(ValidationError),
}

/// Baud rates the serial transport supports.
pub open spec fn supported_baud(b: u32) -> bool {
    b == 300 || b == 600 || b == 1200 || b == 2400 || b == 4800 || b == 9600 || b == 14400
        || b == 19200 || b == 38400 || b == 57600 || b == 115200
}

/// The result of the Modbus RTU checks, taken in order; the first that fails is reported.
pub open spec fn validate_rtu(c: RtuConfigView) -> Result<(), ValidationError> {
    if c.serial_path.len() == 0 {
        Err(ValidationError { field: FieldName::SerialPath, reason: ValidationReason::Empty })
    } else if !supported_baud(c.baud_rate) {
        Err(ValidationError { field: FieldName::BaudRate, reason: ValidationReason::Unsupported })
    } else if !(5 <= c.data_bits <= 8) {
        Err(ValidationError { field: FieldName::DataBits, reason: ValidationReason::OutOfSet })
    } else if !(c.stop_bits == 1 || c.stop_bits == 2) {
        Err(ValidationError { field: FieldName::StopBits, reason: ValidationReason::OutOfSet })
    } else if c.count < 1 {
        Err(ValidationError { field: FieldName::Count, reason: ValidationReason::BelowMinimum })
    } else if c.register + c.count - 1 > 65535 {
        Err(ValidationError { field: FieldName::Count, reason: ValidationReason::AddressOverflow })
    } else {
        Ok(())
    }
}

/// The result of validating a configuration variant.
pub open spec fn validate_spec(v: VariantView) -> Result<(), ValidationError> {
    match v {
        VariantView::ModbusRtu(c) => validate_rtu(c),
    }
}

/// An accepted configuration, stamped with where and when it was accepted. Never changed
/// after it is made.
#[derive(Debug)]
pub struct ConfigSnapshot {
    pub path: String,
    pub version: u64,
    pub variant: ConfigVariant,
    pub accepted_at: u64,
}

pub struct SnapshotView {
    pub path: Seq<char>,
    pub version: u64,
    pub variant: VariantView,
    pub accepted_at: u64,
}

impl View for ConfigSnapshot {
    type V = SnapshotView;

    open spec fn view(&self) -> SnapshotView {
        SnapshotView {
            path: self.path@,
            version: self.version,
            variant: self.variant@,
            accepted_at: self.accepted_at,
        }
    }
}

impl ConfigSnapshot {
    /// A field-by-field copy.
    pub fn duplicate(&self) -> (r: ConfigSnapshot)
        ensures
            r@ == self@,
    {
        ConfigSnapshot {
            path: self.path.clone(),
            version: self.version,
            variant: self.variant.duplicate(),
            accepted_at: self.accepted_at,
        }
    }
}

/// The snapshot that resolving `v` for `path` at `version` yields, or the check it fails.
pub open spec fn resolve_spec(v: VariantView, path: Seq<char>, version: u64, accepted_at: u64) -> Result<
    SnapshotView,
    ValidationError,
> {
    match validate_spec(v) {
        Ok(_) => Ok(SnapshotView { path, version, variant: v, accepted_at }),
        Err(e) => Err(e),
    }
}

/// Parsing followed by resolution of a raw payload.
pub open spec fn resolve_payload_spec(p: &RawPayload, path: Seq<char>, version: u64, accepted_at: u64) -> Result<
    SnapshotView,
    Rejection,
> {
    match parse_spec(p) {
        Err(e) => Err(Rejection::Parse(e)),
        Ok(v) => match resolve_spec(v, path, version, accepted_at) {
            Ok(s) => Ok(s),
            Err(e) => Err(Rejection::Validation(e)),
        },
    }
}

/// Whether the transport supports baud rate `b`.
pub fn is_supported_baud(b: u32) -> (r: bool)
    ensures
        r == supported_baud(b),
{
    b == 300 || b == 600 || b == 1200 || b == 2400 || b == 4800 || b == 9600 || b == 14400
        || b == 19200 || b == 38400 || b == 57600 || b == 115200
}

/// Runs the Modbus RTU checks in order and reports the first that fails.
pub fn validate_modbus_rtu(c: &ModbusRtuConfig) -> (r: Result<(), ValidationError>)
    ensures
        r == validate_rtu(c@),
{
    if c.serial_path.as_str().unicode_len() == 0 {
        Err(ValidationError { field: FieldName::SerialPath, reason: ValidationReason::Empty })
    } else if !is_supported_baud(c.baud_rate) {
        Err(ValidationError { field: FieldName::BaudRate, reason: ValidationReason::Unsupported })
    } else if !(5 <= c.data_bits && c.data_bits <= 8) {
        Err(ValidationError { field: FieldName::DataBits, reason: ValidationReason::OutOfSet })
    } else if !(c.stop_bits == 1 || c.stop_bits == 2) {
        Err(ValidationError { field: FieldName::StopBits, reason: ValidationReason::OutOfSet })
    } else if c.count < 1 {
        Err(ValidationError { field: FieldName::Count, reason: ValidationReason::BelowMinimum })
    } else if c.register as u32 + c.count as u32 - 1 > 65535 {
        Err(ValidationError { field: FieldName::Count, reason: ValidationReason::AddressOverflow })
    } else {
        Ok(())
    }
}

/// Validates a configuration variant.
pub fn validate(v: &ConfigVariant) -> (r: Result<(), ValidationError>)
    ensures
        r == validate_spec(v@),
{
    match v {
        ConfigVariant::ModbusRtu(c) => validate_modbus_rtu(c),
    }
}

/// Accepts `v` as the configuration of `path` at `version`, or reports the first check it
/// fails.
pub fn resolve(v: ConfigVariant, path: String, version: u64, accepted_at: u64) -> (r: Result<
    ConfigSnapshot,
    ValidationError,
>)
    ensures
        match (r, resolve_spec(v@, path@, version, accepted_at)) {
            (Ok(s), Ok(t)) => s@ == t,
            (Err(e), Err(g)) => e == g,
            _ => false,
        },
{
    match validate(&v) {
        Ok(()) => Ok(ConfigSnapshot { path, version, variant: v, accepted_at }),
        Err(e) => Err(e),
    }
}

/// Parses a raw payload and resolves the result.
pub fn resolve_payload(p: &RawPayload, path: String, version: u64, accepted_at: u64) -> (r: Result<
    ConfigSnapshot,
    Rejection,
>)
    ensures
        match (r, resolve_payload_spec(p, path@, version, accepted_at)) {
            (Ok(s), Ok(t)) => s@ == t,
            (Err(e), Err(g)) => e == g,
            _ => false,
        },
{
    match parse(p) {
        Err(e) => Err(Rejection::Parse(e)),
        Ok(v) => match resolve(v, path, version, accepted_at) {
            Ok(s) => Ok(s),
            Err(e) => Err(Rejection::Validation(e)),
        },
    }
}

} // verus!
