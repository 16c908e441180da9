use vstd::prelude::*;
use vstd::string::StringExecFns;
use crate::schema::{
    field_key, modbus_rtu_tag, parity_of_literal, register_type_of_literal, CfgParity,
    ConfigVariant, FieldName, ModbusRtuConfig, RegisterType, RtuConfigView, VariantView,
};

verus! {

/// A value of a raw payload field: a number or a literal.
#[derive(Debug)]
pub enum RawValue {
    Int(u64),
    Text(String),
}

/// One `key: value` entry of a raw payload.
#[derive(Debug)]
pub struct RawField {
    pub key: String,
    pub value: RawValue,
}

/// A raw configuration node: the collector tag and its fields, as published.
#[derive(Debug)]
pub struct RawPayload {
    pub tag: String,
    pub fields: Vec<RawField>,
}

/// Why a raw payload could not be turned into a configuration variant.
#[derive(Debug, Clone, Copy, PartialEq, Eq, Structural)]
pub enum ParseError {
    UnknownTag,
    MissingField(FieldName),
    DuplicateField(FieldName),
    TypeMismatch(FieldName),
    UnknownLiteral(FieldName),
}

/// Where a key occurs among the fields of a payload.
#[derive(Debug, Clone, Copy, PartialEq, Eq, Structural)]
pub enum Lookup {
    Absent,
    At(usize),
    Duplicate,
}

/// Where `k` occurs in `s`: nowhere, once (at that index), or more than once.
pub open spec fn lookup_in(s: Seq<RawField>, k: Seq<char>) -> Lookup
    decreases s.len(),
{
    if s.len() == 0 {
        Lookup::Absent
    } else {
        let rest = lookup_in(s.drop_last(), k);
        if s.last().key@ == k {
            if rest is Absent {
                Lookup::At((s.len() - 1) as usize)
            } else {
                Lookup::Duplicate
            }
        } else {
            rest
        }
    }
}

/// A found entry lies within the fields and carries the key looked for.
pub proof fn lemma_lookup_at(s: Seq<RawField>, k: Seq<char>)
    requires
        s.len() <= usize::MAX,
    ensures
        lookup_in(s, k) is At ==> (lookup_in(s, k)->At_0 as int) < s.len()
            && s[lookup_in(s, k)->At_0 as int].key@ == k,
    decreases s.len(),
{
    if s.len() > 0 {
        lemma_lookup_at(s.drop_last(), k);
        let rest = lookup_in(s.drop_last(), k);
        if rest is At {
            assert(s.drop_last()[rest->At_0 as int] == s[rest->At_0 as int]);
        }
    }
}

/// The number held by field `f`, if present; a literal or a number above `max` is a type mismatch.
pub open spec fn int_field(s: Seq<RawField>, f: FieldName, max: u64) -> Result<Option<u64>, ParseError> {
    match lookup_in(s, field_key(f)) {
        Lookup::Absent => Ok(None),
        Lookup::Duplicate => Err(ParseError::DuplicateField(f)),
        Lookup::At(i) => match s[i as int].value {
            RawValue::Int(n) => if n <= max {
                Ok(Some(n))
            } else {
                Err(ParseError::TypeMismatch(f))
            },
            RawValue::Text(_) => Err(ParseError::TypeMismatch(f)),
        },
    }
}

/// The literal held by field `f`, if present; a number is a type mismatch.
pub open spec fn text_field(s: Seq<RawField>, f: FieldName) -> Result<Option<Seq<char>>, ParseError> {
    match lookup_in(s, field_key(f)) {
        Lookup::Absent => Ok(None),
        Lookup::Duplicate => Err(ParseError::DuplicateField(f)),
        Lookup::At(i) => match s[i as int].value {
            RawValue::Int(_) => Err(ParseError::TypeMismatch(f)),
            RawValue::Text(t) => Ok(Some(t@)),
        },
    }
}

/// A required field: absence is an error.
pub open spec fn required<T>(r: Result<Option<T>, ParseError>, f: FieldName) -> Result<T, ParseError> {
    match r {
        Ok(Some(v)) => Ok(v),
        Ok(None) => Err(ParseError::MissingField(f)),
        Err(e) => Err(e),
    }
}

/// An optional field: absence gives `d`.
pub open spec fn or_default<T>(r: Result<Option<T>, ParseError>, d: T) -> Result<T, ParseError> {
    match r {
        Ok(Some(v)) => Ok(v),
        Ok(None) => Ok(d),
        Err(e) => Err(e),
    }
}

/// The parity field, `none` when omitted.
pub open spec fn parity_field(s: Seq<RawField>) -> Result<CfgParity, ParseError> {
    match text_field(s, FieldName::Parity) {
        Ok(None) => Ok(CfgParity::NoParity),
        Ok(Some(t)) => match parity_of_literal(t) {
            Some(p) => Ok(p),
            None => Err(ParseError::UnknownLiteral(FieldName::Parity)),
        },
        Err(e) => Err(e),
    }
}

/// The register type field, `holding` when omitted.
pub open spec fn register_type_field(s: Seq<RawField>) -> Result<RegisterType, ParseError> {
    match text_field(s, FieldName::RegisterType) {
        Ok(None) => Ok(RegisterType::Holding),
        Ok(Some(t)) => match register_type_of_literal(t) {
            Some(p) => Ok(p),
            None => Err(ParseError::UnknownLiteral(FieldName::RegisterType)),
        },
        Err(e) => Err(e),
    }
}

/// The Modbus RTU configuration that the fields `s` describe; the first failing field, in
/// declaration order, decides the error. Keys of no field are ignored.
pub open spec fn parse_rtu(s: Seq<RawField>) -> Result<RtuConfigView, ParseError> {
    let serial_path = required(text_field(s, FieldName::SerialPath), FieldName::SerialPath);
    let slave = required(int_field(s, FieldName::Slave, 255), FieldName::Slave);
    let baud_rate = required(int_field(s, FieldName::BaudRate, 0xffff_ffff), FieldName::BaudRate);
    let data_bits = required(int_field(s, FieldName::DataBits, usize::MAX as u64), FieldName::DataBits);
    let parity = parity_field(s);
    let stop_bits = required(int_field(s, FieldName::StopBits, usize::MAX as u64), FieldName::StopBits);
    let register = required(int_field(s, FieldName::Register, 0xffff), FieldName::Register);
    let count = or_default(int_field(s, FieldName::Count, 0xffff), 1u64);
    let register_type = register_type_field(s);
    let format = required(text_field(s, FieldName::Format), FieldName::Format);
    if serial_path is Err {
        Err(serial_path->Err_0)
    } else if slave is Err {
        Err(slave->Err_0)
    } else if baud_rate is Err {
        Err(baud_rate->Err_0)
    } else if data_bits is Err {
        Err(data_bits->Err_0)
    } else if parity is Err {
        Err(parity->Err_0)
    } else if stop_bits is Err {
        Err(stop_bits->Err_0)
    } else if register is Err {
        Err(register->Err_0)
    } else if count is Err {
        Err(count->Err_0)
    } else if register_type is Err {
        Err(register_type->Err_0)
    } else if format is Err {
        Err(format->Err_0)
    } else {
        Ok(
            RtuConfigView {
                serial_path: serial_path->Ok_0,
                slave: slave->Ok_0 as u8,
                baud_rate: baud_rate->Ok_0 as u32,
                data_bits: data_bits->Ok_0 as usize,
                parity: parity->Ok_0,
                stop_bits: stop_bits->Ok_0 as usize,
                register: register->Ok_0 as u16,
                count: count->Ok_0 as u16,
                register_type: register_type->Ok_0,
                format: format->Ok_0,
            },
        )
    }
}

/// The configuration variant that payload `p` describes.
pub open spec fn parse_spec(p: &RawPayload) -> Result<VariantView, ParseError> {
    if p.tag@ == modbus_rtu_tag() {
        match parse_rtu(p.fields@) {
            Ok(c) => Ok(VariantView::ModbusRtu(c)),
            Err(e) => Err(e),
        }
    } else {
        Err(ParseError::UnknownTag)
    }
}

/// Finds the entry of field `f` among `fields`.
pub fn find_field(fields: &Vec<RawField>, f: FieldName) -> (r: Lookup)
    ensures
        r == lookup_in(fields@, field_key(f)),
        r is At ==> (r->At_0 as int) < fields@.len(),
{
    let k = f.key();
    let mut res = Lookup::Absent;
    let mut i: usize = 0;
    while i < fields.len()
        invariant
            i <= fields@.len(),
            k@ == field_key(f),
            res == lookup_in(fields@.subrange(0, i as int), k@),
        decreases fields@.len() - i,
    {
        let ghost prev = fields@.subrange(0, i as int);
        assert(fields@.subrange(0, i as int + 1).drop_last() =~= prev);
        if fields[i].key == k {
            res = match res {
                Lookup::Absent => Lookup::At(i),
                _ => Lookup::Duplicate,
            };
        }
        i = i + 1;
    }
    assert(fields@.subrange(0, fields@.len() as int) =~= fields@);
    proof {
        lemma_lookup_at(fields@, k@);
    }
    res
}

/// Reads field `f` as a number no greater than `max`.
fn read_int(fields: &Vec<RawField>, f: FieldName, max: u64) -> (r: Result<Option<u64>, ParseError>)
    ensures
        r == int_field(fields@, f, max),
{
    match find_field(fields, f) {
        Lookup::Absent => Ok(None),
        Lookup::Duplicate => Err(ParseError::DuplicateField(f)),
        Lookup::At(i) => match &fields[i].value {
            RawValue::Int(n) => if *n <= max {
                Ok(Some(*n))
            } else {
                Err(ParseError::TypeMismatch(f))
            },
            RawValue::Text(_) => Err(ParseError::TypeMismatch(f)),
        },
    }
}

/// Reads field `f` as a literal.
fn read_text(fields: &Vec<RawField>, f: FieldName) -> (r: Result<Option<String>, ParseError>)
    ensures
        match (r, text_field(fields@, f)) {
            (Ok(Some(t)), Ok(Some(u))) => t@ == u,
            (Ok(None), Ok(None)) => true,
            (Err(e), Err(g)) => e == g,
            _ => false,
        },
{
    match find_field(fields, f) {
        Lookup::Absent => Ok(None),
        Lookup::Duplicate => Err(ParseError::DuplicateField(f)),
        Lookup::At(i) => match &fields[i].value {
            RawValue::Int(_) => Err(ParseError::TypeMismatch(f)),
            RawValue::Text(t) => Ok(Some(t.clone())),
        },
    }
}

/// Reads a required literal field.
fn read_required_text(fields: &Vec<RawField>, f: FieldName) -> (r: Result<String, ParseError>)
    ensures
        match (r, required(text_field(fields@, f), f)) {
            (Ok(t), Ok(u)) => t@ == u,
            (Err(e), Err(g)) => e == g,
            _ => false,
        },
{
    match read_text(fields, f) {
        Ok(Some(t)) => Ok(t),
        Ok(None) => Err(ParseError::MissingField(f)),
        Err(e) => Err(e),
    }
}

/// Reads a required numeric field no greater than `max`.
fn read_required_int(fields: &Vec<RawField>, f: FieldName, max: u64) -> (r: Result<u64, ParseError>)
    ensures
        r == required(int_field(fields@, f, max), f),
        r is Ok ==> r->Ok_0 <= max,
{
    match read_int(fields, f, max) {
        Ok(Some(n)) => Ok(n),
        Ok(None) => Err(ParseError::MissingField(f)),
        Err(e) => Err(e),
    }
}

/// Reads the parity field, `none` when omitted.
fn read_parity(fields: &Vec<RawField>) -> (r: Result<CfgParity, ParseError>)
    ensures
        r == parity_field(fields@),
{
    match read_text(fields, FieldName::Parity) {
        Ok(None) => Ok(crate::schema::default_none()),
        Ok(Some(t)) => match CfgParity::from_literal(&t) {
            Some(p) => Ok(p),
            None => Err(ParseError::UnknownLiteral(FieldName::Parity)),
        },
        Err(e) => Err(e),
    }
}

/// Reads the register type field, `holding` when omitted.
fn read_register_type(fields: &Vec<RawField>) -> (r: Result<RegisterType, ParseError>)
    ensures
        r == register_type_field(fields@),
{
    match read_text(fields, FieldName::RegisterType) {
        Ok(None) => Ok(crate::schema::default_holding()),
        Ok(Some(t)) => match RegisterType::from_literal(&t) {
            Some(p) => Ok(p),
            None => Err(ParseError::UnknownLiteral(FieldName::RegisterType)),
        },
        Err(e) => Err(e),
    }
}

/// Decodes the fields of a Modbus RTU payload, filling in the defaults of omitted optional
/// fields.
pub fn parse_modbus_rtu(fields: &Vec<RawField>) -> (r: Result<ModbusRtuConfig, ParseError>)
    ensures
        match (r, parse_rtu(fields@)) {
            (Ok(c), Ok(v)) => c@ == v,
            (Err(e), Err(g)) => e == g,
            _ => false,
        },
{
    let serial_path = match read_required_text(fields, FieldName::SerialPath) {
        Ok(v) => v,
        Err(e) => return Err(e),
    };
    let slave = match read_required_int(fields, FieldName::Slave, 255) {
        Ok(v) => v as u8,
        Err(e) => return Err(e),
    };
    let baud_rate = match read_required_int(fields, FieldName::BaudRate, 0xffff_ffff) {
        Ok(v) => v as u32,
        Err(e) => return Err(e),
    };
    let data_bits = match read_required_int(fields, FieldName::DataBits, usize::MAX as u64) {
        Ok(v) => v as usize,
        Err(e) => return Err(e),
    };
    let parity = match read_parity(fields) {
        Ok(v) => v,
        Err(e) => return Err(e),
    };
    let stop_bits = match read_required_int(fields, FieldName::StopBits, usize::MAX as u64) {
        Ok(v) => v as usize,
        Err(e) => return Err(e),
    };
    let register = match read_required_int(fields, FieldName::Register, 0xffff) {
        Ok(v) => v as u16,
        Err(e) => return Err(e),
    };
    let count = match read_int(fields, FieldName::Count, 0xffff) {
        Ok(Some(v)) => v as u16,
        Ok(None) => crate::schema::default_1(),
        Err(e) => return Err(e),
    };
    let register_type = match read_register_type(fields) {
        Ok(v) => v,
        Err(e) => return Err(e),
    };
    let format = match read_required_text(fields, FieldName::Format) {
        Ok(v) => v,
        Err(e) => return Err(e),
    };
    Ok(
        ModbusRtuConfig {
            serial_path,
            slave,
            baud_rate,
            data_bits,
            parity,
            stop_bits,
            register,
            count,
            register_type,
            format,
        },
    )
}

/// Decodes a raw payload into the configuration variant its tag selects.
pub fn parse(p: &RawPayload) -> (r: Result<ConfigVariant, ParseError>)
    ensures
        match (r, parse_spec(p)) {
            (Ok(c), Ok(v)) => c@ == v,
            (Err(e), Err(g)) => e == g,
            _ => false,
        },
{
    if p.tag == String::from_str("modbus_rtu") {
        match parse_modbus_rtu(&p.fields) {
            Ok(c) => Ok(ConfigVariant::ModbusRtu(c)),
            Err(e) => Err(e),
        }
    } else {
        Err(ParseError::UnknownTag)
    }
}

} // verus!
