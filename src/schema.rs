use vstd::prelude::*;
use vstd::string::StringExecFns;

verus! {

/// Parity setting of the serial line.
#[derive(Debug, Clone, Copy, PartialEq, Eq, Structural)]
pub enum CfgParity {
    NoParity,
    Odd,
    Even,
}

/// Which Modbus table the register block is read from.
#[derive(Debug, Clone, Copy, PartialEq, Eq, Structural)]
pub enum RegisterType {
    Holding,
    Input,
    Coil,
}

/// The fields of the Modbus RTU schema, in declaration order.
#[derive(Debug, Clone, Copy, PartialEq, Eq, Structural)]
pub enum FieldName {
    SerialPath,
    Slave,
    BaudRate,
    DataBits,
    Parity,
    StopBits,
    Register,
    Count,
    RegisterType,
    Format,
}

/// The key under which a field appears in a raw payload.
pub open spec fn field_key(f: FieldName) -> Seq<char> {
    match f {
        FieldName::SerialPath => "serial_path"@,
        FieldName::Slave => "slave"@,
        FieldName::BaudRate => "baud_rate"@,
        FieldName::DataBits => "data_bits"@,
        FieldName::Parity => "parity"@,
        FieldName::StopBits => "stop_bits"@,
        FieldName::Register => "register"@,
        FieldName::Count => "count"@,
        FieldName::RegisterType => "register_type"@,
        FieldName::Format => "format"@,
    }
}

impl FieldName {
    /// The raw payload key of this field.
    pub fn key(&self) -> (r: String)
        ensures
            r@ == field_key(*self),
    {
        match self {
            FieldName::SerialPath => String::from_str("serial_path"),
            FieldName::Slave => String::from_str("slave"),
            FieldName::BaudRate => String::from_str("baud_rate"),
            FieldName::DataBits => String::from_str("data_bits"),
            FieldName::Parity => String::from_str("parity"),
            FieldName::StopBits => String::from_str("stop_bits"),
            FieldName::Register => String::from_str("register"),
            FieldName::Count => String::from_str("count"),
            FieldName::RegisterType => String::from_str("register_type"),
            FieldName::Format => String::from_str("format"),
        }
    }
}

/// The parity named by a lower-case literal, if any.
pub open spec fn parity_of_literal(t: Seq<char>) -> Option<CfgParity> {
    if t == "none"@ {
        Some(CfgParity::NoParity)
    } else if t == "odd"@ {
        Some(CfgParity::Odd)
    } else if t == "even"@ {
        Some(CfgParity::Even)
    } else {
        None
    }
}

/// The register type named by a lower-case literal, if any.
pub open spec fn register_type_of_literal(t: Seq<char>) -> Option<RegisterType> {
    if t == "holding"@ {
        Some(RegisterType::Holding)
    } else if t == "input"@ {
        Some(RegisterType::Input)
    } else if t == "coil"@ {
        Some(RegisterType::Coil)
    } else {
        None
    }
}

impl CfgParity {
    /// Recognises `none`, `odd` and `even`; any other literal is refused.
    pub fn from_literal(t: &String) -> (r: Option<CfgParity>)
        ensures
            r == parity_of_literal(t@),
    {
        if *t == String::from_str("none") {
            Some(CfgParity::NoParity)
        } else if *t == String::from_str("odd") {
            Some(CfgParity::Odd)
        } else if *t == String::from_str("even") {
            Some(CfgParity::Even)
        } else {
            None
        }
    }
}

impl RegisterType {
    /// Recognises `holding`, `input` and `coil`; any other literal is refused.
    pub fn from_literal(t: &String) -> (r: Option<RegisterType>)
        ensures
            r == register_type_of_literal(t@),
    {
        if *t == String::from_str("holding") {
            Some(RegisterType::Holding)
        } else if *t == String::from_str("input") {
            Some(RegisterType::Input)
        } else if *t == String::from_str("coil") {
            Some(RegisterType::Coil)
        } else {
            None
        }
    }
}

/// Default register block length.
pub fn default_1() -> (r: u16)
    ensures
        r == 1,
{
    1
}

/// Default register table.
pub fn default_holding() -> (r: RegisterType)
    ensures
        r == RegisterType::Holding,
{
    RegisterType::Holding
}

/// Default parity.
pub fn default_none() -> (r: CfgParity)
    ensures
        r == CfgParity::NoParity,
{
    CfgParity::NoParity
}

/// Serial Modbus RTU collector settings, fully populated.
#[derive(Debug)]
pub struct ModbusRtuConfig {
    pub serial_path: String,
    pub slave: u8,
    pub baud_rate: u32,
    pub data_bits: usize,
    pub parity: CfgParity,
    pub stop_bits: usize,
    pub register: u16,
    pub count: u16,
    pub register_type: RegisterType,
    /// Decode descriptor handed to the register decoder; only its presence is checked.
    pub format: String,
}

/// The value of a `ModbusRtuConfig`, with its strings as character sequences.
pub struct RtuConfigView {
    pub serial_path: Seq<char>,
    pub slave: u8,
    pub baud_rate: u32,
    pub data_bits: usize,
    pub parity: CfgParity,
    pub stop_bits: usize,
    pub register: u16,
    pub count: u16,
    pub register_type: RegisterType,
    pub format: Seq<char>,
}

impl View for ModbusRtuConfig {
    type V = RtuConfigView;

    open spec fn view(&self) -> RtuConfigView {
        RtuConfigView {
            serial_path: self.serial_path@,
            slave: self.slave,
            baud_rate: self.baud_rate,
            data_bits: self.data_bits,
            parity: self.parity,
            stop_bits: self.stop_bits,
            register: self.register,
            count: self.count,
            register_type: self.register_type,
            format: self.format@,
        }
    }
}

impl ModbusRtuConfig {
    /// A field-by-field copy.
    pub fn duplicate(&self) -> (r: ModbusRtuConfig)
        ensures
            r@ == self@,
    {
        ModbusRtuConfig {
            serial_path: self.serial_path.clone(),
            slave: self.slave,
            baud_rate: self.baud_rate,
            data_bits: self.data_bits,
            parity: self.parity,
            stop_bits: self.stop_bits,
            register: self.register,
            count: self.count,
            register_type: self.register_type,
            format: self.format.clone(),
        }
    }
}

/// The collector kinds a payload can describe, keyed by their tag.
#[derive(Debug)]
pub enum ConfigVariant {
    ModbusRtu(ModbusRtuConfig),
}

pub enum VariantView {
    ModbusRtu(RtuConfigView),
}

impl View for ConfigVariant {
    type V = VariantView;

    open spec fn view(&self) -> VariantView {
        match self {
            ConfigVariant::ModbusRtu(c) => VariantView::ModbusRtu(c@),
        }
    }
}

impl ConfigVariant {
    pub fn duplicate(&self) -> (r: ConfigVariant)
        ensures
            r@ == self@,
    {
        match self {
            ConfigVariant::ModbusRtu(c) => ConfigVariant::ModbusRtu(c.duplicate()),
        }
    }
}

/// The tag of the Modbus RTU variant.
pub open spec fn modbus_rtu_tag() -> Seq<char> {
    "modbus_rtu"@
}

} // verus!
