use vstd::prelude::*;

verus! {

/// A control-channel register.
#[derive(Clone, Copy, Debug, PartialEq, Eq, Structural)]
pub enum Register {
    CCIPower,
    CCIStatus,
    CCICommandID,
    CCIDataLength,
    CCIDataReg0,
}

/// The bus address of a register.
pub open spec fn register_address(r: Register) -> u16 {
    match r {
        Register::CCIPower => 0x0000,
        Register::CCIStatus => 0x0002,
        Register::CCICommandID => 0x0004,
        Register::CCIDataLength => 0x0006,
        Register::CCIDataReg0 => 0x0008,
    }
}

impl Register {
    pub fn address(&self) -> (r: u16)
        ensures
            r == register_address(*self),
    {
        match *self {
            Register::CCIPower => 0x0000,
            Register::CCIStatus => 0x0002,
            Register::CCICommandID => 0x0004,
            Register::CCIDataLength => 0x0006,
            Register::CCIDataReg0 => 0x0008,
        }
    }
}

/// A sensor parameter that can be read and written by command.
#[derive(Clone, Copy, Debug, PartialEq, Eq, Structural)]
pub enum Parameter {
    PhaseDelay,
    GpioMode,
    VideoOutputSource,
    VideoOutputConstant,
    TelemetryMode,
    AgcEnable,
}

/// Whether a command reads or writes its parameter.
#[derive(Clone, Copy, Debug, PartialEq, Eq, Structural)]
pub enum Direction {
    Read,
    Write,
}

/// Bytes of payload that every parameter command carries: one 16-bit word.
pub const PARAMETER_PAYLOAD_BYTES: u16 = 2;

/// The command identifier of a parameter's get command: module, and
/// operation within the module, with the direction bit clear.
pub open spec fn base_id(p: Parameter) -> u16 {
    match p {
        Parameter::PhaseDelay => 0x4858,
        Parameter::GpioMode => 0x4854,
        Parameter::VideoOutputSource => 0x482C,
        Parameter::VideoOutputConstant => 0x483C,
        Parameter::TelemetryMode => 0x0218,
        Parameter::AgcEnable => 0x0100,
    }
}

/// The command identifier for an operation: the set command is the get
/// command with the lowest bit raised.
pub open spec fn command_id_of(p: Parameter, d: Direction) -> u16 {
    match d {
        Direction::Read => base_id(p),
        Direction::Write => (base_id(p) + 1) as u16,
    }
}

/// A control command: the identifier that selects the operation and the
/// length in bytes of its payload.
#[derive(Clone, Copy, Debug, PartialEq, Eq, Structural)]
pub struct LepCommand {
    pub command_id: u16,
    pub data_length: u16,
}

/// The command for an operation on a parameter.
pub open spec fn command_of(p: Parameter, d: Direction) -> LepCommand {
    LepCommand { command_id: command_id_of(p, d), data_length: PARAMETER_PAYLOAD_BYTES }
}

/// The two bytes of a word, most significant first.
pub open spec fn be_bytes(v: u16) -> Seq<u8> {
    seq![(v / 256) as u8, (v % 256) as u8]
}

/// The word that two bytes give, the first the most significant.
pub open spec fn be_word(hi: u8, lo: u8) -> u16 {
    (hi as int * 256 + lo as int) as u16
}

/// Splits a word into its two bytes, most significant first.
pub fn to_be(v: u16) -> (r: [u8; 2])
    ensures
        r@ == be_bytes(v),
{
    [(v / 256) as u8, (v % 256) as u8]
}

/// Joins two bytes into a word, the first the most significant.
pub fn from_be(b: [u8; 2]) -> (r: u16)
    ensures
        r == be_word(b@[0], b@[1]),
{
    b[0] as u16 * 256 + b[1] as u16
}

/// A word survives being split into bytes and joined again.
pub proof fn lemma_be_round_trip(v: u16)
    ensures
        be_word(be_bytes(v)[0], be_bytes(v)[1]) == v,
{
}

impl LepCommand {
    /// The command for an operation on a parameter.
    pub fn encode(p: Parameter, d: Direction) -> (r: LepCommand)
        ensures
            r == command_of(p, d),
    {
        let base: u16 = match p {
            Parameter::PhaseDelay => 0x4858,
            Parameter::GpioMode => 0x4854,
            Parameter::VideoOutputSource => 0x482C,
            Parameter::VideoOutputConstant => 0x483C,
            Parameter::TelemetryMode => 0x0218,
            Parameter::AgcEnable => 0x0100,
        };
        let command_id = match d {
            Direction::Read => base,
            Direction::Write => base + 1,
        };
        LepCommand { command_id, data_length: PARAMETER_PAYLOAD_BYTES }
    }

    /// The command identifier as sent on the bus.
    pub fn get_command_id(&self) -> (r: [u8; 2])
        ensures
            r@ == be_bytes(self.command_id),
    {
        to_be(self.command_id)
    }

    /// The payload length as sent on the bus.
    pub fn get_data_length(&self) -> (r: [u8; 2])
        ensures
            r@ == be_bytes(self.data_length),
    {
        to_be(self.data_length)
    }

    /// Rebuilds a command from its identifier and length bytes.
    pub fn from_wire(command_id: [u8; 2], data_length: [u8; 2]) -> (r: LepCommand)
        ensures
            r.command_id == be_word(command_id@[0], command_id@[1]),
            r.data_length == be_word(data_length@[0], data_length@[1]),
    {
        LepCommand { command_id: from_be(command_id), data_length: from_be(data_length) }
    }

    pub fn get_oem_phase_delay() -> (r: LepCommand)
        ensures
            r == command_of(Parameter::PhaseDelay, Direction::Read),
    {
        Self::encode(Parameter::PhaseDelay, Direction::Read)
    }

    pub fn set_oem_phase_delay() -> (r: LepCommand)
        ensures
            r == command_of(Parameter::PhaseDelay, Direction::Write),
    {
        Self::encode(Parameter::PhaseDelay, Direction::Write)
    }

    pub fn get_oem_gpio_mode() -> (r: LepCommand)
        ensures
            r == command_of(Parameter::GpioMode, Direction::Read),
    {
        Self::encode(Parameter::GpioMode, Direction::Read)
    }

    pub fn set_oem_gpio_mode() -> (r: LepCommand)
        ensures
            r == command_of(Parameter::GpioMode, Direction::Write),
    {
        Self::encode(Parameter::GpioMode, Direction::Write)
    }
}

/// A get and a set of the same parameter never share an identifier; they
/// differ in the lowest bit alone.
pub proof fn lemma_get_set_differ(p: Parameter)
    ensures
        command_of(p, Direction::Read) != command_of(p, Direction::Write),
        command_id_of(p, Direction::Read) % 2 == 0,
        command_id_of(p, Direction::Write) == command_id_of(p, Direction::Read) + 1,
{
}

/// Distinct operations are encoded as distinct commands.
pub proof fn lemma_encoding_injective(p: Parameter, d: Direction, q: Parameter, e: Direction)
    ensures
        command_of(p, d) == command_of(q, e) ==> p == q && d == e,
{
}

/// A command sent as its identifier and length bytes is rebuilt exactly.
pub proof fn lemma_wire_round_trip(c: LepCommand)
    ensures
        ({
            let id = be_bytes(c.command_id);
            let len = be_bytes(c.data_length);
            LepCommand { command_id: be_word(id[0], id[1]), data_length: be_word(len[0], len[1]) } == c
        }),
{
    lemma_be_round_trip(c.command_id);
    lemma_be_round_trip(c.data_length);
}

} // verus!
