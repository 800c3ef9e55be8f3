use vstd::prelude::*;

verus! {

/// Outcome of a command, decoded from the signed status byte that the sensor
/// reports in the upper byte of its status register.
#[derive(Clone, Copy, Debug, PartialEq, Eq, Structural)]
pub enum LepStatus {
    Success,
    Error,
    /// The sensor is not ready to take the command.
    Busy,
    RangeError,
    ChecksumError,
    BadArgPointer,
    DataSizeError,
    UndefinedFunction,
    FunctionNotSupported,
    DataOutOfRange,
    CommandNotAllowed,
    OtpWriteError,
    OtpReadError,
    OtpNotProgrammed,
    I2cBusNotReady,
    I2cBufferOverflow,
    I2cArbitrationLost,
    I2cBusError,
    I2cNackReceived,
    I2cFail,
    DivideByZero,
    OperationCanceled,
    UndefinedErrorCode,
    /// A code that the sensor documentation does not define.
    Unknown(i8),
}

/// The outcome that a raw status code stands for.
pub open spec fn status_of(code: i8) -> LepStatus {
    match code {
        0 => LepStatus::Success,
        -1 => LepStatus::Error,
        -2 => LepStatus::Busy,
        -3 => LepStatus::RangeError,
        -4 => LepStatus::ChecksumError,
        -5 => LepStatus::BadArgPointer,
        -6 => LepStatus::DataSizeError,
        -7 => LepStatus::UndefinedFunction,
        -8 => LepStatus::FunctionNotSupported,
        -9 => LepStatus::DataOutOfRange,
        -11 => LepStatus::CommandNotAllowed,
        -15 => LepStatus::OtpWriteError,
        -16 => LepStatus::OtpReadError,
        -18 => LepStatus::OtpNotProgrammed,
        -20 => LepStatus::I2cBusNotReady,
        -22 => LepStatus::I2cBufferOverflow,
        -23 => LepStatus::I2cArbitrationLost,
        -24 => LepStatus::I2cBusError,
        -25 => LepStatus::I2cNackReceived,
        -26 => LepStatus::I2cFail,
        -80 => LepStatus::DivideByZero,
        -126 => LepStatus::OperationCanceled,
        -127 => LepStatus::UndefinedErrorCode,
        _ => LepStatus::Unknown(code),
    }
}

/// The raw code that an outcome stands for.
pub open spec fn code_of(status: LepStatus) -> int {
    match status {
        LepStatus::Success => 0,
        LepStatus::Error => -1,
        LepStatus::Busy => -2,
        LepStatus::RangeError => -3,
        LepStatus::ChecksumError => -4,
        LepStatus::BadArgPointer => -5,
        LepStatus::DataSizeError => -6,
        LepStatus::UndefinedFunction => -7,
        LepStatus::FunctionNotSupported => -8,
        LepStatus::DataOutOfRange => -9,
        LepStatus::CommandNotAllowed => -11,
        LepStatus::OtpWriteError => -15,
        LepStatus::OtpReadError => -16,
        LepStatus::OtpNotProgrammed => -18,
        LepStatus::I2cBusNotReady => -20,
        LepStatus::I2cBufferOverflow => -22,
        LepStatus::I2cArbitrationLost => -23,
        LepStatus::I2cBusError => -24,
        LepStatus::I2cNackReceived => -25,
        LepStatus::I2cFail => -26,
        LepStatus::DivideByZero => -80,
        LepStatus::OperationCanceled => -126,
        LepStatus::UndefinedErrorCode => -127,
        LepStatus::Unknown(c) => c as int,
    }
}

/// Whether the sensor documentation gives the code a meaning of its own.
pub open spec fn is_documented(code: i8) -> bool {
    !(status_of(code) is Unknown)
}

impl LepStatus {
    /// Decodes a raw status code; every value of the domain has an outcome.
    pub fn from_code(code: i8) -> (r: LepStatus)
        ensures
            r == status_of(code),
    {
        match code {
            0 => LepStatus::Success,
            -1 => LepStatus::Error,
            -2 => LepStatus::Busy,
            -3 => LepStatus::RangeError,
            -4 => LepStatus::ChecksumError,
            -5 => LepStatus::BadArgPointer,
            -6 => LepStatus::DataSizeError,
            -7 => LepStatus::UndefinedFunction,
            -8 => LepStatus::FunctionNotSupported,
            -9 => LepStatus::DataOutOfRange,
            -11 => LepStatus::CommandNotAllowed,
            -15 => LepStatus::OtpWriteError,
            -16 => LepStatus::OtpReadError,
            -18 => LepStatus::OtpNotProgrammed,
            -20 => LepStatus::I2cBusNotReady,
            -22 => LepStatus::I2cBufferOverflow,
            -23 => LepStatus::I2cArbitrationLost,
            -24 => LepStatus::I2cBusError,
            -25 => LepStatus::I2cNackReceived,
            -26 => LepStatus::I2cFail,
            -80 => LepStatus::DivideByZero,
            -126 => LepStatus::OperationCanceled,
            -127 => LepStatus::UndefinedErrorCode,
            _ => LepStatus::Unknown(code),
        }
    }

    /// The raw code of this outcome.
    pub fn code(&self) -> (r: i8)
        ensures
            r == code_of(*self),
    {
        match *self {
            LepStatus::Success => 0,
            LepStatus::Error => -1,
            LepStatus::Busy => -2,
            LepStatus::RangeError => -3,
            LepStatus::ChecksumError => -4,
            LepStatus::BadArgPointer => -5,
            LepStatus::DataSizeError => -6,
            LepStatus::UndefinedFunction => -7,
            LepStatus::FunctionNotSupported => -8,
            LepStatus::DataOutOfRange => -9,
            LepStatus::CommandNotAllowed => -11,
            LepStatus::OtpWriteError => -15,
            LepStatus::OtpReadError => -16,
            LepStatus::OtpNotProgrammed => -18,
            LepStatus::I2cBusNotReady => -20,
            LepStatus::I2cBufferOverflow => -22,
            LepStatus::I2cArbitrationLost => -23,
            LepStatus::I2cBusError => -24,
            LepStatus::I2cNackReceived => -25,
            LepStatus::I2cFail => -26,
            LepStatus::DivideByZero => -80,
            LepStatus::OperationCanceled => -126,
            LepStatus::UndefinedErrorCode => -127,
            LepStatus::Unknown(c) => c,
        }
    }

    /// Whether the command succeeded.
    pub fn is_ok(&self) -> (r: bool)
        ensures
            r == (*self == LepStatus::Success),
    {
        match *self {
            LepStatus::Success => true,
            _ => false,
        }
    }
}

/// Decoding loses nothing: the raw code can be read back from its outcome.
pub proof fn lemma_code_round_trip(code: i8)
    ensures
        code_of(status_of(code)) == code,
{
}

/// Zero, and zero alone, means success; distinct codes give distinct
/// outcomes; a code without a documented meaning gives the generic unknown
/// outcome, never success.
pub proof fn lemma_status_taxonomy(a: i8, b: i8)
    ensures
        status_of(0) == LepStatus::Success,
        (status_of(a) == LepStatus::Success) == (a == 0),
        a != b ==> status_of(a) != status_of(b),
        !is_documented(a) ==> status_of(a) == LepStatus::Unknown(a) && status_of(a) != LepStatus::Success,
{
    lemma_code_round_trip(a);
    lemma_code_round_trip(b);
}

} // verus!
