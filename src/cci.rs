use vstd::prelude::*;
use crate::command::{
    be_bytes, be_word, command_of, register_address, to_be, Direction, LepCommand, Parameter,
    Register,
};
use crate::status::{status_of, LepStatus};

verus! {

/// The fixed 7-bit bus address of the sensor's control channel.
pub const CCI_ADDRESS: u8 = 0x2a;

/// How long to wait, in milliseconds, between two polls of the busy bit.
pub const POLL_INTERVAL_MS: u32 = 1;

/// One step of a control-channel transaction.
#[derive(Clone, Copy, Debug, PartialEq, Eq, Structural)]
pub enum Step {
    /// Write a 16-bit value to a register.
    Write(Register, u16),
    /// Poll the status register until the interface is no longer busy.
    AwaitReady,
    /// Read a register and keep its value.
    Read(Register),
}

/// What the bus must do next for a session.
#[derive(Clone, Copy, Debug, PartialEq, Eq)]
pub enum BusAction {
    /// Write these bytes to the device: register address, then value.
    Write { bytes: [u8; 4] },
    /// Write this register address, then read two bytes back.
    WriteRead { address: [u8; 2] },
    /// Wait one poll interval.
    Sleep,
    /// Nothing is left to do.
    Done,
}

/// What the bus did.
#[derive(Clone, Copy, Debug, PartialEq, Eq)]
pub enum BusEvent {
    Written,
    Read { data: [u8; 2] },
    Slept,
}

/// Why a session gave no result.
#[derive(Clone, Copy, Debug, PartialEq, Eq, Structural)]
pub enum CciError {
    /// The busy bit stayed set for as many polls as the session allows.
    Unresponsive,
    /// The session has not run to its end, or read no status.
    Incomplete,
}

/// True iff the sensor has booted: bit 1 of the status register.
pub open spec fn boot_status_of(status_register: u16) -> bool {
    status_register & 2 != 0
}

/// True iff the interface is ready: bit 0 of the status register is clear.
pub open spec fn interface_ready_of(status_register: u16) -> bool {
    status_register & 1 == 0
}

/// The outcome that the upper byte of the status register reports.
pub open spec fn status_code_of(status_register: u16) -> LepStatus {
    status_of((status_register >> 8) as u8 as i8)
}

/// The steps that run a command: the payload, if any, into the data
/// register, then the data length, then the command identifier (writing the
/// identifier starts the command), then the wait for the interface.
pub open spec fn command_steps(c: LepCommand, payload: Option<u16>) -> Seq<Step> {
    let head = match payload {
        Some(v) => seq![Step::Write(Register::CCIDataReg0, v)],
        None => Seq::<Step>::empty(),
    };
    head + seq![
        Step::Write(Register::CCIDataLength, c.data_length),
        Step::Write(Register::CCICommandID, c.command_id),
        Step::AwaitReady,
    ]
}

/// The steps that write a parameter and then read the status.
pub open spec fn set_steps(p: Parameter, v: u16) -> Seq<Step> {
    command_steps(command_of(p, Direction::Write), Some(v)) + seq![Step::Read(Register::CCIStatus)]
}

/// The steps that read a parameter, then its value, then the status.
pub open spec fn get_steps(p: Parameter) -> Seq<Step> {
    command_steps(command_of(p, Direction::Read), None) + seq![
        Step::Read(Register::CCIDataReg0),
        Step::Read(Register::CCIStatus),
    ]
}

/// The steps that read the status register once.
pub open spec fn status_steps() -> Seq<Step> {
    seq![Step::Read(Register::CCIStatus)]
}

/// A control-channel transaction in progress: the steps to run, how far it
/// got, and what it read.
pub struct CciSession {
    pub plan: Vec<Step>,
    pub position: usize,
    /// Polls that found the interface busy in the current wait.
    pub polls: u32,
    /// The last poll found the interface busy: wait before the next one.
    pub sleeping: bool,
    /// The most busy polls allowed in one wait; none means no bound.
    pub max_polls: Option<u32>,
    /// The values of the registers read by `Step::Read`, in order.
    pub reads: Vec<u16>,
    pub unresponsive: bool,
}

impl CciSession {
    /// Whether the session has nothing left to do.
    pub open spec fn done(&self) -> bool {
        self.unresponsive || self.position >= self.plan@.len()
    }

    /// Whether every step ran.
    pub open spec fn finished(&self) -> bool {
        !self.unresponsive && self.position >= self.plan@.len()
    }

    /// A fresh session for a plan.
    pub fn new(plan: Vec<Step>, max_polls: Option<u32>) -> (r: CciSession)
        ensures
            r.plan@ == plan@,
            r.position == 0,
            r.polls == 0,
            !r.sleeping,
            r.max_polls == max_polls,
            r.reads@.len() == 0,
            !r.unresponsive,
    {
        CciSession {
            plan,
            position: 0,
            polls: 0,
            sleeping: false,
            max_polls,
            reads: Vec::new(),
            unresponsive: false,
        }
    }

    pub fn is_done(&self) -> (r: bool)
        ensures
            r == self.done(),
    {
        self.unresponsive || self.position >= self.plan.len()
    }

    /// The bus action that the current step asks for.
    pub fn next_action(&self) -> (r: BusAction)
        ensures
            self.done() ==> r == BusAction::Done,
            !self.done() ==> match self.plan@[self.position as int] {
                Step::Write(reg, v) => r is Write && r->bytes@ == be_bytes(register_address(reg))
                    + be_bytes(v),
                Step::AwaitReady => if self.sleeping {
                    r == BusAction::Sleep
                } else {
                    r is WriteRead && r->address@ == be_bytes(
                        register_address(Register::CCIStatus),
                    )
                },
                Step::Read(reg) => r is WriteRead && r->address@ == be_bytes(
                    register_address(reg),
                ),
            },
    {
        if self.is_done() {
            return BusAction::Done;
        }
        match self.plan[self.position] {
            Step::Write(reg, v) => BusAction::Write { bytes: LEPTONCCI::write_register(reg, v) },
            Step::AwaitReady => {
                if self.sleeping {
                    BusAction::Sleep
                } else {
                    BusAction::WriteRead { address: to_be(Register::CCIStatus.address()) }
                }
            },
            Step::Read(reg) => BusAction::WriteRead { address: to_be(reg.address()) },
        }
    }

    /// Moves the session on by what the bus did. An event that is not the
    /// answer to the current action leaves the session as it was.
    pub fn on_event(&mut self, event: BusEvent)
        ensures
            final(self).plan@ == old(self).plan@,
            final(self).max_polls == old(self).max_polls,
            ({
                let s = *old(self);
                let t = *final(self);
                let unchanged = t.position == s.position && t.polls == s.polls && t.sleeping
                    == s.sleeping && t.reads@ == s.reads@ && t.unresponsive == s.unresponsive;
                if s.done() {
                    unchanged
                } else {
                    match (s.plan@[s.position as int], event) {
                        (Step::Write(_, _), BusEvent::Written) => t.position == s.position + 1
                            && t.polls == s.polls && t.sleeping == s.sleeping && t.reads@
                            == s.reads@ && !t.unresponsive,
                        (Step::AwaitReady, BusEvent::Read { data }) => if s.sleeping {
                            unchanged
                        } else if interface_ready_of(be_word(data@[0], data@[1])) {
                            t.position == s.position + 1 && t.polls == 0 && !t.sleeping
                                && t.reads@ == s.reads@ && !t.unresponsive
                        } else {
                            let polls = if s.polls < u32::MAX {
                                s.polls + 1
                            } else {
                                s.polls as int
                            };
                            t.position == s.position && t.polls == polls && t.sleeping
                                && t.reads@ == s.reads@ && t.unresponsive == match s.max_polls {
                                Some(m) => polls >= m,
                                None => false,
                            }
                        },
                        (Step::AwaitReady, BusEvent::Slept) => if s.sleeping {
                            t.position == s.position && t.polls == s.polls && !t.sleeping
                                && t.reads@ == s.reads@ && !t.unresponsive
                        } else {
                            unchanged
                        },
                        (Step::Read(_), BusEvent::Read { data }) => t.position == s.position + 1
                            && t.polls == s.polls && t.sleeping == s.sleeping && t.reads@
                            == s.reads@.push(be_word(data@[0], data@[1])) && !t.unresponsive,
                        _ => unchanged,
                    }
                }
            }),
    {
        if self.unresponsive || self.position >= self.plan.len() {
            return ;
        }
        let step = self.plan[self.position];
        let next = self.position + 1;
        match (step, event) {
            (Step::Write(_, _), BusEvent::Written) => {
                self.position = next;
            },
            (Step::AwaitReady, BusEvent::Read { data }) => {
                if !self.sleeping {
                    let value = crate::command::from_be(data);
                    if value & 1 == 0 {
                        self.position = next;
                        self.polls = 0;
                    } else {
                        if self.polls < u32::MAX {
                            self.polls = self.polls + 1;
                        }
                        self.sleeping = true;
                        self.unresponsive = match self.max_polls {
                            Some(m) => self.polls >= m,
                            None => false,
                        };
                    }
                }
            },
            (Step::AwaitReady, BusEvent::Slept) => {
                if self.sleeping {
                    self.sleeping = false;
                }
            },
            (Step::Read(_), BusEvent::Read { data }) => {
                let value = crate::command::from_be(data);
                self.reads.push(value);
                self.position = next;
            },
            _ => {},
        }
    }
}

impl CciSession {
    /// Whether this is a session that has not started, with the given bound
    /// on polls.
    pub open spec fn is_fresh(&self, max_polls: Option<u32>) -> bool {
        self.position == 0 && self.polls == 0 && !self.sleeping && self.max_polls == max_polls
            && self.reads@.len() == 0 && !self.unresponsive
    }

    /// Why the session has no result that needs `needed` reads, if it has none.
    pub open spec fn read_error(&self, needed: nat) -> Option<CciError> {
        if self.unresponsive {
            Some(CciError::Unresponsive)
        } else if !self.finished() || self.reads@.len() < needed {
            Some(CciError::Incomplete)
        } else {
            None
        }
    }

    /// The value of the status register, read last.
    pub open spec fn last_read(&self) -> u16 {
        self.reads@[self.reads@.len() - 1]
    }

    fn check_reads(&self, needed: usize) -> (r: Option<CciError>)
        ensures
            r == self.read_error(needed as nat),
    {
        if self.unresponsive {
            Some(CciError::Unresponsive)
        } else if self.position < self.plan.len() || self.reads.len() < needed {
            Some(CciError::Incomplete)
        } else {
            None
        }
    }

    /// Whether the sensor has booted, from the status read last.
    pub fn boot_status(&self) -> (r: Result<bool, CciError>)
        ensures
            match self.read_error(1) {
                Some(e) => r == Err::<bool, CciError>(e),
                None => r == Ok::<bool, CciError>(boot_status_of(self.last_read())),
            },
    {
        match self.check_reads(1) {
            Some(e) => Err(e),
            None => Ok(self.reads[self.reads.len() - 1] & 2 != 0),
        }
    }

    /// Whether the interface is ready, from the status read last.
    pub fn interface_status(&self) -> (r: Result<bool, CciError>)
        ensures
            match self.read_error(1) {
                Some(e) => r == Err::<bool, CciError>(e),
                None => r == Ok::<bool, CciError>(interface_ready_of(self.last_read())),
            },
    {
        match self.check_reads(1) {
            Some(e) => Err(e),
            None => Ok(self.reads[self.reads.len() - 1] & 1 == 0),
        }
    }

    /// The outcome that the status read last reports.
    pub fn status_code(&self) -> (r: Result<LepStatus, CciError>)
        ensures
            match self.read_error(1) {
                Some(e) => r == Err::<LepStatus, CciError>(e),
                None => r == Ok::<LepStatus, CciError>(status_code_of(self.last_read())),
            },
    {
        match self.check_reads(1) {
            Some(e) => Err(e),
            None => Ok(LepStatus::from_code((self.reads[self.reads.len() - 1] >> 8) as u8 as i8)),
        }
    }

    /// The value read first, with the outcome that the status read last
    /// reports.
    pub fn value_and_status(&self) -> (r: Result<(u16, LepStatus), CciError>)
        ensures
            match self.read_error(2) {
                Some(e) => r == Err::<(u16, LepStatus), CciError>(e),
                None => r == Ok::<(u16, LepStatus), CciError>(
                    (self.reads@[0], status_code_of(self.last_read())),
                ),
            },
    {
        match self.check_reads(2) {
            Some(e) => Err(e),
            None => {
                let status = LepStatus::from_code((self.reads[self.reads.len() - 1] >> 8) as u8 as i8);
                Ok((self.reads[0], status))
            },
        }
    }

    /// As `value_and_status`, with the value read as a signed word.
    pub fn signed_value_and_status(&self) -> (r: Result<(i16, LepStatus), CciError>)
        ensures
            match self.read_error(2) {
                Some(e) => r == Err::<(i16, LepStatus), CciError>(e),
                None => r == Ok::<(i16, LepStatus), CciError>(
                    (self.reads@[0] as i16, status_code_of(self.last_read())),
                ),
            },
    {
        match self.value_and_status() {
            Err(e) => Err(e),
            Ok((v, status)) => Ok((v as i16, status)),
        }
    }
}

/// The control-channel driver: the device address and the bound on polls
/// that its sessions take.
#[allow(non_camel_case_types)]
#[derive(Clone, Copy, Debug, PartialEq, Eq, Structural)]
pub struct LEPTONCCI {
    pub address: u8,
    pub max_polls: Option<u32>,
}

impl LEPTONCCI {
    /// The driver that `new` makes.
    pub open spec fn new_spec() -> LEPTONCCI {
        LEPTONCCI { address: CCI_ADDRESS, max_polls: None }
    }

    /// A driver at the sensor's address whose waits are unbounded.
    pub fn new() -> (r: LEPTONCCI)
        ensures
            r == Self::new_spec(),
    {
        LEPTONCCI { address: CCI_ADDRESS, max_polls: None }
    }

    /// The same driver, with each wait for the interface bounded.
    pub fn with_max_polls(self, max_polls: u32) -> (r: LEPTONCCI)
        ensures
            r.address == self.address,
            r.max_polls == Some(max_polls),
    {
        LEPTONCCI { address: self.address, max_polls: Some(max_polls) }
    }

    /// The bytes of a register write: the register address, then the value.
    pub fn write_register(register: Register, value: u16) -> (r: [u8; 4])
        ensures
            r@ == be_bytes(register_address(register)) + be_bytes(value),
    {
        let a = to_be(register.address());
        let b = to_be(value);
        let bytes = [a[0], a[1], b[0], b[1]];
        assert(bytes@ =~= be_bytes(register_address(register)) + be_bytes(value));
        bytes
    }

    /// The steps that run a command with an optional payload.
    pub fn write_command(command: LepCommand, payload: Option<u16>) -> (r: Vec<Step>)
        ensures
            r@ == command_steps(command, payload),
    {
        let mut steps: Vec<Step> = Vec::new();
        match payload {
            Some(v) => steps.push(Step::Write(Register::CCIDataReg0, v)),
            None => {},
        }
        steps.push(Step::Write(Register::CCIDataLength, command.data_length));
        steps.push(Step::Write(Register::CCICommandID, command.command_id));
        steps.push(Step::AwaitReady);
        assert(steps@ =~= command_steps(command, payload));
        steps
    }

    /// A session that reads the status register once.
    fn status_session(&self) -> (r: CciSession)
        ensures
            r.plan@ == status_steps(),
            r.is_fresh(self.max_polls),
    {
        let mut steps: Vec<Step> = Vec::new();
        steps.push(Step::Read(Register::CCIStatus));
        assert(steps@ =~= status_steps());
        CciSession::new(steps, self.max_polls)
    }

    /// A session whose `boot_status` tells whether the sensor has booted.
    pub fn get_boot_status(&self) -> (r: CciSession)
        ensures
            r.plan@ == status_steps(),
            r.is_fresh(self.max_polls),
    {
        self.status_session()
    }

    /// A session whose `interface_status` tells whether the interface is ready.
    pub fn get_interface_status(&self) -> (r: CciSession)
        ensures
            r.plan@ == status_steps(),
            r.is_fresh(self.max_polls),
    {
        self.status_session()
    }

    /// A session whose `status_code` gives the sensor's current status.
    pub fn get_status_code(&self) -> (r: CciSession)
        ensures
            r.plan@ == status_steps(),
            r.is_fresh(self.max_polls),
    {
        self.status_session()
    }

    /// A session that writes a parameter; its `status_code` gives the outcome.
    pub fn set_parameter(&self, parameter: Parameter, value: u16) -> (r: CciSession)
        ensures
            r.plan@ == set_steps(parameter, value),
            r.is_fresh(self.max_polls),
    {
        let mut steps = Self::write_command(LepCommand::encode(parameter, Direction::Write), Some(value));
        steps.push(Step::Read(Register::CCIStatus));
        assert(steps@ =~= set_steps(parameter, value));
        CciSession::new(steps, self.max_polls)
    }

    /// A session that reads a parameter; its `value_and_status` gives the
    /// value and the outcome.
    pub fn get_parameter(&self, parameter: Parameter) -> (r: CciSession)
        ensures
            r.plan@ == get_steps(parameter),
            r.is_fresh(self.max_polls),
    {
        let mut steps = Self::write_command(LepCommand::encode(parameter, Direction::Read), None);
        steps.push(Step::Read(Register::CCIDataReg0));
        steps.push(Step::Read(Register::CCIStatus));
        assert(steps@ =~= get_steps(parameter));
        CciSession::new(steps, self.max_polls)
    }

    pub fn set_phase_delay(&self, phase_delay: i16) -> (r: CciSession)
        ensures
            r.plan@ == set_steps(Parameter::PhaseDelay, phase_delay as u16),
            r.is_fresh(self.max_polls),
    {
        self.set_parameter(Parameter::PhaseDelay, phase_delay as u16)
    }

    pub fn get_phase_delay(&self) -> (r: CciSession)
        ensures
            r.plan@ == get_steps(Parameter::PhaseDelay),
            r.is_fresh(self.max_polls),
    {
        self.get_parameter(Parameter::PhaseDelay)
    }

    pub fn set_gpio_mode(&self, gpio_mode: u16) -> (r: CciSession)
        ensures
            r.plan@ == set_steps(Parameter::GpioMode, gpio_mode),
            r.is_fresh(self.max_polls),
    {
        self.set_parameter(Parameter::GpioMode, gpio_mode)
    }

    pub fn get_gpio_mode(&self) -> (r: CciSession)
        ensures
            r.plan@ == get_steps(Parameter::GpioMode),
            r.is_fresh(self.max_polls),
    {
        self.get_parameter(Parameter::GpioMode)
    }
}

/// In the steps of a command, the payload comes first, the data length is
/// written before the command identifier, and only one step writes the
/// identifier: the one just before the wait, which ends the steps.
pub proof fn lemma_length_precedes_command_id(c: LepCommand, payload: Option<u16>)
    ensures
        ({
            let steps = command_steps(c, payload);
            let n = steps.len();
            &&& n >= 3
            &&& steps[n - 3] == Step::Write(Register::CCIDataLength, c.data_length)
            &&& steps[n - 2] == Step::Write(Register::CCICommandID, c.command_id)
            &&& steps[n - 1] == Step::AwaitReady
            &&& forall|i: int| 0 <= i < n - 2 ==> !(#[trigger] steps[i] matches Step::Write(Register::CCICommandID, _))
            &&& payload matches Some(v) ==> steps[0] == Step::Write(Register::CCIDataReg0, v)
        }),
{
    let steps = command_steps(c, payload);
    assert forall|i: int| 0 <= i < steps.len() - 2 implies !(#[trigger] steps[i] matches Step::Write(Register::CCICommandID, _)) by {
        match payload {
            Some(v) => assert(i == 0 || i == 1),
            None => assert(i == 0),
        }
    }
}

} // verus!
