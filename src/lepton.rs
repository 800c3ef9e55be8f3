use vstd::prelude::*;
use vstd::slice::slice_subrange;
use crate::cci::{get_steps, set_steps, status_steps, CciSession, LEPTONCCI};
use crate::command::Parameter;
use crate::packet::{
    line_id, packet_verdict, validate_packet, DiscardReason, PacketVerdict, PACKET_SIZE,
};

verus! {

/// Packets in one frame.
pub const FRAME_PACKETS: usize = 60;

/// Bytes in one frame: sixty packets.
pub const FRAME_SIZE: usize = 9840;

/// Bytes that follow the first packet of a frame.
pub const FRAME_REST_SIZE: usize = 9676;

/// What one capture cycle did to the frame buffer.
#[derive(Clone, Copy, Debug, PartialEq, Eq, Structural)]
pub enum FrameOutcome {
    /// Every packet passed: the new frame replaced the buffer.
    Published,
    /// A packet failed, the first being the one at `index`: the buffer kept
    /// its frame.
    Discarded { index: usize, reason: DiscardReason },
    /// The first packet does not open a frame: nothing was assembled.
    NotSynchronized,
}

/// Packet `i` of a frame.
pub open spec fn packet_of(frame: Seq<u8>, i: int) -> Seq<u8> {
    frame.subrange(i * PACKET_SIZE, i * PACKET_SIZE + PACKET_SIZE)
}

/// Whether every packet of a frame passes validation.
pub open spec fn frame_valid(frame: Seq<u8>) -> bool {
    forall|i: int| 0 <= i < FRAME_PACKETS ==> packet_verdict(#[trigger] packet_of(frame, i))
        == PacketVerdict::Accept
}

/// Whether a packet opens a frame: its line identifier is zero.
pub open spec fn opens_frame(packet: Seq<u8>) -> bool {
    line_id(packet) == 0
}

/// The frame buffer after a capture cycle that found `first` as the opening
/// packet and read `rest` after it.
pub open spec fn frame_after(buffer: Seq<u8>, first: Seq<u8>, rest: Seq<u8>) -> Seq<u8> {
    if opens_frame(first) && frame_valid(first + rest) {
        first + rest
    } else {
        buffer
    }
}

/// The device: its control-channel driver and the last frame that passed
/// validation.
pub struct Lepton {
    cci: LEPTONCCI,
    frame: Vec<u8>,
}

impl Lepton {
    #[verifier::type_invariant]
    spec fn frame_is_whole(&self) -> bool {
        self.frame@.len() == FRAME_SIZE
    }

    /// The control-channel driver.
    pub closed spec fn driver(&self) -> LEPTONCCI {
        self.cci
    }

    /// The frame buffer's contents.
    pub closed spec fn frame(&self) -> Seq<u8> {
        self.frame@
    }

    /// A device with an empty (all-zero) frame buffer.
    pub fn new() -> (r: Lepton)
        ensures
            r.driver() == LEPTONCCI::new_spec(),
            r.frame() == Seq::new(FRAME_SIZE as nat, |i: int| 0u8),
    {
        let mut frame: Vec<u8> = Vec::with_capacity(FRAME_SIZE);
        let mut i: usize = 0;
        while i < FRAME_SIZE
            invariant
                i <= FRAME_SIZE,
                frame@ == Seq::new(i as nat, |j: int| 0u8),
            decreases FRAME_SIZE - i,
        {
            frame.push(0);
            i = i + 1;
            assert(frame@ =~= Seq::new(i as nat, |j: int| 0u8));
        }
        Lepton { cci: LEPTONCCI::new(), frame }
    }

    /// The same device, with each wait of its control channel bounded.
    pub fn with_max_polls(self, max_polls: u32) -> (r: Lepton)
        ensures
            r.driver() == (LEPTONCCI { address: self.driver().address, max_polls: Some(max_polls) }),
            r.frame() == self.frame(),
    {
        proof {
            use_type_invariant(&self);
        }
        Lepton { cci: self.cci.with_max_polls(max_polls), frame: self.frame }
    }

    /// The control-channel driver.
    pub fn cci(&self) -> (r: LEPTONCCI)
        ensures
            r == self.driver(),
    {
        self.cci
    }

    /// Writes the phase delay; the session's `status_code` gives the outcome.
    pub fn set_phase_delay(&self, phase_delay: i16) -> (r: CciSession)
        ensures
            r.plan@ == set_steps(Parameter::PhaseDelay, phase_delay as u16),
            r.is_fresh(self.driver().max_polls),
    {
        self.cci.set_parameter(Parameter::PhaseDelay, phase_delay as u16)
    }

    /// Reads the phase delay; the session's `signed_value_and_status` gives it.
    pub fn get_phase_delay(&self) -> (r: CciSession)
        ensures
            r.plan@ == get_steps(Parameter::PhaseDelay),
            r.is_fresh(self.driver().max_polls),
    {
        self.cci.get_parameter(Parameter::PhaseDelay)
    }

    pub fn set_gpio_mode(&self, gpio_mode: u16) -> (r: CciSession)
        ensures
            r.plan@ == set_steps(Parameter::GpioMode, gpio_mode),
            r.is_fresh(self.driver().max_polls),
    {
        self.cci.set_parameter(Parameter::GpioMode, gpio_mode)
    }

    pub fn get_gpio_mode(&self) -> (r: CciSession)
        ensures
            r.plan@ == get_steps(Parameter::GpioMode),
            r.is_fresh(self.driver().max_polls),
    {
        self.cci.get_parameter(Parameter::GpioMode)
    }

    pub fn set_video_output_source(&self, source: u16) -> (r: CciSession)
        ensures
            r.plan@ == set_steps(Parameter::VideoOutputSource, source),
            r.is_fresh(self.driver().max_polls),
    {
        self.cci.set_parameter(Parameter::VideoOutputSource, source)
    }

    pub fn get_video_output_source(&self) -> (r: CciSession)
        ensures
            r.plan@ == get_steps(Parameter::VideoOutputSource),
            r.is_fresh(self.driver().max_polls),
    {
        self.cci.get_parameter(Parameter::VideoOutputSource)
    }

    pub fn set_video_output_constant(&self, constant: u16) -> (r: CciSession)
        ensures
            r.plan@ == set_steps(Parameter::VideoOutputConstant, constant),
            r.is_fresh(self.driver().max_polls),
    {
        self.cci.set_parameter(Parameter::VideoOutputConstant, constant)
    }

    pub fn get_video_output_constant(&self) -> (r: CciSession)
        ensures
            r.plan@ == get_steps(Parameter::VideoOutputConstant),
            r.is_fresh(self.driver().max_polls),
    {
        self.cci.get_parameter(Parameter::VideoOutputConstant)
    }

    pub fn set_telemetry_mode(&self, mode: u16) -> (r: CciSession)
        ensures
            r.plan@ == set_steps(Parameter::TelemetryMode, mode),
            r.is_fresh(self.driver().max_polls),
    {
        self.cci.set_parameter(Parameter::TelemetryMode, mode)
    }

    pub fn get_telemetry_mode(&self) -> (r: CciSession)
        ensures
            r.plan@ == get_steps(Parameter::TelemetryMode),
            r.is_fresh(self.driver().max_polls),
    {
        self.cci.get_parameter(Parameter::TelemetryMode)
    }

    pub fn set_agc_enable(&self, enable: u16) -> (r: CciSession)
        ensures
            r.plan@ == set_steps(Parameter::AgcEnable, enable),
            r.is_fresh(self.driver().max_polls),
    {
        self.cci.set_parameter(Parameter::AgcEnable, enable)
    }

    pub fn get_agc_enable(&self) -> (r: CciSession)
        ensures
            r.plan@ == get_steps(Parameter::AgcEnable),
            r.is_fresh(self.driver().max_polls),
    {
        self.cci.get_parameter(Parameter::AgcEnable)
    }

    /// A session whose `boot_status` tells whether the sensor has booted.
    pub fn get_boot_status(&self) -> (r: CciSession)
        ensures
            r.plan@ == status_steps(),
            r.is_fresh(self.driver().max_polls),
    {
        self.cci.get_boot_status()
    }

    /// A session whose `interface_status` tells whether the interface is ready.
    pub fn get_interface_status(&self) -> (r: CciSession)
        ensures
            r.plan@ == status_steps(),
            r.is_fresh(self.driver().max_polls),
    {
        self.cci.get_interface_status()
    }

    /// A session whose `status_code` gives the sensor's current status.
    pub fn get_status_code(&self) -> (r: CciSession)
        ensures
            r.plan@ == status_steps(),
            r.is_fresh(self.driver().max_polls),
    {
        self.cci.get_status_code()
    }

    /// The last frame that passed validation.
    pub fn get_frame(&self) -> (r: &[u8])
        ensures
            r@ == self.frame(),
            r@.len() == FRAME_SIZE,
    {
        proof {
            use_type_invariant(self);
        }
        self.frame.as_slice()
    }

    /// Whether a packet read while searching for a frame opens one.
    pub fn check_packet(packet: &[u8]) -> (r: bool)
        requires
            packet@.len() == PACKET_SIZE,
        ensures
            r == opens_frame(packet@),
    {
        packet[0] == 0 && packet[1] == 0
    }

    /// Assembles the frame that `first_packet` opens and `rest` completes,
    /// validates every packet, and replaces the buffer only if all pass.
    pub fn read_frame(&mut self, first_packet: &[u8], rest: &[u8]) -> (r: FrameOutcome)
        requires
            first_packet@.len() == PACKET_SIZE,
            rest@.len() == FRAME_REST_SIZE,
        ensures
            final(self).driver() == old(self).driver(),
            final(self).frame() == frame_after(old(self).frame(), first_packet@, rest@),
            !opens_frame(first_packet@) ==> r == FrameOutcome::NotSynchronized,
            opens_frame(first_packet@) && frame_valid(first_packet@ + rest@) ==> r
                == FrameOutcome::Published,
            opens_frame(first_packet@) && !frame_valid(first_packet@ + rest@) ==> match r {
                FrameOutcome::Discarded { index, reason } => {
                    &&& index < FRAME_PACKETS
                    &&& packet_verdict(packet_of(first_packet@ + rest@, index as int))
                        == PacketVerdict::Discard(reason)
                    &&& forall|j: int|
                        0 <= j < index ==> packet_verdict(#[trigger] packet_of(
                            first_packet@ + rest@,
                            j,
                        )) == PacketVerdict::Accept
                },
                _ => false,
            },
    {
        if !Self::check_packet(first_packet) {
            return FrameOutcome::NotSynchronized;
        }
        let mut frame: Vec<u8> = Vec::with_capacity(FRAME_SIZE);
        frame.extend_from_slice(first_packet);
        frame.extend_from_slice(rest);
        let ghost assembled = first_packet@ + rest@;
        assert(frame@ =~= assembled);
        let mut i: usize = 0;
        while i < FRAME_PACKETS
            invariant
                i <= FRAME_PACKETS,
                opens_frame(first_packet@),
                assembled == first_packet@ + rest@,
                *self == *old(self),
                frame@ == assembled,
                assembled.len() == FRAME_SIZE,
                forall|j: int| 0 <= j < i ==> packet_verdict(#[trigger] packet_of(assembled, j))
                    == PacketVerdict::Accept,
            decreases FRAME_PACKETS - i,
        {
            let start = i * PACKET_SIZE;
            let packet = slice_subrange(frame.as_slice(), start, start + PACKET_SIZE);
            assert(packet@ == packet_of(assembled, i as int));
            match validate_packet(packet) {
                PacketVerdict::Accept => {},
                PacketVerdict::Discard(reason) => {
                    assert(!frame_valid(assembled));
                    return FrameOutcome::Discarded { index: i, reason };
                },
            }
            i = i + 1;
        }
        assert(frame_valid(assembled));
        self.frame = frame;
        FrameOutcome::Published
    }
}

/// A capture cycle whose first packet does not open a frame assembles
/// nothing: the buffer keeps its frame whatever the packets hold.
pub proof fn lemma_no_assembly_without_frame_start(buffer: Seq<u8>, first: Seq<u8>, rest: Seq<u8>)
    requires
        first.len() == PACKET_SIZE,
        rest.len() == FRAME_REST_SIZE,
        !opens_frame(first),
    ensures
        frame_after(buffer, first, rest) == buffer,
{
}

/// A frame whose sixty packets all pass replaces the buffer with exactly
/// that frame; a frame with a packet that fails (one carrying the discard
/// marker, or one whose checksum does not match) leaves the buffer as it was.
pub proof fn lemma_publish_only_valid_frames(
    buffer: Seq<u8>,
    first: Seq<u8>,
    rest: Seq<u8>,
    bad: int,
)
    requires
        first.len() == PACKET_SIZE,
        rest.len() == FRAME_REST_SIZE,
        opens_frame(first),
    ensures
        frame_valid(first + rest) ==> frame_after(buffer, first, rest) == first + rest,
        frame_valid(first + rest) ==> frame_after(first + rest, first, rest) == first + rest,
        0 <= bad < FRAME_PACKETS && packet_verdict(packet_of(first + rest, bad))
            != PacketVerdict::Accept ==> frame_after(buffer, first, rest) == buffer,
{
}

/// A frame with a packet that carries the discard marker never replaces the
/// buffer.
pub proof fn lemma_marked_packet_keeps_buffer(buffer: Seq<u8>, first: Seq<u8>, rest: Seq<u8>, bad: int)
    requires
        first.len() == PACKET_SIZE,
        rest.len() == FRAME_REST_SIZE,
        0 <= bad < FRAME_PACKETS,
        crate::packet::is_discard_marked(packet_of(first + rest, bad)),
    ensures
        frame_after(buffer, first, rest) == buffer,
{
    assert((first + rest).len() == FRAME_SIZE);
    assert(packet_of(first + rest, bad).len() == PACKET_SIZE);
    crate::packet::lemma_marked_is_discarded(packet_of(first + rest, bad));
}

} // verus!
