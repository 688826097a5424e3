//! The CAN wire contracts of the twin's ingress: lifecycle commands, driver controls, observed
//! ECU booleans and interpreted vehicle signals, each decoded from and encoded to a classic CAN
//! frame given as plain values.
use vstd::prelude::*;

verus! {

pub const ID_LIFECYCLE: u16 = 0x100;
pub const ID_SPEED: u16 = 0x101;
pub const ID_RPM: u16 = 0x102;
pub const ID_AMBIENT_LUX: u16 = 0x103;
/// Binary rain-presence signal from the windshield rain sensor.
pub const ID_RAIN_DETECTED: u16 = 0x104;
pub const ID_HAZARD: u16 = 0x105;
pub const ID_LEFT_TURN_REQUEST: u16 = 0x106;
pub const ID_RIGHT_TURN_REQUEST: u16 = 0x107;

/// Largest standard (11-bit) CAN identifier.
pub const MAX_STANDARD_ID: u16 = 0x7FF;

/// Payload capacity of a classic CAN frame.
pub const MAX_CLASSIC_DATA_LEN: usize = 8;

/// A CAN identifier: standard (11-bit) or extended (29-bit).
#[derive(Debug, Clone, Copy, PartialEq, Eq)]
pub enum CanId {
    Standard(u16),
    Extended(u32),
}

/// A classic CAN frame as plain values: its identifier and its payload bytes.
#[derive(Debug, Clone, PartialEq, Eq)]
pub struct RawCanFrame {
    pub id: CanId,
    pub data: Vec<u8>,
}

/// `frame` is a standard frame with identifier `id` and payload `data`.
pub open spec fn spec_frame_is(frame: RawCanFrame, id: u16, data: Seq<u8>) -> bool {
    frame.id == CanId::Standard(id) && frame.data@ == data
}

/// The big-endian `u16` in the first two bytes.
pub open spec fn spec_be_u16(hi: u8, lo: u8) -> u16 {
    (hi * 256 + lo) as u16
}

fn be_u16(hi: u8, lo: u8) -> (v: u16)
    ensures
        v == spec_be_u16(hi, lo),
{
    (hi as u16) * 256 + (lo as u16)
}

fn be_bytes(v: u16) -> (b: (u8, u8))
    ensures
        spec_be_u16(b.0, b.1) == v,
{
    ((v / 256) as u8, (v % 256) as u8)
}

/// The two-byte payload `[value, 0]`.
pub open spec fn spec_bool_payload(value: bool) -> Seq<u8> {
    seq![if value { 1u8 } else { 0u8 }, 0u8]
}

/// The boolean a strict two-byte payload carries: `[0, 0]` is false, `[1, 0]` is true.
pub open spec fn spec_decode_bool(data: Seq<u8>) -> Option<bool> {
    if data == seq![0u8, 0u8] {
        Some(false)
    } else if data == seq![1u8, 0u8] {
        Some(true)
    } else {
        None
    }
}

fn decode_bool(data: &Vec<u8>) -> (r: Option<bool>)
    ensures
        r == spec_decode_bool(data@),
{
    if data.len() == 2 && data[1] == 0 {
        if data[0] == 0 {
            proof {
                assert(data@ =~= seq![0u8, 0u8]);
            }
            return Some(false);
        }
        if data[0] == 1 {
            proof {
                assert(data@ =~= seq![1u8, 0u8]);
            }
            return Some(true);
        }
    }
    proof {
        assert(data@ != seq![0u8, 0u8] && data@ != seq![1u8, 0u8]) by {
            if data@ == seq![0u8, 0u8] || data@ == seq![1u8, 0u8] {
                assert(data@.len() == 2 && data@[1] == 0);
            }
        }
    }
    None
}

fn bool_frame(id: u16, value: bool) -> (f: RawCanFrame)
    ensures
        spec_frame_is(f, id, spec_bool_payload(value)),
{
    let mut data: Vec<u8> = Vec::new();
    data.push(if value { 1u8 } else { 0u8 });
    data.push(0u8);
    proof {
        assert(data@ =~= spec_bool_payload(value));
    }
    RawCanFrame { id: CanId::Standard(id), data }
}

/// A lifecycle request: powering the twin on or off is a command, not telemetry.
#[derive(Debug, Clone, Copy, PartialEq, Eq)]
pub enum LifecycleCommand {
    PowerOn,
    PowerOff,
}

/// The lifecycle command a frame carries: standard identifier `0x100`, exactly eight bytes,
/// opcode `1` (on) or `0` (off) followed by seven zero bytes.
pub open spec fn spec_decode_lifecycle(frame: RawCanFrame) -> Option<LifecycleCommand> {
    let d = frame.data@;
    if frame.id == CanId::Standard(ID_LIFECYCLE) && d.len() == 8 && (forall|i: int| 1 <= i < 8 ==> d[i] == 0) {
        if d[0] == 0 {
            Some(LifecycleCommand::PowerOff)
        } else if d[0] == 1 {
            Some(LifecycleCommand::PowerOn)
        } else {
            None
        }
    } else {
        None
    }
}

/// The eight-byte lifecycle payload for `opcode`.
pub open spec fn spec_lifecycle_payload(opcode: u8) -> Seq<u8> {
    seq![opcode, 0u8, 0u8, 0u8, 0u8, 0u8, 0u8, 0u8]
}

impl LifecycleCommand {
    /// Decode the strict eight-byte lifecycle contract on standard identifier `0x100`.
    pub fn from_can_frame(frame: &RawCanFrame) -> (r: Option<LifecycleCommand>)
        ensures
            r == spec_decode_lifecycle(*frame),
    {
        match frame.id {
            CanId::Standard(id) => {
                if id != ID_LIFECYCLE {
                    return None;
                }
            },
            CanId::Extended(_) => {
                return None;
            },
        }
        let data = &frame.data;
        if data.len() != 8 {
            return None;
        }
        let mut i: usize = 1;
        while i < 8
            invariant
                1 <= i <= 8,
                data@ == frame.data@,
                frame.id == CanId::Standard(ID_LIFECYCLE),
                data@.len() == 8,
                forall|j: int| 1 <= j < i ==> data@[j] == 0,
            decreases 8 - i,
        {
            if data[i] != 0 {
                proof {
                    assert(data@[i as int] != 0 && 1 <= i < 8);
                }
                return None;
            }
            i = i + 1;
        }
        if data[0] == 0 {
            Some(LifecycleCommand::PowerOff)
        } else if data[0] == 1 {
            Some(LifecycleCommand::PowerOn)
        } else {
            None
        }
    }

    /// Encode as the strict eight-byte contract on standard identifier `0x100`.
    pub fn to_can_frame(&self) -> (f: RawCanFrame)
        ensures
            spec_frame_is(f, ID_LIFECYCLE, spec_lifecycle_payload(if *self == LifecycleCommand::PowerOn { 1u8 } else { 0u8 })),
    {
        let opcode: u8 = match self {
            LifecycleCommand::PowerOn => 1,
            LifecycleCommand::PowerOff => 0,
        };
        let mut data: Vec<u8> = Vec::new();
        data.push(opcode);
        let mut i: usize = 1;
        while i < 8
            invariant
                1 <= i <= 8,
                data@.len() == i,
                data@[0] == opcode,
                forall|j: int| 1 <= j < i ==> data@[j] == 0,
            decreases 8 - i,
        {
            data.push(0u8);
            i = i + 1;
        }
        proof {
            assert(data@ =~= spec_lifecycle_payload(opcode));
        }
        RawCanFrame { id: CanId::Standard(ID_LIFECYCLE), data }
    }
}

/// A validated driver control.
#[derive(Debug, Clone, Copy, PartialEq, Eq)]
pub enum ControlSignal {
    HazardButton(bool),
}

/// The driver control a frame carries: the hazard button as a strict two-byte boolean on
/// standard identifier `0x105`.
pub open spec fn spec_decode_control(frame: RawCanFrame) -> Option<ControlSignal> {
    if frame.id == CanId::Standard(ID_HAZARD) {
        match spec_decode_bool(frame.data@) {
            Some(v) => Some(ControlSignal::HazardButton(v)),
            None => None,
        }
    } else {
        None
    }
}

impl ControlSignal {
    /// Decode the strict two-byte hazard-button contract on standard identifier `0x105`.
    pub fn from_can_frame(frame: &RawCanFrame) -> (r: Option<ControlSignal>)
        ensures
            r == spec_decode_control(*frame),
    {
        match frame.id {
            CanId::Standard(id) => {
                if id != ID_HAZARD {
                    return None;
                }
            },
            CanId::Extended(_) => {
                return None;
            },
        }
        match decode_bool(&frame.data) {
            Some(v) => Some(ControlSignal::HazardButton(v)),
            None => None,
        }
    }

    /// Encode as the strict two-byte contract on standard identifier `0x105`.
    pub fn to_can_frame(&self) -> (f: RawCanFrame)
        ensures
            f.id == CanId::Standard(ID_HAZARD),
            (*self) matches ControlSignal::HazardButton(p) && f.data@ == spec_bool_payload(p),
    {
        let ControlSignal::HazardButton(pressed) = self;
        bool_frame(ID_HAZARD, *pressed)
    }
}

/// A validated, transport-independent observation received from an ECU.
#[derive(Debug, Clone, Copy, PartialEq, Eq)]
pub enum ObservedEcuSignal {
    HazardButton(bool),
    LeftTurnRequest(bool),
    RightTurnRequest(bool),
}

/// The identifier carrying each observation.
pub open spec fn spec_observed_id(s: ObservedEcuSignal) -> u16 {
    match s {
        ObservedEcuSignal::HazardButton(_) => ID_HAZARD,
        ObservedEcuSignal::LeftTurnRequest(_) => ID_LEFT_TURN_REQUEST,
        ObservedEcuSignal::RightTurnRequest(_) => ID_RIGHT_TURN_REQUEST,
    }
}

/// The value each observation carries.
pub open spec fn spec_observed_value(s: ObservedEcuSignal) -> bool {
    match s {
        ObservedEcuSignal::HazardButton(v) => v,
        ObservedEcuSignal::LeftTurnRequest(v) => v,
        ObservedEcuSignal::RightTurnRequest(v) => v,
    }
}

/// The observation a frame carries: a strict two-byte boolean on the hazard, left-turn or
/// right-turn standard identifier.
pub open spec fn spec_decode_observed(frame: RawCanFrame) -> Option<ObservedEcuSignal> {
    match (frame.id, spec_decode_bool(frame.data@)) {
        (CanId::Standard(id), Some(v)) => if id == ID_HAZARD {
            Some(ObservedEcuSignal::HazardButton(v))
        } else if id == ID_LEFT_TURN_REQUEST {
            Some(ObservedEcuSignal::LeftTurnRequest(v))
        } else if id == ID_RIGHT_TURN_REQUEST {
            Some(ObservedEcuSignal::RightTurnRequest(v))
        } else {
            None
        },
        _ => None,
    }
}

impl ObservedEcuSignal {
    /// Decode one strict two-byte boolean observation from a standard internal frame.
    pub fn from_can_frame(frame: &RawCanFrame) -> (r: Option<ObservedEcuSignal>)
        ensures
            r == spec_decode_observed(*frame),
    {
        let id = match frame.id {
            CanId::Standard(id) => id,
            CanId::Extended(_) => {
                return None;
            },
        };
        let value = match decode_bool(&frame.data) {
            Some(v) => v,
            None => {
                return None;
            },
        };
        if id == ID_HAZARD {
            Some(ObservedEcuSignal::HazardButton(value))
        } else if id == ID_LEFT_TURN_REQUEST {
            Some(ObservedEcuSignal::LeftTurnRequest(value))
        } else if id == ID_RIGHT_TURN_REQUEST {
            Some(ObservedEcuSignal::RightTurnRequest(value))
        } else {
            None
        }
    }

    /// Encode as its strict two-byte standard internal frame.
    pub fn to_can_frame(self) -> (f: RawCanFrame)
        ensures
            spec_frame_is(f, spec_observed_id(self), spec_bool_payload(spec_observed_value(self))),
    {
        match self {
            ObservedEcuSignal::HazardButton(v) => bool_frame(ID_HAZARD, v),
            ObservedEcuSignal::LeftTurnRequest(v) => bool_frame(ID_LEFT_TURN_REQUEST, v),
            ObservedEcuSignal::RightTurnRequest(v) => bool_frame(ID_RIGHT_TURN_REQUEST, v),
        }
    }
}

/// An interpreted vehicle signal.
#[derive(Debug, Clone, Copy, PartialEq, Eq)]
pub enum VssSignal {
    /// Vehicle speed as carried on the wire, in hundredths of km/h.
    Speed(u16),
    /// Engine speed in rpm.
    EngineRpm(u16),
    /// Ambient light in lux.
    AmbientLux(u16),
    /// Rain detected by the windshield sensor.
    RainDetected(bool),
}

/// The signal a frame carries: a standard frame of at least two bytes; speed, engine speed and
/// ambient light are big-endian in the first two bytes, rain is any non-zero first byte.
pub open spec fn spec_decode_vss(frame: RawCanFrame) -> Option<VssSignal> {
    let d = frame.data@;
    match frame.id {
        CanId::Standard(id) => if d.len() < 2 {
            None
        } else if id == ID_SPEED {
            Some(VssSignal::Speed(spec_be_u16(d[0], d[1])))
        } else if id == ID_RPM {
            Some(VssSignal::EngineRpm(spec_be_u16(d[0], d[1])))
        } else if id == ID_AMBIENT_LUX {
            Some(VssSignal::AmbientLux(spec_be_u16(d[0], d[1])))
        } else if id == ID_RAIN_DETECTED {
            Some(VssSignal::RainDetected(d[0] != 0))
        } else {
            None
        },
        CanId::Extended(_) => None,
    }
}

impl VssSignal {
    /// Decode a frame into a signal.
    pub fn from_can_frame(frame: &RawCanFrame) -> (r: Option<VssSignal>)
        ensures
            r == spec_decode_vss(*frame),
    {
        let id = match frame.id {
            CanId::Standard(id) => id,
            CanId::Extended(_) => {
                return None;
            },
        };
        let data = &frame.data;
        if data.len() < 2 {
            return None;
        }
        if id == ID_SPEED {
            Some(VssSignal::Speed(be_u16(data[0], data[1])))
        } else if id == ID_RPM {
            Some(VssSignal::EngineRpm(be_u16(data[0], data[1])))
        } else if id == ID_AMBIENT_LUX {
            Some(VssSignal::AmbientLux(be_u16(data[0], data[1])))
        } else if id == ID_RAIN_DETECTED {
            Some(VssSignal::RainDetected(data[0] != 0))
        } else {
            None
        }
    }

    /// Encode a signal into its frame; decoding the frame gives the signal back, except that a
    /// rain frame always carries `0` or `1`.
    pub fn to_can_frame(&self) -> (f: RawCanFrame)
        ensures
            spec_decode_vss(f) == Some(*self),
            f.data@.len() == 2,
            f.id == CanId::Standard(match *self {
                VssSignal::Speed(_) => ID_SPEED,
                VssSignal::EngineRpm(_) => ID_RPM,
                VssSignal::AmbientLux(_) => ID_AMBIENT_LUX,
                VssSignal::RainDetected(_) => ID_RAIN_DETECTED,
            }),
            (*self) matches VssSignal::RainDetected(v) ==> f.data@ == spec_bool_payload(v),
    {
        let (id, hi, lo) = match self {
            VssSignal::Speed(v) => {
                let b = be_bytes(*v);
                (ID_SPEED, b.0, b.1)
            },
            VssSignal::EngineRpm(v) => {
                let b = be_bytes(*v);
                (ID_RPM, b.0, b.1)
            },
            VssSignal::AmbientLux(v) => {
                let b = be_bytes(*v);
                (ID_AMBIENT_LUX, b.0, b.1)
            },
            VssSignal::RainDetected(v) => (ID_RAIN_DETECTED, if *v { 1u8 } else { 0u8 }, 0u8),
        };
        let mut data: Vec<u8> = Vec::new();
        data.push(hi);
        data.push(lo);
        proof {
            assert(data@ =~= seq![hi, lo]);
        }
        RawCanFrame { id: CanId::Standard(id), data }
    }
}

/// The opcode a lifecycle command is encoded with.
pub open spec fn spec_lifecycle_opcode(c: LifecycleCommand) -> u8 {
    if c == LifecycleCommand::PowerOn {
        1
    } else {
        0
    }
}

/// A lifecycle frame decodes to the command it encodes.
pub proof fn law_lifecycle_frame_round_trip(c: LifecycleCommand, f: RawCanFrame)
    requires
        spec_frame_is(f, ID_LIFECYCLE, spec_lifecycle_payload(spec_lifecycle_opcode(c))),
    ensures
        spec_decode_lifecycle(f) == Some(c),
{
    let d = f.data@;
    assert(d.len() == 8);
    assert(forall|i: int| 1 <= i < 8 ==> d[i] == 0);
}

/// A hazard-button frame decodes to the control it encodes.
pub proof fn law_control_frame_round_trip(pressed: bool, f: RawCanFrame)
    requires
        spec_frame_is(f, ID_HAZARD, spec_bool_payload(pressed)),
    ensures
        spec_decode_control(f) == Some(ControlSignal::HazardButton(pressed)),
{
    assert(spec_bool_payload(pressed) =~= if pressed { seq![1u8, 0u8] } else { seq![0u8, 0u8] });
}

/// An observed-ECU frame decodes to the observation it encodes.
pub proof fn law_observed_frame_round_trip(s: ObservedEcuSignal, f: RawCanFrame)
    requires
        spec_frame_is(f, spec_observed_id(s), spec_bool_payload(spec_observed_value(s))),
    ensures
        spec_decode_observed(f) == Some(s),
{
    let v = spec_observed_value(s);
    assert(spec_bool_payload(v) =~= if v { seq![1u8, 0u8] } else { seq![0u8, 0u8] });
}

} // verus!
