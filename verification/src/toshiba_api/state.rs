use vstd::prelude::*;
use crate::toshiba_api::hex::{all_digits, decode_hex, hex_bytes, hex_fault, lemma_hex_fault_none};

verus! {

/// Whether the unit is switched on.
#[derive(Debug, Clone, Copy, PartialEq, Eq, Structural)]
pub enum PowerState {
    On,
    Off,
    Unknown,
}

/// The operating mode of a unit.
#[derive(Debug, Clone, Copy, PartialEq, Eq, Structural)]
pub enum AirConditionerMode {
    Auto,
    Cool,
    Heat,
    Dry,
    Fan,
    Unknown,
}

/// The fan speed of a unit.
#[derive(Debug, Clone, Copy, PartialEq, Eq, Structural)]
pub enum FanMode {
    Auto,
    Quiet,
    Low,
    MediumLow,
    Medium,
    MediumHigh,
    High,
    /// The wire code zero: no fan speed is set.
    Unset,
    Unknown,
}

/// The decoded operational snapshot of a unit.
#[derive(Debug, Clone, Copy, PartialEq, Eq, Structural)]
pub struct StateData {
    pub power_status: PowerState,
    pub mode: AirConditionerMode,
    pub target_temperature: u8,
    pub fan_mode: FanMode,
    pub swing_mode: u8,
    pub power_selection: u8,
    pub merit_a: u8,
    pub merit_b: u8,
    pub air_pure_ion: u8,
    pub indoor_temp: u8,
    pub outdoor_temp: u8,
    pub self_cleaning: u8,
}

/// Why a state payload was refused.
#[derive(Debug, Clone, Copy, PartialEq, Eq, Structural)]
pub enum DecodeError {
    /// The payload is no sequence of hexadecimal digit pairs, or it ends before the
    /// last field. `position` is the index of the offending character; for a payload
    /// that ends too early it is the payload's length, where more digits were due.
    MalformedInput { position: usize },
}

/// The offset of the last byte of a wire payload that keeps its place; the two
/// filler bytes follow it.
pub const FILLER_AFTER: usize = 6;

/// The number of bytes a canonical sequence needs for every field to be present.
pub const CANONICAL_LEN: usize = 16;

/// The number of bytes a wire payload needs for every field to be present.
pub const WIRE_LEN: usize = 14;

impl PowerState {
    /// The power state that a wire code stands for.
    pub open spec fn of_code(code: u8) -> PowerState {
        if code == 0x30 {
            PowerState::On
        } else if code == 0x31 {
            PowerState::Off
        } else {
            PowerState::Unknown
        }
    }

    /// Reads a power state from its wire code. A code outside the known set gives
    /// `Unknown`.
    pub fn from_code(code: u8) -> (r: PowerState)
        ensures
            r == PowerState::of_code(code),
            code != 0x30 && code != 0x31 ==> r == PowerState::Unknown,
    {
        match code {
            0x30 => PowerState::On,
            0x31 => PowerState::Off,
            _ => PowerState::Unknown,
        }
    }
}

impl AirConditionerMode {
    /// The operating mode that a wire code stands for.
    pub open spec fn of_code(code: u8) -> AirConditionerMode {
        if code == 0x41 {
            AirConditionerMode::Auto
        } else if code == 0x42 {
            AirConditionerMode::Cool
        } else if code == 0x43 {
            AirConditionerMode::Heat
        } else if code == 0x44 {
            AirConditionerMode::Dry
        } else if code == 0x45 {
            AirConditionerMode::Fan
        } else {
            AirConditionerMode::Unknown
        }
    }

    /// Reads an operating mode from its wire code. A code outside the known set
    /// gives `Unknown`.
    pub fn from_code(code: u8) -> (r: AirConditionerMode)
        ensures
            r == AirConditionerMode::of_code(code),
            !(0x41 <= code <= 0x45) ==> r == AirConditionerMode::Unknown,
    {
        match code {
            0x41 => AirConditionerMode::Auto,
            0x42 => AirConditionerMode::Cool,
            0x43 => AirConditionerMode::Heat,
            0x44 => AirConditionerMode::Dry,
            0x45 => AirConditionerMode::Fan,
            _ => AirConditionerMode::Unknown,
        }
    }
}

impl FanMode {
    /// The fan speed that a wire code stands for.
    pub open spec fn of_code(code: u8) -> FanMode {
        if code == 0x41 {
            FanMode::Auto
        } else if code == 0x31 {
            FanMode::Quiet
        } else if code == 0x32 {
            FanMode::Low
        } else if code == 0x33 {
            FanMode::MediumLow
        } else if code == 0x34 {
            FanMode::Medium
        } else if code == 0x35 {
            FanMode::MediumHigh
        } else if code == 0x36 {
            FanMode::High
        } else if code == 0x00 {
            FanMode::Unset
        } else {
            FanMode::Unknown
        }
    }

    /// Reads a fan speed from its wire code. A code outside the known set gives
    /// `Unknown`.
    pub fn from_code(code: u8) -> (r: FanMode)
        ensures
            r == FanMode::of_code(code),
            code != 0x41 && !(0x31 <= code <= 0x36) && code != 0x00 ==> r == FanMode::Unknown,
    {
        match code {
            0x41 => FanMode::Auto,
            0x31 => FanMode::Quiet,
            0x32 => FanMode::Low,
            0x33 => FanMode::MediumLow,
            0x34 => FanMode::Medium,
            0x35 => FanMode::MediumHigh,
            0x36 => FanMode::High,
            0x00 => FanMode::Unset,
            _ => FanMode::Unknown,
        }
    }
}

/// The canonical byte sequence of a wire payload: the payload with two zero bytes
/// put in right after its byte at offset 6, so that every later byte stands two
/// places further on.
pub open spec fn canonical(raw: Seq<u8>) -> Seq<u8>
    recommends
        raw.len() > FILLER_AFTER,
{
    raw.subrange(0, FILLER_AFTER + 1) + seq![0u8, 0u8] + raw.subrange(
        FILLER_AFTER + 1,
        raw.len() as int,
    )
}

/// The snapshot that a canonical byte sequence holds, field by field at its fixed
/// offset.
pub open spec fn state_of_canonical(bytes: Seq<u8>) -> StateData
    recommends
        bytes.len() >= CANONICAL_LEN,
{
    StateData {
        power_status: PowerState::of_code(bytes[0]),
        mode: AirConditionerMode::of_code(bytes[1]),
        target_temperature: bytes[2],
        fan_mode: FanMode::of_code(bytes[3]),
        swing_mode: bytes[4],
        power_selection: bytes[5],
        merit_a: bytes[6],
        merit_b: bytes[7],
        air_pure_ion: bytes[8],
        indoor_temp: bytes[9],
        outdoor_temp: bytes[10],
        self_cleaning: bytes[15],
    }
}

/// The place at which a payload text fails: where it stops being hexadecimal digit
/// pairs or, for a sound text that spells fewer than 14 bytes, its end. `None` for
/// a payload that can be decoded.
pub open spec fn state_fault(text: Seq<char>) -> Option<int> {
    match hex_fault(text) {
        Some(position) => Some(position),
        None => if text.len() < 2 * WIRE_LEN {
            Some(text.len() as int)
        } else {
            None
        },
    }
}

/// What a payload text decodes to.
pub open spec fn decode_state(text: Seq<char>) -> Result<StateData, DecodeError> {
    match state_fault(text) {
        Some(position) => Err(DecodeError::MalformedInput { position: position as usize }),
        None => Ok(state_of_canonical(canonical(hex_bytes(text)))),
    }
}

/// The canonical sequence is two bytes longer than the payload. The bytes up to
/// offset 6 keep their place, offsets 7 and 8 hold the zero fillers, and every
/// later byte stands two places further on.
pub proof fn lemma_canonical_layout(raw: Seq<u8>)
    requires
        raw.len() > FILLER_AFTER,
    ensures
        canonical(raw).len() == raw.len() + 2,
        forall|i: int| 0 <= i <= FILLER_AFTER ==> (#[trigger] canonical(raw)[i]) == raw[i],
        canonical(raw)[FILLER_AFTER + 1] == 0,
        canonical(raw)[FILLER_AFTER + 2] == 0,
        forall|i: int|
            FILLER_AFTER < i < raw.len() ==> canonical(raw)[i + 2] == (#[trigger] raw[i]),
{
}

/// A payload text that can be decoded: hexadecimal digits throughout, an even number
/// of them, and enough to spell 14 bytes.
pub open spec fn well_formed(text: Seq<char>) -> bool {
    &&& all_digits(text)
    &&& text.len() % 2 == 0
    &&& text.len() >= 2 * WIRE_LEN
}

/// A payload text decodes exactly when it is well formed; a fault lies inside the
/// text or at its end.
pub proof fn lemma_decodes_iff_well_formed(text: Seq<char>)
    ensures
        decode_state(text) is Ok <==> well_formed(text),
        state_fault(text) matches Some(position) ==> 0 <= position <= text.len(),
{
    lemma_hex_fault_none(text);
}

/// Decoding is a function of the canonical byte sequence alone: two well-formed
/// payloads with the same canonical bytes give the same snapshot, however their
/// digits are written.
pub proof fn lemma_decode_is_deterministic(first: Seq<char>, second: Seq<char>)
    requires
        well_formed(first),
        well_formed(second),
        canonical(hex_bytes(first)) == canonical(hex_bytes(second)),
    ensures
        decode_state(first) == decode_state(second),
        decode_state(first) is Ok,
{
    lemma_decodes_iff_well_formed(first);
    lemma_decodes_iff_well_formed(second);
}

/// A payload of fewer than 28 characters is always refused as malformed, at a
/// position no further than its end.
pub proof fn lemma_short_payload_is_malformed(text: Seq<char>)
    requires
        text.len() < 2 * WIRE_LEN,
    ensures
        decode_state(text) matches Err(DecodeError::MalformedInput { position })
            && position <= text.len(),
{
    lemma_decodes_iff_well_formed(text);
}

/// A field code outside its known set never makes a well-formed payload fail: the
/// payload decodes, and the field reads `Unknown`.
pub proof fn lemma_unrecognized_codes_read_unknown(text: Seq<char>)
    requires
        well_formed(text),
    ensures
        decode_state(text) matches Ok(state) && {
            let bytes = canonical(hex_bytes(text));
            &&& bytes[0] != 0x30 && bytes[0] != 0x31 ==> state.power_status == PowerState::Unknown
            &&& !(0x41 <= bytes[1] <= 0x45) ==> state.mode == AirConditionerMode::Unknown
            &&& bytes[3] != 0x41 && !(0x31 <= bytes[3] <= 0x36) && bytes[3] != 0x00
                ==> state.fan_mode == FanMode::Unknown
        },
{
    lemma_decodes_iff_well_formed(text);
}

/// Builds the canonical byte sequence of a wire payload. A payload without a byte
/// at offset 6 has no canonical form.
pub fn normalize(raw: &[u8]) -> (r: Option<Vec<u8>>)
    ensures
        match r {
            Some(bytes) => raw@.len() > FILLER_AFTER && bytes@ == canonical(raw@),
            None => raw@.len() <= FILLER_AFTER,
        },
{
    let n = raw.len();
    if n <= FILLER_AFTER {
        return None;
    }
    let mut bytes: Vec<u8> = Vec::new();
    let mut i: usize = 0;
    while i <= FILLER_AFTER
        invariant
            n == raw@.len(),
            n > FILLER_AFTER,
            i <= FILLER_AFTER + 1,
            bytes@ == raw@.subrange(0, i as int),
        decreases FILLER_AFTER + 1 - i,
    {
        bytes.push(raw[i]);
        i += 1;
    }
    bytes.push(0);
    bytes.push(0);
    while i < n
        invariant
            n == raw@.len(),
            FILLER_AFTER + 1 <= i <= n,
            bytes@ == raw@.subrange(0, FILLER_AFTER + 1) + seq![0u8, 0u8] + raw@.subrange(
                FILLER_AFTER + 1,
                i as int,
            ),
        decreases n - i,
    {
        bytes.push(raw[i]);
        i += 1;
    }
    Some(bytes)
}

impl StateData {
    /// Reads the snapshot out of a canonical byte sequence. A sequence that ends
    /// before the last field holds none.
    pub fn from_canonical(bytes: &[u8]) -> (r: Option<StateData>)
        ensures
            match r {
                Some(state) => bytes@.len() >= CANONICAL_LEN && state == state_of_canonical(bytes@),
                None => bytes@.len() < CANONICAL_LEN,
            },
    {
        if bytes.len() < CANONICAL_LEN {
            return None;
        }
        Some(
            StateData {
                power_status: PowerState::from_code(bytes[0]),
                mode: AirConditionerMode::from_code(bytes[1]),
                target_temperature: bytes[2],
                fan_mode: FanMode::from_code(bytes[3]),
                swing_mode: bytes[4],
                power_selection: bytes[5],
                merit_a: bytes[6],
                merit_b: bytes[7],
                air_pure_ion: bytes[8],
                indoor_temp: bytes[9],
                outdoor_temp: bytes[10],
                self_cleaning: bytes[15],
            },
        )
    }
}

/// Decodes the state payload of a unit, a text of hexadecimal digit pairs, into its
/// snapshot. A payload that is malformed or too short is refused with the index of
/// the offending character; a field code outside its known set decodes to `Unknown`.
pub fn parse_state_data(value: &str) -> (r: Result<StateData, DecodeError>)
    ensures
        r == decode_state(value@),
        r is Ok <==> well_formed(value@),
        r matches Err(DecodeError::MalformedInput { position }) ==> position <= value@.len(),
{
    proof {
        lemma_decodes_iff_well_formed(value@);
    }
    match decode_hex(value) {
        Err(position) => Err(DecodeError::MalformedInput { position }),
        Ok(raw) => match normalize(raw.as_slice()) {
            None => Err(DecodeError::MalformedInput { position: 2 * raw.len() }),
            Some(bytes) => match StateData::from_canonical(bytes.as_slice()) {
                None => Err(DecodeError::MalformedInput { position: 2 * raw.len() }),
                Some(state) => Ok(state),
            },
        },
    }
}

} // verus!
