//! Decoder settings, mirroring the native configuration record.
use vstd::prelude::*;

verus! {

/// Native code of `DecodeFrameType::All`.
pub const DAV1D_DECODEFRAMETYPE_ALL: u32 = 0;
/// Native code of `DecodeFrameType::Reference`.
pub const DAV1D_DECODEFRAMETYPE_REFERENCE: u32 = 1;
/// Native code of `DecodeFrameType::Intra`.
pub const DAV1D_DECODEFRAMETYPE_INTRA: u32 = 2;
/// Native code of `DecodeFrameType::Key`.
pub const DAV1D_DECODEFRAMETYPE_KEY: u32 = 3;

/// Native bit of the deblocking filter.
pub const DAV1D_INLOOPFILTER_DEBLOCK: u32 = 1;
/// Native bit of the CDEF filter.
pub const DAV1D_INLOOPFILTER_CDEF: u32 = 2;
/// Native bit of the loop restoration filter.
pub const DAV1D_INLOOPFILTER_RESTORATION: u32 = 4;
/// All native in-loop filter bits.
pub const DAV1D_INLOOPFILTER_ALL: u32 = 7;

/// Set of in-loop filters the decoder applies.
#[derive(Debug, Copy, Clone, PartialEq, Eq, Structural)]
pub struct InloopFilterType {
    bits: u32,
}

impl InloopFilterType {
    /// The deblocking filter alone.
    pub fn deblock() -> (r: InloopFilterType)
        ensures
            r.spec_bits() == DAV1D_INLOOPFILTER_DEBLOCK,
    {
        InloopFilterType { bits: DAV1D_INLOOPFILTER_DEBLOCK }
    }

    /// The constrained directional enhancement filter alone.
    pub fn cdef() -> (r: InloopFilterType)
        ensures
            r.spec_bits() == DAV1D_INLOOPFILTER_CDEF,
    {
        InloopFilterType { bits: DAV1D_INLOOPFILTER_CDEF }
    }

    /// The loop restoration filter alone.
    pub fn restoration() -> (r: InloopFilterType)
        ensures
            r.spec_bits() == DAV1D_INLOOPFILTER_RESTORATION,
    {
        InloopFilterType { bits: DAV1D_INLOOPFILTER_RESTORATION }
    }

    /// The native bits of the set.
    pub closed spec fn spec_bits(self) -> u32 {
        self.bits
    }

    /// The native bitmask of the set.
    pub fn bits(&self) -> (r: u32)
        ensures
            r == self.spec_bits(),
            r <= DAV1D_INLOOPFILTER_ALL <== self.spec_bits() <= DAV1D_INLOOPFILTER_ALL,
    {
        self.bits
    }

    /// The set of the known filter bits in `bits`; other bits are dropped.
    pub fn from_bits_truncate(bits: u32) -> (r: InloopFilterType)
        ensures
            r.spec_bits() == bits & DAV1D_INLOOPFILTER_ALL,
            r.spec_bits() <= DAV1D_INLOOPFILTER_ALL,
    {
        assert(bits & 7u32 <= 7u32) by (bit_vector);
        InloopFilterType { bits: bits & DAV1D_INLOOPFILTER_ALL }
    }

    /// The empty set.
    pub fn empty() -> (r: InloopFilterType)
        ensures
            r.spec_bits() == 0,
    {
        InloopFilterType { bits: 0 }
    }

    /// All three filters.
    pub fn all() -> (r: InloopFilterType)
        ensures
            r.spec_bits() == DAV1D_INLOOPFILTER_ALL,
    {
        InloopFilterType { bits: DAV1D_INLOOPFILTER_ALL }
    }

    /// Whether every filter of `other` is in the set.
    pub fn contains(&self, other: InloopFilterType) -> (r: bool)
        ensures
            r <==> self.spec_bits() & other.spec_bits() == other.spec_bits(),
    {
        self.bits & other.bits == other.bits
    }

    /// The filters of both sets.
    pub fn union(self, other: InloopFilterType) -> (r: InloopFilterType)
        ensures
            r.spec_bits() == self.spec_bits() | other.spec_bits(),
    {
        InloopFilterType { bits: self.bits | other.bits }
    }
}

/// Which frames the decoder decodes.
#[derive(Debug, Copy, Clone, PartialEq, Eq, Structural)]
pub enum DecodeFrameType {
    /// All frames.
    All,
    /// Reference frames only.
    Reference,
    /// Intra frames only.
    Intra,
    /// Key frames only.
    Key,
}

impl Default for DecodeFrameType {
    fn default() -> (r: DecodeFrameType)
        ensures
            r == DecodeFrameType::All,
    {
        DecodeFrameType::All
    }
}

/// The error returned when a native enumeration value is not recognised.
#[derive(Debug, Copy, Clone, PartialEq, Eq)]
pub struct TryFromEnumError(pub ());

impl TryFromEnumError {
    /// Human-readable text of the error.
    pub fn description(&self) -> (r: &'static str)
        ensures
            r@ == "Invalid enum value"@,
    {
        proof {
            reveal_strlit("Invalid enum value");
        }
        "Invalid enum value"
    }
}

impl DecodeFrameType {
    /// The native code of a decode frame type.
    pub open spec fn spec_code(self) -> u32 {
        match self {
            DecodeFrameType::All => DAV1D_DECODEFRAMETYPE_ALL,
            DecodeFrameType::Reference => DAV1D_DECODEFRAMETYPE_REFERENCE,
            DecodeFrameType::Intra => DAV1D_DECODEFRAMETYPE_INTRA,
            DecodeFrameType::Key => DAV1D_DECODEFRAMETYPE_KEY,
        }
    }

    /// The decode frame type of a native code, if the code is one.
    pub open spec fn spec_from_code(value: u32) -> Result<DecodeFrameType, TryFromEnumError> {
        if value == DAV1D_DECODEFRAMETYPE_ALL {
            Ok(DecodeFrameType::All)
        } else if value == DAV1D_DECODEFRAMETYPE_REFERENCE {
            Ok(DecodeFrameType::Reference)
        } else if value == DAV1D_DECODEFRAMETYPE_INTRA {
            Ok(DecodeFrameType::Intra)
        } else if value == DAV1D_DECODEFRAMETYPE_KEY {
            Ok(DecodeFrameType::Key)
        } else {
            Err(TryFromEnumError(()))
        }
    }
}

impl TryFrom<u32> for DecodeFrameType {
    type Error = TryFromEnumError;

    fn try_from(value: u32) -> (r: Result<DecodeFrameType, TryFromEnumError>) {
        match value {
            DAV1D_DECODEFRAMETYPE_ALL => Ok(DecodeFrameType::All),
            DAV1D_DECODEFRAMETYPE_REFERENCE => Ok(DecodeFrameType::Reference),
            DAV1D_DECODEFRAMETYPE_INTRA => Ok(DecodeFrameType::Intra),
            DAV1D_DECODEFRAMETYPE_KEY => Ok(DecodeFrameType::Key),
            _ => Err(TryFromEnumError(())),
        }
    }
}

impl vstd::std_specs::convert::TryFromSpecImpl<u32> for DecodeFrameType {
    open spec fn obeys_try_from_spec() -> bool {
        true
    }

    open spec fn try_from_spec(value: u32) -> Result<DecodeFrameType, TryFromEnumError> {
        DecodeFrameType::spec_from_code(value)
    }
}

impl From<DecodeFrameType> for u32 {
    fn from(v: DecodeFrameType) -> (r: u32) {
        match v {
            DecodeFrameType::All => DAV1D_DECODEFRAMETYPE_ALL,
            DecodeFrameType::Reference => DAV1D_DECODEFRAMETYPE_REFERENCE,
            DecodeFrameType::Intra => DAV1D_DECODEFRAMETYPE_INTRA,
            DecodeFrameType::Key => DAV1D_DECODEFRAMETYPE_KEY,
        }
    }
}

impl vstd::std_specs::convert::FromSpecImpl<DecodeFrameType> for u32 {
    open spec fn obeys_from_spec() -> bool {
        true
    }

    open spec fn from_spec(v: DecodeFrameType) -> u32 {
        v.spec_code()
    }
}

/// The typed values of a `Settings`.
#[derive(Debug, Copy, Clone, PartialEq, Eq, Structural)]
pub struct SettingsModel {
    pub n_threads: u32,
    pub max_frame_delay: u32,
    pub apply_grain: bool,
    pub operating_point: u32,
    pub all_layers: bool,
    pub frame_size_limit: u32,
    pub strict_std_compliance: bool,
    pub output_invisible_frames: bool,
    pub inloop_filters: u32,
    pub decode_frame_type: DecodeFrameType,
}

/// The fields of the native configuration record that a `Settings` holds.
#[derive(Debug, Copy, Clone, PartialEq, Eq, Structural)]
pub struct NativeSettings {
    pub n_threads: i32,
    pub max_frame_delay: i32,
    pub apply_grain: i32,
    pub operating_point: i32,
    pub all_layers: i32,
    pub frame_size_limit: u32,
    pub strict_std_compliance: i32,
    pub output_invisible_frames: i32,
    pub inloop_filters: u32,
    pub decode_frame_type: u32,
}

/// The typed values of a native configuration record; an unknown decode
/// frame type reads as `All`.
pub open spec fn model_of(n: NativeSettings) -> SettingsModel {
    SettingsModel {
        n_threads: n.n_threads as u32,
        max_frame_delay: n.max_frame_delay as u32,
        apply_grain: n.apply_grain != 0,
        operating_point: n.operating_point as u32,
        all_layers: n.all_layers != 0,
        frame_size_limit: n.frame_size_limit,
        strict_std_compliance: n.strict_std_compliance != 0,
        output_invisible_frames: n.output_invisible_frames != 0,
        inloop_filters: n.inloop_filters & DAV1D_INLOOPFILTER_ALL,
        decode_frame_type: match DecodeFrameType::spec_from_code(n.decode_frame_type) {
            Ok(t) => t,
            Err(_) => DecodeFrameType::All,
        },
    }
}

/// Settings for creating a new decoder, held in the native representation.
/// They start from the values of the engine's default-settings call (see
/// `Settings::from_native`) and are changed through the setters.
#[derive(Debug)]
pub struct Settings {
    raw: NativeSettings,
}

impl View for Settings {
    type V = SettingsModel;

    closed spec fn view(&self) -> SettingsModel {
        model_of(self.raw)
    }
}

/// The native representation of a flag.
fn flag(b: bool) -> (r: i32)
    ensures
        (r != 0) == b,
{
    if b {
        1
    } else {
        0
    }
}

/// A `u32` stored as `i32` reads back unchanged.
proof fn lemma_u32_through_i32(v: u32)
    ensures
        (v as i32) as u32 == v,
{
    assert((v as i32) as u32 == v) by (bit_vector);
}

impl Settings {
    #[verifier::type_invariant]
    spec fn wf(&self) -> bool {
        self.raw.decode_frame_type <= DAV1D_DECODEFRAMETYPE_KEY
    }

    /// Settings holding the native configuration values `raw`, such as those
    /// the engine's default-settings call fills in; `Err` where the decode
    /// frame type is not a known code.
    pub fn from_native(raw: NativeSettings) -> (r: Result<Settings, TryFromEnumError>)
        ensures
            r is Ok <==> raw.decode_frame_type <= DAV1D_DECODEFRAMETYPE_KEY,
            r matches Ok(s) ==> s@ == model_of(raw) && s.native() == raw,
    {
        if raw.decode_frame_type <= DAV1D_DECODEFRAMETYPE_KEY {
            Ok(Settings { raw })
        } else {
            Err(TryFromEnumError(()))
        }
    }

    /// The native configuration values.
    pub closed spec fn native(&self) -> NativeSettings {
        self.raw
    }

    /// The native configuration values, to hand to the engine.
    pub fn to_native(&self) -> (r: NativeSettings)
        ensures
            r == self.native(),
            model_of(r) == self@,
            r.decode_frame_type <= DAV1D_DECODEFRAMETYPE_KEY,
    {
        proof {
            use_type_invariant(self);
        }
        self.raw
    }

    /// Sets the number of worker threads; 0 lets the engine choose.
    pub fn set_n_threads(&mut self, n_threads: u32)
        ensures
            final(self)@ == (SettingsModel { n_threads, ..old(self)@ }),
    {
        proof {
            use_type_invariant(&*self);
            lemma_u32_through_i32(n_threads);
        }
        self.raw.n_threads = n_threads as i32;
    }

    /// Gets the number of worker threads; 0 lets the engine choose.
    pub fn get_n_threads(&self) -> (r: u32)
        ensures
            r == self@.n_threads,
    {
        self.raw.n_threads as u32
    }

    /// Sets the largest number of frames decoded ahead of output; 0 lets the engine choose.
    pub fn set_max_frame_delay(&mut self, max_frame_delay: u32)
        ensures
            final(self)@ == (SettingsModel { max_frame_delay, ..old(self)@ }),
    {
        proof {
            use_type_invariant(&*self);
            lemma_u32_through_i32(max_frame_delay);
        }
        self.raw.max_frame_delay = max_frame_delay as i32;
    }

    /// Gets the largest number of frames decoded ahead of output; 0 lets the engine choose.
    pub fn get_max_frame_delay(&self) -> (r: u32)
        ensures
            r == self@.max_frame_delay,
    {
        self.raw.max_frame_delay as u32
    }

    /// Sets whether film grain is applied to output frames.
    pub fn set_apply_grain(&mut self, apply_grain: bool)
        ensures
            final(self)@ == (SettingsModel { apply_grain, ..old(self)@ }),
    {
        proof {
            use_type_invariant(&*self);
        }
        self.raw.apply_grain = flag(apply_grain);
    }

    /// Gets whether film grain is applied to output frames.
    pub fn get_apply_grain(&self) -> (r: bool)
        ensures
            r == self@.apply_grain,
    {
        self.raw.apply_grain != 0
    }

    /// Sets the operating point of a scalable stream that is decoded.
    pub fn set_operating_point(&mut self, operating_point: u32)
        ensures
            final(self)@ == (SettingsModel { operating_point, ..old(self)@ }),
    {
        proof {
            use_type_invariant(&*self);
            lemma_u32_through_i32(operating_point);
        }
        self.raw.operating_point = operating_point as i32;
    }

    /// Gets the operating point of a scalable stream that is decoded.
    pub fn get_operating_point(&self) -> (r: u32)
        ensures
            r == self@.operating_point,
    {
        self.raw.operating_point as u32
    }

    /// Sets whether every spatial layer of a scalable stream is output.
    pub fn set_all_layers(&mut self, all_layers: bool)
        ensures
            final(self)@ == (SettingsModel { all_layers, ..old(self)@ }),
    {
        proof {
            use_type_invariant(&*self);
        }
        self.raw.all_layers = flag(all_layers);
    }

    /// Gets whether every spatial layer of a scalable stream is output.
    pub fn get_all_layers(&self) -> (r: bool)
        ensures
            r == self@.all_layers,
    {
        self.raw.all_layers != 0
    }

    /// Sets the largest frame area in pixels that is decoded; 0 for no limit.
    pub fn set_frame_size_limit(&mut self, frame_size_limit: u32)
        ensures
            final(self)@ == (SettingsModel { frame_size_limit, ..old(self)@ }),
    {
        proof {
            use_type_invariant(&*self);
        }
        self.raw.frame_size_limit = frame_size_limit;
    }

    /// Gets the largest frame area in pixels that is decoded; 0 for no limit.
    pub fn get_frame_size_limit(&self) -> (r: u32)
        ensures
            r == self@.frame_size_limit,
    {
        self.raw.frame_size_limit
    }

    /// Sets whether streams are checked strictly against the standard.
    pub fn set_strict_std_compliance(&mut self, strict_std_compliance: bool)
        ensures
            final(self)@ == (SettingsModel { strict_std_compliance, ..old(self)@ }),
    {
        proof {
            use_type_invariant(&*self);
        }
        self.raw.strict_std_compliance = flag(strict_std_compliance);
    }

    /// Gets whether streams are checked strictly against the standard.
    pub fn get_strict_std_compliance(&self) -> (r: bool)
        ensures
            r == self@.strict_std_compliance,
    {
        self.raw.strict_std_compliance != 0
    }

    /// Sets whether frames that are not shown are output too.
    pub fn set_output_invisible_frames(&mut self, output_invisible_frames: bool)
        ensures
            final(self)@ == (SettingsModel { output_invisible_frames, ..old(self)@ }),
    {
        proof {
            use_type_invariant(&*self);
        }
        self.raw.output_invisible_frames = flag(output_invisible_frames);
    }

    /// Gets whether frames that are not shown are output too.
    pub fn get_output_invisible_frames(&self) -> (r: bool)
        ensures
            r == self@.output_invisible_frames,
    {
        self.raw.output_invisible_frames != 0
    }

    /// Sets the in-loop filters that are applied.
    pub fn set_inloop_filters(&mut self, inloop_filters: InloopFilterType)
        ensures
            final(self)@ == (SettingsModel {
                inloop_filters: inloop_filters.spec_bits() & DAV1D_INLOOPFILTER_ALL,
                ..old(self)@
            }),
    {
        proof {
            use_type_invariant(&*self);
        }
        self.raw.inloop_filters = inloop_filters.bits();
    }

    /// Gets the in-loop filters that are applied.
    pub fn get_inloop_filters(&self) -> (r: InloopFilterType)
        ensures
            r.spec_bits() == self@.inloop_filters,
    {
        InloopFilterType::from_bits_truncate(self.raw.inloop_filters)
    }

    /// Sets which frames are decoded.
    pub fn set_decode_frame_type(&mut self, decode_frame_type: DecodeFrameType)
        ensures
            final(self)@ == (SettingsModel { decode_frame_type, ..old(self)@ }),
    {
        proof {
            use_type_invariant(&*self);
        }
        self.raw.decode_frame_type = decode_frame_type.into();
    }

    /// Gets which frames are decoded.
    pub fn get_decode_frame_type(&self) -> (r: DecodeFrameType)
        ensures
            r == self@.decode_frame_type,
    {
        proof {
            use_type_invariant(self);
        }
        match DecodeFrameType::try_from(self.raw.decode_frame_type) {
            Ok(t) => t,
            Err(_) => DecodeFrameType::All,
        }
    }
}

/// Converting a decode frame type to its native code and back gives it back.
pub proof fn lemma_decode_frame_type_round_trip(t: DecodeFrameType)
    ensures
        DecodeFrameType::spec_from_code(t.spec_code()) == Ok::<DecodeFrameType, TryFromEnumError>(
            t,
        ),
{
}

} // verus!
