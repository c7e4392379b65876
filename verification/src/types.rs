//! Device identifiers, volume scalars, mute states and device descriptions.
//!
//! A volume scalar is kept as the IEEE-754 binary32 encoding of the `f32`
//! that CoreAudio reads and writes. For that encoding the order of the
//! non-negative numbers is the order of their bit patterns, a set sign bit
//! marks a negative number (or negative zero), and a pattern whose
//! exponent bits are all set with a non-zero fraction is a NaN. The spec
//! functions below state the few facts of that encoding that the library
//! relies on.

use crate::error::Error;
use vstd::arithmetic::power2::{
    lemma2_to64, lemma_pow2_adds, lemma_pow2_strictly_increases, pow2,
};
use vstd::prelude::*;

verus! {

/// Encoding of `0.0`.
pub const ZERO_BITS: u32 = 0x0000_0000;

/// Encoding of `-0.0`.
pub const NEGATIVE_ZERO_BITS: u32 = 0x8000_0000;

/// Encoding of `1.0`.
pub const ONE_BITS: u32 = 0x3F80_0000;

/// Encoding of positive infinity.
pub const INFINITY_BITS: u32 = 0x7F80_0000;

/// The encoding denotes a NaN: all exponent bits set, fraction non-zero.
pub open spec fn is_nan_bits(bits: u32) -> bool {
    bits % 0x8000_0000 > INFINITY_BITS
}

/// The encoding has its sign bit set (a negative number, `-0.0` or a NaN).
pub open spec fn sign_bit_set(bits: u32) -> bool {
    bits >= 0x8000_0000
}

/// The encoded number lies in `[0.0, 1.0]` (`-0.0` included, as `-0.0 >= 0.0`).
pub open spec fn in_unit_range(bits: u32) -> bool {
    bits <= ONE_BITS || bits == NEGATIVE_ZERO_BITS
}

/// The encoded number is strictly greater than `0.0`.
pub open spec fn is_positive_bits(bits: u32) -> bool {
    0 < bits <= INFINITY_BITS
}

/// The encoding of `x.clamp(0.0, 1.0)` for the number `x` encoded by `bits`:
/// a NaN stays as it is, `-0.0` stays (it is not below `0.0`), any other
/// negative number becomes `0.0`, and anything above `1.0` becomes `1.0`.
pub open spec fn clamp_unit_bits(bits: u32) -> u32 {
    if is_nan_bits(bits) {
        bits
    } else if sign_bit_set(bits) {
        if bits == NEGATIVE_ZERO_BITS {
            bits
        } else {
            ZERO_BITS
        }
    } else if bits > ONE_BITS {
        ONE_BITS
    } else {
        bits
    }
}

/// Clamping to `[0.0, 1.0]` lands in that range exactly when the input is
/// not a NaN, and leaves a value already in range unchanged.
pub proof fn lemma_clamp_unit_range(bits: u32)
    ensures
        in_unit_range(clamp_unit_bits(bits)) <==> !is_nan_bits(bits),
        !is_nan_bits(bits) && in_unit_range(bits) ==> clamp_unit_bits(bits) == bits,
{
}

/// The sign bit of a binary32 encoding: set for negative numbers, `-0.0`
/// and negative NaNs.
pub open spec fn sign_field(bits: u32) -> nat {
    (bits / 0x8000_0000) as nat
}

/// The biased exponent field (bits 23 to 30) of a binary32 encoding.
pub open spec fn exponent_field(bits: u32) -> nat {
    ((bits % 0x8000_0000) / 0x80_0000) as nat
}

/// The fraction field (bits 0 to 22) of a binary32 encoding.
pub open spec fn fraction_field(bits: u32) -> nat {
    (bits % 0x80_0000) as nat
}

/// The magnitude `|x|` of the number encoded by a binary32 encoding with
/// exponent field below 255, multiplied by `2^149`. The result is a whole
/// number, as every binary32 number is a multiple of `2^-149`: a subnormal
/// encodes `fraction * 2^-149`, a normal number
/// `(2^23 + fraction) * 2^(exponent - 150)`. So `1.0` is `2^149`.
pub open spec fn scaled_magnitude(bits: u32) -> nat {
    if exponent_field(bits) == 0 {
        fraction_field(bits)
    } else {
        (pow2(23) + fraction_field(bits)) * pow2((exponent_field(bits) - 1) as nat)
    }
}

/// IEEE 754: the encoding is a NaN.
pub open spec fn encodes_nan(bits: u32) -> bool {
    exponent_field(bits) == 255 && fraction_field(bits) != 0
}

/// IEEE 754: the encoding is an infinity (of either sign).
pub open spec fn encodes_infinity(bits: u32) -> bool {
    exponent_field(bits) == 255 && fraction_field(bits) == 0
}

/// The encoding denotes a number `x` with `0.0 <= x <= 1.0`.
pub open spec fn denotes_unit_number(bits: u32) -> bool {
    &&& exponent_field(bits) != 255
    &&& sign_field(bits) == 0 || scaled_magnitude(bits) == 0
    &&& scaled_magnitude(bits) <= pow2(149)
}

/// The encoding denotes a number greater than `1.0` (`+inf` included).
pub open spec fn denotes_above_one(bits: u32) -> bool {
    &&& sign_field(bits) == 0
    &&& encodes_infinity(bits) || (exponent_field(bits) != 255 && scaled_magnitude(bits) > pow2(
        149,
    ))
}

/// The encoding denotes a number less than `0.0` (`-inf` included).
pub open spec fn denotes_below_zero(bits: u32) -> bool {
    &&& sign_field(bits) == 1
    &&& encodes_infinity(bits) || (exponent_field(bits) != 255 && scaled_magnitude(bits) > 0)
}

/// How the magnitude of a finite encoding compares with `1.0`, by its
/// exponent and fraction fields: below `1.0` for an exponent field under
/// 127, exactly `1.0` for exponent 127 with a zero fraction, above `1.0`
/// otherwise; and zero only when both fields are zero.
proof fn lemma_scaled_magnitude_vs_one(bits: u32)
    requires
        exponent_field(bits) < 255,
    ensures
        scaled_magnitude(bits) < pow2(149) <==> exponent_field(bits) < 127,
        scaled_magnitude(bits) == pow2(149) <==> (exponent_field(bits) == 127 && fraction_field(
            bits,
        ) == 0),
        scaled_magnitude(bits) == 0 <==> (exponent_field(bits) == 0 && fraction_field(bits) == 0),
{
    let e = exponent_field(bits);
    let f = fraction_field(bits);
    lemma2_to64();
    lemma_pow2_strictly_increases(23, 149);
    if e == 0 {
        assert(scaled_magnitude(bits) == f);
    } else {
        let p = pow2((e - 1) as nat);
        assert(p > 0) by {
            vstd::arithmetic::power2::lemma_pow2_pos((e - 1) as nat);
        }
        assert(scaled_magnitude(bits) == (pow2(23) + f) * p);
        assert((pow2(23) + f) * p >= p) by (nonlinear_arith)
            requires
                p > 0,
                pow2(23) + f >= 1,
        ;
        if e <= 126 {
            lemma_pow2_adds(24, (e - 1) as nat);
            assert(pow2(24) == 0x100_0000);
            assert((pow2(23) + f) * p < pow2(24) * p) by (nonlinear_arith)
                requires
                    pow2(23) + f < pow2(24),
                    p > 0,
            ;
            if e + 23 < 149 {
                lemma_pow2_strictly_increases((e + 23) as nat, 149);
            }
            assert((24 + (e - 1)) as nat == (e + 23) as nat);
        } else if e == 127 {
            lemma_pow2_adds(23, 126);
            assert((pow2(23) + f) * p == pow2(23) * p + f * p) by (nonlinear_arith);
            assert(f * p >= 0) by (nonlinear_arith)
                requires
                    p > 0,
            ;
            if f > 0 {
                assert(f * p > 0) by (nonlinear_arith)
                    requires
                        f > 0,
                        p > 0,
                ;
            }
        } else {
            lemma_pow2_adds(23, (e - 1) as nat);
            lemma_pow2_strictly_increases(149, (e + 22) as nat);
            assert((pow2(23) + f) * p >= pow2(23) * p) by (nonlinear_arith)
                requires
                    p > 0,
            ;
            assert((23 + (e - 1)) as nat == (e + 22) as nat);
        }
    }
}

/// `in_unit_range` means what its name says: an encoding is in range
/// exactly when it denotes a number in `[0.0, 1.0]`, and `is_nan_bits`
/// holds exactly of the NaN encodings; `0.0` and `1.0` are encoded by
/// `ZERO_BITS` and `ONE_BITS`.
pub proof fn lemma_unit_range_meaning(bits: u32)
    ensures
        in_unit_range(bits) <==> denotes_unit_number(bits),
        is_nan_bits(bits) <==> encodes_nan(bits),
        scaled_magnitude(ONE_BITS) == pow2(149) && sign_field(ONE_BITS) == 0,
        scaled_magnitude(ZERO_BITS) == 0 && sign_field(ZERO_BITS) == 0,
        encodes_nan(bits) || denotes_unit_number(bits) || denotes_above_one(bits)
            || denotes_below_zero(bits),
{
    if exponent_field(bits) < 255 {
        lemma_scaled_magnitude_vs_one(bits);
    }
    lemma_scaled_magnitude_vs_one(ONE_BITS);
    lemma_scaled_magnitude_vs_one(ZERO_BITS);
}

/// The clamp does what `f32::clamp(0.0, 1.0)` does to the number: a NaN
/// stays, a number in `[0.0, 1.0]` stays, a number above `1.0` becomes
/// `1.0`, and a number below `0.0` becomes `0.0`.
pub proof fn lemma_clamp_meaning(bits: u32)
    ensures
        encodes_nan(bits) ==> clamp_unit_bits(bits) == bits,
        denotes_unit_number(bits) ==> clamp_unit_bits(bits) == bits,
        denotes_above_one(bits) ==> clamp_unit_bits(bits) == ONE_BITS,
        denotes_below_zero(bits) ==> clamp_unit_bits(bits) == ZERO_BITS,
{
    lemma_unit_range_meaning(bits);
    if exponent_field(bits) < 255 {
        lemma_scaled_magnitude_vs_one(bits);
    }
}

/// `x.clamp(0.0, 1.0)` on the binary32 encoding of `x`.
pub fn clamp_unit(bits: u32) -> (c: u32)
    ensures
        c == clamp_unit_bits(bits),
        encodes_nan(bits) ==> c == bits,
        denotes_unit_number(bits) ==> c == bits,
        denotes_above_one(bits) ==> c == ONE_BITS,
        denotes_below_zero(bits) ==> c == ZERO_BITS,
{
    proof {
        lemma_clamp_meaning(bits);
    }
    if bits % 0x8000_0000 > INFINITY_BITS {
        bits
    } else if bits >= 0x8000_0000 {
        if bits == NEGATIVE_ZERO_BITS {
            bits
        } else {
            ZERO_BITS
        }
    } else if bits > ONE_BITS {
        ONE_BITS
    } else {
        bits
    }
}

/// The decimal digit character for `d < 10`.
pub open spec fn digit_char(d: nat) -> char {
    if d == 0 { '0' }
    else if d == 1 { '1' }
    else if d == 2 { '2' }
    else if d == 3 { '3' }
    else if d == 4 { '4' }
    else if d == 5 { '5' }
    else if d == 6 { '6' }
    else if d == 7 { '7' }
    else if d == 8 { '8' }
    else { '9' }
}

/// The decimal notation of `n`, without leading zeros.
pub open spec fn decimal(n: nat) -> Seq<char>
    decreases n,
{
    if n < 10 {
        seq![digit_char(n)]
    } else {
        decimal(n / 10).push(digit_char(n % 10))
    }
}

/// A one-character string holding the digit `d`.
fn digit_str(d: u32) -> (s: &'static str)
    requires
        d < 10,
    ensures
        s@ == seq![digit_char(d as nat)],
{
    proof {
        reveal_strlit("0");
        reveal_strlit("1");
        reveal_strlit("2");
        reveal_strlit("3");
        reveal_strlit("4");
        reveal_strlit("5");
        reveal_strlit("6");
        reveal_strlit("7");
        reveal_strlit("8");
        reveal_strlit("9");
    }
    if d == 0 {
        "0"
    } else if d == 1 {
        "1"
    } else if d == 2 {
        "2"
    } else if d == 3 {
        "3"
    } else if d == 4 {
        "4"
    } else if d == 5 {
        "5"
    } else if d == 6 {
        "6"
    } else if d == 7 {
        "7"
    } else if d == 8 {
        "8"
    } else {
        "9"
    }
}

/// The decimal notation of `n`.
pub fn decimal_string(n: u32) -> (s: String)
    ensures
        s@ == decimal(n as nat),
    decreases n,
{
    if n < 10 {
        String::from_str(digit_str(n))
    } else {
        let mut s = decimal_string(n / 10);
        s.append(digit_str(n % 10));
        s
    }
}

/// Identifier of an audio device (a CoreAudio `AudioDeviceID`).
#[derive(Debug, Clone, Copy, PartialEq, Eq, Hash, Structural)]
pub struct DeviceId(pub u32);

impl DeviceId {
    /// The identifier as CoreAudio knows it.
    pub open spec fn spec_raw(self) -> u32 {
        self.0
    }

    /// Wraps a raw CoreAudio `AudioDeviceID`.
    pub fn from_raw(raw: u32) -> (id: DeviceId)
        ensures
            id.spec_raw() == raw,
    {
        DeviceId(raw)
    }

    /// How the identifier is shown: `AudioDevice(<id>)`.
    pub open spec fn shown(self) -> Seq<char> {
        "AudioDevice("@ + decimal(self.0 as nat) + ")"@
    }

    /// The identifier as shown to people: `AudioDevice(<id>)`.
    pub fn to_string(&self) -> (s: String)
        ensures
            s@ == self.shown(),
    {
        let mut s = String::from_str("AudioDevice(");
        let digits = decimal_string(self.0);
        s.append(digits.as_str());
        s.append(")");
        s
    }

    /// The raw CoreAudio `AudioDeviceID`.
    pub fn raw(&self) -> (raw: u32)
        ensures
            raw == self.spec_raw(),
    {
        self.0
    }
}

/// A hardware volume scalar in `[0.0, 1.0]`, held as its binary32 encoding.
#[derive(Debug, Clone, Copy)]
pub struct Volume {
    bits: u32,
}

impl View for Volume {
    type V = u32;

    /// The binary32 encoding of the scalar.
    closed spec fn view(&self) -> u32 {
        self.bits
    }
}

impl Volume {
    /// Every volume encodes a number in `[0.0, 1.0]`.
    #[verifier::type_invariant]
    pub open spec fn inv(self) -> bool {
        in_unit_range(self@)
    }

    /// The volume whose scalar is encoded by `bits`, or
    /// `VolumeOutOfRange(bits)` when that scalar is not in `[0.0, 1.0]`
    /// (NaN included).
    pub fn new(bits: u32) -> (r: Result<Volume, Error>)
        ensures
            in_unit_range(bits) <==> r is Ok,
            denotes_unit_number(bits) <==> r is Ok,
            r matches Ok(v) ==> v@ == bits,
            r matches Err(e) ==> e == Error::VolumeOutOfRange(bits),
    {
        proof {
            lemma_unit_range_meaning(bits);
        }
        if bits <= ONE_BITS || bits == NEGATIVE_ZERO_BITS {
            Ok(Volume { bits })
        } else {
            Err(Error::VolumeOutOfRange(bits))
        }
    }

    /// Full volume, `1.0`.
    pub fn max() -> (v: Volume)
        ensures
            v@ == ONE_BITS,
    {
        Volume { bits: ONE_BITS }
    }

    /// Silence, `0.0`.
    pub fn muted() -> (v: Volume)
        ensures
            v@ == ZERO_BITS,
    {
        Volume { bits: ZERO_BITS }
    }

    /// The binary32 encoding of the scalar (`f32::to_bits` of the value).
    pub fn to_bits(&self) -> (bits: u32)
        ensures
            bits == self@,
            in_unit_range(bits),
    {
        proof {
            use_type_invariant(self);
        }
        self.bits
    }

    /// Whether the scalar is strictly greater than `0.0`.
    pub fn is_audible(&self) -> (b: bool)
        ensures
            b == is_positive_bits(self@),
            b == (0 < self@ <= ONE_BITS),
    {
        proof {
            use_type_invariant(self);
        }
        0 < self.bits && self.bits <= ONE_BITS
    }
}

/// The magnitude key of an in-range encoding: `-0.0` counts as `0.0`, and
/// the other in-range encodings are ordered as their numbers are.
pub open spec fn unit_key(bits: u32) -> u32 {
    if bits == NEGATIVE_ZERO_BITS {
        ZERO_BITS
    } else {
        bits
    }
}

/// Volumes compare as their scalars do (`0.0 == -0.0`).
impl PartialEq for Volume {
    fn eq(&self, other: &Volume) -> (r: bool) {
        let a = if self.bits == NEGATIVE_ZERO_BITS {
            ZERO_BITS
        } else {
            self.bits
        };
        let b = if other.bits == NEGATIVE_ZERO_BITS {
            ZERO_BITS
        } else {
            other.bits
        };
        a == b
    }
}

impl vstd::std_specs::cmp::PartialEqSpecImpl for Volume {
    open spec fn obeys_eq_spec() -> bool {
        true
    }

    open spec fn eq_spec(&self, other: &Volume) -> bool {
        unit_key(self@) == unit_key(other@)
    }
}

/// Volumes are ordered as their scalars are.
impl PartialOrd for Volume {
    fn partial_cmp(&self, other: &Volume) -> (r: Option<core::cmp::Ordering>) {
        let a = if self.bits == NEGATIVE_ZERO_BITS {
            ZERO_BITS
        } else {
            self.bits
        };
        let b = if other.bits == NEGATIVE_ZERO_BITS {
            ZERO_BITS
        } else {
            other.bits
        };
        if a < b {
            Some(core::cmp::Ordering::Less)
        } else if a == b {
            Some(core::cmp::Ordering::Equal)
        } else {
            Some(core::cmp::Ordering::Greater)
        }
    }
}

impl vstd::std_specs::cmp::PartialOrdSpecImpl for Volume {
    open spec fn obeys_partial_cmp_spec() -> bool {
        true
    }

    open spec fn partial_cmp_spec(&self, other: &Volume) -> Option<core::cmp::Ordering> {
        if unit_key(self@) < unit_key(other@) {
            Some(core::cmp::Ordering::Less)
        } else if unit_key(self@) == unit_key(other@) {
            Some(core::cmp::Ordering::Equal)
        } else {
            Some(core::cmp::Ordering::Greater)
        }
    }
}

/// Whether a device's input is muted.
#[derive(Debug, Clone, Copy, PartialEq, Eq, Structural)]
pub enum MuteState {
    Muted,
    Unmuted,
}

/// The mute state that a mute switch value stands for.
pub open spec fn mute_state_of(muted: bool) -> MuteState {
    if muted {
        MuteState::Muted
    } else {
        MuteState::Unmuted
    }
}

impl MuteState {
    /// The state for a switch that is on (`true`) or off.
    pub fn from_muted(muted: bool) -> (s: MuteState)
        ensures
            s == mute_state_of(muted),
    {
        if muted {
            MuteState::Muted
        } else {
            MuteState::Unmuted
        }
    }

    /// Whether this state is `Muted`.
    pub fn is_muted(&self) -> (b: bool)
        ensures
            b == (*self == MuteState::Muted),
    {
        match self {
            MuteState::Muted => true,
            MuteState::Unmuted => false,
        }
    }
}

/// Description of an audio input device.
#[derive(Debug, Clone)]
pub struct DeviceInfo {
    pub id: DeviceId,
    pub name: String,
    pub channels: u32,
    pub is_default: bool,
}

impl DeviceInfo {
    /// How a device is shown: `<name> (<id>, <channels>ch)`, with
    /// `, default` before the closing parenthesis for the default device.
    pub open spec fn shown(self) -> Seq<char> {
        self.name@ + " ("@ + self.id.shown() + ", "@ + decimal(self.channels as nat) + "ch"@ + (
        if self.is_default {
            ", default"@
        } else {
            Seq::empty()
        }) + ")"@
    }

    /// The device as shown to people (see [`DeviceInfo::shown`]).
    pub fn to_string(&self) -> (s: String)
        ensures
            s@ == self.shown(),
    {
        let mut s = self.name.clone();
        s.append(" (");
        let id = self.id.to_string();
        s.append(id.as_str());
        s.append(", ");
        let channels = decimal_string(self.channels);
        s.append(channels.as_str());
        s.append("ch");
        if self.is_default {
            s.append(", default");
        }
        s.append(")");
        s
    }
}

} // verus!
