//! Portable colorimetry vocabulary and its mapping from native codes.
use vstd::prelude::*;

verus! {

/// Chromaticity coordinates of the source colour primaries.
#[derive(Debug, Copy, Clone, PartialEq, Eq, Structural)]
pub enum ColorPrimaries {
    BT709,
    Unspecified,
    BT470M,
    BT470BG,
    ST240M,
    Film,
    BT2020,
    ST428,
    P3DCI,
    P3Display,
    Tech3213,
}

/// Opto-electronic transfer characteristic.
#[derive(Debug, Copy, Clone, PartialEq, Eq, Structural)]
pub enum TransferCharacteristic {
    BT1886,
    Unspecified,
    BT470M,
    BT470BG,
    ST170M,
    ST240M,
    Linear,
    Logarithmic100,
    Logarithmic316,
    SRGB,
    BT2020Ten,
    BT2020Twelve,
    PerceptualQuantizer,
    ST428,
    HybridLogGamma,
}

/// Matrix coefficients deriving luma and chroma from the primaries.
#[derive(Debug, Copy, Clone, PartialEq, Eq, Structural)]
pub enum MatrixCoefficients {
    Identity,
    BT709,
    Unspecified,
    BT470M,
    BT470BG,
    ST240M,
    YCgCo,
    BT2020NonConstantLuminance,
    BT2020ConstantLuminance,
    ST2085,
    ChromaticityDerivedNonConstantLuminance,
    ChromaticityDerivedConstantLuminance,
    ICtCp,
}

/// Range of the YUV sample values.
#[derive(Debug, Copy, Clone, PartialEq, Eq, Structural)]
pub enum YUVRange {
    Limited,
    Full,
}

/// Sample position of subsampled chroma.
#[derive(Debug, Copy, Clone, PartialEq, Eq, Structural)]
pub enum ChromaLocation {
    Unspecified,
    Left,
    Center,
}

/// Colour primaries of a native code; unknown and reserved codes are unspecified.
pub open spec fn primaries_of(code: u32) -> ColorPrimaries {
    if code == 1 {
        ColorPrimaries::BT709
    } else if code == 4 {
        ColorPrimaries::BT470M
    } else if code == 5 || code == 6 {
        ColorPrimaries::BT470BG
    } else if code == 7 {
        ColorPrimaries::ST240M
    } else if code == 8 {
        ColorPrimaries::Film
    } else if code == 9 {
        ColorPrimaries::BT2020
    } else if code == 10 {
        ColorPrimaries::ST428
    } else if code == 11 {
        ColorPrimaries::P3DCI
    } else if code == 12 {
        ColorPrimaries::P3Display
    } else if code == 22 {
        ColorPrimaries::Tech3213
    } else {
        ColorPrimaries::Unspecified
    }
}

/// Reads a native colour primaries code.
pub fn color_primaries_from_native(code: u32) -> (r: ColorPrimaries)
    ensures
        r == primaries_of(code),
{
    match code {
        1 => ColorPrimaries::BT709,
        4 => ColorPrimaries::BT470M,
        5 | 6 => ColorPrimaries::BT470BG,
        7 => ColorPrimaries::ST240M,
        8 => ColorPrimaries::Film,
        9 => ColorPrimaries::BT2020,
        10 => ColorPrimaries::ST428,
        11 => ColorPrimaries::P3DCI,
        12 => ColorPrimaries::P3Display,
        22 => ColorPrimaries::Tech3213,
        _ => ColorPrimaries::Unspecified,
    }
}

/// Transfer characteristic of a native code; unknown and reserved codes are
/// unspecified.
pub open spec fn transfer_of(code: u32) -> TransferCharacteristic {
    if code == 1 || code == 12 {
        TransferCharacteristic::BT1886
    } else if code == 4 {
        TransferCharacteristic::BT470M
    } else if code == 5 {
        TransferCharacteristic::BT470BG
    } else if code == 6 {
        TransferCharacteristic::ST170M
    } else if code == 7 {
        TransferCharacteristic::ST240M
    } else if code == 8 {
        TransferCharacteristic::Linear
    } else if code == 9 {
        TransferCharacteristic::Logarithmic100
    } else if code == 10 {
        TransferCharacteristic::Logarithmic316
    } else if code == 11 || code == 13 {
        TransferCharacteristic::SRGB
    } else if code == 14 {
        TransferCharacteristic::BT2020Ten
    } else if code == 15 {
        TransferCharacteristic::BT2020Twelve
    } else if code == 16 {
        TransferCharacteristic::PerceptualQuantizer
    } else if code == 17 {
        TransferCharacteristic::ST428
    } else if code == 18 {
        TransferCharacteristic::HybridLogGamma
    } else {
        TransferCharacteristic::Unspecified
    }
}

/// Reads a native transfer characteristic code.
pub fn transfer_characteristic_from_native(code: u32) -> (r: TransferCharacteristic)
    ensures
        r == transfer_of(code),
{
    match code {
        1 | 12 => TransferCharacteristic::BT1886,
        4 => TransferCharacteristic::BT470M,
        5 => TransferCharacteristic::BT470BG,
        6 => TransferCharacteristic::ST170M,
        7 => TransferCharacteristic::ST240M,
        8 => TransferCharacteristic::Linear,
        9 => TransferCharacteristic::Logarithmic100,
        10 => TransferCharacteristic::Logarithmic316,
        11 | 13 => TransferCharacteristic::SRGB,
        14 => TransferCharacteristic::BT2020Ten,
        15 => TransferCharacteristic::BT2020Twelve,
        16 => TransferCharacteristic::PerceptualQuantizer,
        17 => TransferCharacteristic::ST428,
        18 => TransferCharacteristic::HybridLogGamma,
        _ => TransferCharacteristic::Unspecified,
    }
}

/// Matrix coefficients of a native code; unknown and reserved codes are
/// unspecified.
pub open spec fn matrix_of(code: u32) -> MatrixCoefficients {
    if code == 0 {
        MatrixCoefficients::Identity
    } else if code == 1 {
        MatrixCoefficients::BT709
    } else if code == 4 {
        MatrixCoefficients::BT470M
    } else if code == 5 || code == 6 {
        MatrixCoefficients::BT470BG
    } else if code == 7 {
        MatrixCoefficients::ST240M
    } else if code == 8 {
        MatrixCoefficients::YCgCo
    } else if code == 9 {
        MatrixCoefficients::BT2020NonConstantLuminance
    } else if code == 10 {
        MatrixCoefficients::BT2020ConstantLuminance
    } else if code == 11 {
        MatrixCoefficients::ST2085
    } else if code == 12 {
        MatrixCoefficients::ChromaticityDerivedNonConstantLuminance
    } else if code == 13 {
        MatrixCoefficients::ChromaticityDerivedConstantLuminance
    } else if code == 14 {
        MatrixCoefficients::ICtCp
    } else {
        MatrixCoefficients::Unspecified
    }
}

/// Reads a native matrix coefficients code.
pub fn matrix_coefficients_from_native(code: u32) -> (r: MatrixCoefficients)
    ensures
        r == matrix_of(code),
{
    match code {
        0 => MatrixCoefficients::Identity,
        1 => MatrixCoefficients::BT709,
        4 => MatrixCoefficients::BT470M,
        5 | 6 => MatrixCoefficients::BT470BG,
        7 => MatrixCoefficients::ST240M,
        8 => MatrixCoefficients::YCgCo,
        9 => MatrixCoefficients::BT2020NonConstantLuminance,
        10 => MatrixCoefficients::BT2020ConstantLuminance,
        11 => MatrixCoefficients::ST2085,
        12 => MatrixCoefficients::ChromaticityDerivedNonConstantLuminance,
        13 => MatrixCoefficients::ChromaticityDerivedConstantLuminance,
        14 => MatrixCoefficients::ICtCp,
        _ => MatrixCoefficients::Unspecified,
    }
}

/// Reads the native colour range flag: zero is limited, anything else full.
pub fn color_range_from_native(code: i32) -> (r: YUVRange)
    ensures
        r == (if code == 0 { YUVRange::Limited } else { YUVRange::Full }),
{
    if code == 0 {
        YUVRange::Limited
    } else {
        YUVRange::Full
    }
}

/// Chroma sample position of a native code: unknown and co-located positions
/// are centred, vertical ones left; other codes are unspecified.
pub open spec fn chroma_location_of(code: u32) -> ChromaLocation {
    if code == 0 || code == 2 {
        ChromaLocation::Center
    } else if code == 1 {
        ChromaLocation::Left
    } else {
        ChromaLocation::Unspecified
    }
}

/// Reads a native chroma sample position code.
pub fn chroma_location_from_native(code: u32) -> (r: ChromaLocation)
    ensures
        r == chroma_location_of(code),
{
    match code {
        0 | 2 => ChromaLocation::Center,
        1 => ChromaLocation::Left,
        _ => ChromaLocation::Unspecified,
    }
}

} // verus!
