//! Pixel-format negotiation.
//!
//! The runtime advertises swapchain formats as 64-bit codes drawn from the
//! Vulkan format numbering. Each code is mapped in two steps: first into the
//! hardware-abstraction vocabulary, which indexes the same numbering densely
//! from 1 up to (but not including) [`HAL_FORMAT_COUNT`], then into the host
//! graphics API's texture-format vocabulary, [`TextureFormat`]. Both steps are
//! total over a fixed table and return "unmapped" rather than failing.
//! Negotiation selects the first advertised code, in runtime enumeration
//! order, for which both steps succeed.

use vstd::prelude::*;

verus! {

/// Number of codes in the hardware-abstraction format vocabulary; valid codes
/// are `1..HAL_FORMAT_COUNT`, with 0 reserved for "undefined".
pub const HAL_FORMAT_COUNT: u32 = 185;

/// A texture format of the host graphics API.
#[derive(Clone, Copy, Debug, PartialEq, Eq, Structural)]
pub enum TextureFormat {
    R8Unorm,
    R8Snorm,
    R8Uint,
    R8Sint,
    R16Uint,
    R16Sint,
    R16Float,
    Rg8Unorm,
    Rg8Snorm,
    Rg8Uint,
    Rg8Sint,
    R32Uint,
    R32Sint,
    R32Float,
    Rg16Uint,
    Rg16Sint,
    Rg16Float,
    Rgba8Unorm,
    Rgba8UnormSrgb,
    Rgba8Snorm,
    Rgba8Uint,
    Rgba8Sint,
    Bgra8Unorm,
    Bgra8UnormSrgb,
    Rgb10a2Unorm,
    Rg11b10Float,
    Rg32Uint,
    Rg32Sint,
    Rg32Float,
    Rgba16Uint,
    Rgba16Sint,
    Rgba16Float,
    Rgba32Uint,
    Rgba32Sint,
    Rgba32Float,
    Depth32Float,
    Depth24Plus,
    Bc1RgbaUnorm,
    Bc1RgbaUnormSrgb,
    Bc2RgbaUnorm,
    Bc2RgbaUnormSrgb,
    Bc3RgbaUnorm,
    Bc3RgbaUnormSrgb,
    Bc4RUnorm,
    Bc4RSnorm,
    Bc5RgUnorm,
    Bc5RgSnorm,
    Bc6hRgbSfloat,
    Bc6hRgbUfloat,
    Bc7RgbaUnorm,
    Bc7RgbaUnormSrgb,
    Etc2RgbUnorm,
    Etc2RgbUnormSrgb,
    Etc2RgbA1Unorm,
    Etc2RgbA1UnormSrgb,
    Etc2RgbA8Unorm,
    EacRUnorm,
    EacRSnorm,
    EtcRgUnorm,
    EtcRgSnorm,
    Astc4x4RgbaUnormSrgb,
    Astc5x4RgbaUnorm,
    Astc5x4RgbaUnormSrgb,
    Astc5x5RgbaUnorm,
    Astc5x5RgbaUnormSrgb,
    Astc6x5RgbaUnorm,
    Astc6x5RgbaUnormSrgb,
    Astc6x6RgbaUnorm,
    Astc6x6RgbaUnormSrgb,
    Astc8x5RgbaUnorm,
    Astc8x5RgbaUnormSrgb,
    Astc8x6RgbaUnorm,
    Astc8x6RgbaUnormSrgb,
    Astc8x8RgbaUnorm,
    Astc8x8RgbaUnormSrgb,
    Astc10x5RgbaUnorm,
    Astc10x5RgbaUnormSrgb,
    Astc10x6RgbaUnorm,
    Astc10x6RgbaUnormSrgb,
    Astc10x8RgbaUnorm,
    Astc10x8RgbaUnormSrgb,
    Astc10x10RgbaUnorm,
    Astc10x10RgbaUnormSrgb,
    Astc12x10RgbaUnorm,
    Astc12x10RgbaUnormSrgb,
    Astc12x12RgbaUnorm,
    Astc12x12RgbaUnormSrgb,
}

/// Step one of the table: a Vulkan-numbered 32-bit code maps into the
/// hardware-abstraction vocabulary exactly when it lies in `1..HAL_FORMAT_COUNT`
/// (0 is "undefined"); the code itself is kept.
pub open spec fn hal_format_of_vk(vk_format: i32) -> Option<u32> {
    if 1 <= vk_format && vk_format < HAL_FORMAT_COUNT {
        Some(vk_format as u32)
    } else {
        None
    }
}

/// Step one of the table, executable form.
pub fn map_vk_format(vk_format: i32) -> (r: Option<u32>)
    ensures
        r == hal_format_of_vk(vk_format),
{
    if 1 <= vk_format && vk_format < 185 {
        Some(vk_format as u32)
    } else {
        None
    }
}

/// Step two of the table: which host texture format, if any, a
/// hardware-abstraction code renders to.
pub open spec fn texture_format_of_hal(hal_format: u32) -> Option<TextureFormat> {
    if hal_format == 9 { Some(TextureFormat::R8Unorm) }
    else if hal_format == 10 { Some(TextureFormat::R8Snorm) }
    else if hal_format == 13 { Some(TextureFormat::R8Uint) }
    else if hal_format == 14 { Some(TextureFormat::R8Sint) }
    else if hal_format == 74 { Some(TextureFormat::R16Uint) }
    else if hal_format == 75 { Some(TextureFormat::R16Sint) }
    else if hal_format == 76 { Some(TextureFormat::R16Float) }
    else if hal_format == 16 { Some(TextureFormat::Rg8Unorm) }
    else if hal_format == 17 { Some(TextureFormat::Rg8Snorm) }
    else if hal_format == 20 { Some(TextureFormat::Rg8Uint) }
    else if hal_format == 21 { Some(TextureFormat::Rg8Sint) }
    else if hal_format == 98 { Some(TextureFormat::R32Uint) }
    else if hal_format == 99 { Some(TextureFormat::R32Sint) }
    else if hal_format == 100 { Some(TextureFormat::R32Float) }
    else if hal_format == 81 { Some(TextureFormat::Rg16Uint) }
    else if hal_format == 82 { Some(TextureFormat::Rg16Sint) }
    else if hal_format == 83 { Some(TextureFormat::Rg16Float) }
    else if hal_format == 37 { Some(TextureFormat::Rgba8Unorm) }
    else if hal_format == 43 { Some(TextureFormat::Rgba8UnormSrgb) }
    else if hal_format == 38 { Some(TextureFormat::Rgba8Snorm) }
    else if hal_format == 41 { Some(TextureFormat::Rgba8Uint) }
    else if hal_format == 42 { Some(TextureFormat::Rgba8Sint) }
    else if hal_format == 44 { Some(TextureFormat::Bgra8Unorm) }
    else if hal_format == 50 { Some(TextureFormat::Bgra8UnormSrgb) }
    else if hal_format == 58 { Some(TextureFormat::Rgb10a2Unorm) }
    else if hal_format == 122 { Some(TextureFormat::Rg11b10Float) }
    else if hal_format == 101 { Some(TextureFormat::Rg32Uint) }
    else if hal_format == 102 { Some(TextureFormat::Rg32Sint) }
    else if hal_format == 103 { Some(TextureFormat::Rg32Float) }
    else if hal_format == 95 { Some(TextureFormat::Rgba16Uint) }
    else if hal_format == 96 { Some(TextureFormat::Rgba16Sint) }
    else if hal_format == 97 { Some(TextureFormat::Rgba16Float) }
    else if hal_format == 107 { Some(TextureFormat::Rgba32Uint) }
    else if hal_format == 108 { Some(TextureFormat::Rgba32Sint) }
    else if hal_format == 109 { Some(TextureFormat::Rgba32Float) }
    else if hal_format == 126 { Some(TextureFormat::Depth32Float) }
    else if hal_format == 125 { Some(TextureFormat::Depth24Plus) }
    else if hal_format == 129 { Some(TextureFormat::Depth24Plus) }
    else if hal_format == 130 { Some(TextureFormat::Depth24Plus) }
    else if hal_format == 133 { Some(TextureFormat::Bc1RgbaUnorm) }
    else if hal_format == 134 { Some(TextureFormat::Bc1RgbaUnormSrgb) }
    else if hal_format == 135 { Some(TextureFormat::Bc2RgbaUnorm) }
    else if hal_format == 136 { Some(TextureFormat::Bc2RgbaUnormSrgb) }
    else if hal_format == 137 { Some(TextureFormat::Bc3RgbaUnorm) }
    else if hal_format == 138 { Some(TextureFormat::Bc3RgbaUnormSrgb) }
    else if hal_format == 139 { Some(TextureFormat::Bc4RUnorm) }
    else if hal_format == 140 { Some(TextureFormat::Bc4RSnorm) }
    else if hal_format == 141 { Some(TextureFormat::Bc5RgUnorm) }
    else if hal_format == 142 { Some(TextureFormat::Bc5RgSnorm) }
    else if hal_format == 144 { Some(TextureFormat::Bc6hRgbSfloat) }
    else if hal_format == 143 { Some(TextureFormat::Bc6hRgbUfloat) }
    else if hal_format == 145 { Some(TextureFormat::Bc7RgbaUnorm) }
    else if hal_format == 146 { Some(TextureFormat::Bc7RgbaUnormSrgb) }
    else if hal_format == 147 { Some(TextureFormat::Etc2RgbUnorm) }
    else if hal_format == 148 { Some(TextureFormat::Etc2RgbUnormSrgb) }
    else if hal_format == 149 { Some(TextureFormat::Etc2RgbA1Unorm) }
    else if hal_format == 150 { Some(TextureFormat::Etc2RgbA1UnormSrgb) }
    else if hal_format == 151 { Some(TextureFormat::Etc2RgbA8Unorm) }
    else if hal_format == 153 { Some(TextureFormat::EacRUnorm) }
    else if hal_format == 154 { Some(TextureFormat::EacRSnorm) }
    else if hal_format == 155 { Some(TextureFormat::EtcRgUnorm) }
    else if hal_format == 156 { Some(TextureFormat::EtcRgSnorm) }
    else if hal_format == 158 { Some(TextureFormat::Astc4x4RgbaUnormSrgb) }
    else if hal_format == 159 { Some(TextureFormat::Astc5x4RgbaUnorm) }
    else if hal_format == 160 { Some(TextureFormat::Astc5x4RgbaUnormSrgb) }
    else if hal_format == 161 { Some(TextureFormat::Astc5x5RgbaUnorm) }
    else if hal_format == 162 { Some(TextureFormat::Astc5x5RgbaUnormSrgb) }
    else if hal_format == 163 { Some(TextureFormat::Astc6x5RgbaUnorm) }
    else if hal_format == 164 { Some(TextureFormat::Astc6x5RgbaUnormSrgb) }
    else if hal_format == 165 { Some(TextureFormat::Astc6x6RgbaUnorm) }
    else if hal_format == 166 { Some(TextureFormat::Astc6x6RgbaUnormSrgb) }
    else if hal_format == 167 { Some(TextureFormat::Astc8x5RgbaUnorm) }
    else if hal_format == 168 { Some(TextureFormat::Astc8x5RgbaUnormSrgb) }
    else if hal_format == 169 { Some(TextureFormat::Astc8x6RgbaUnorm) }
    else if hal_format == 170 { Some(TextureFormat::Astc8x6RgbaUnormSrgb) }
    else if hal_format == 173 { Some(TextureFormat::Astc10x5RgbaUnorm) }
    else if hal_format == 174 { Some(TextureFormat::Astc10x5RgbaUnormSrgb) }
    else if hal_format == 175 { Some(TextureFormat::Astc10x6RgbaUnorm) }
    else if hal_format == 176 { Some(TextureFormat::Astc10x6RgbaUnormSrgb) }
    else if hal_format == 171 { Some(TextureFormat::Astc8x8RgbaUnorm) }
    else if hal_format == 172 { Some(TextureFormat::Astc8x8RgbaUnormSrgb) }
    else if hal_format == 177 { Some(TextureFormat::Astc10x8RgbaUnorm) }
    else if hal_format == 178 { Some(TextureFormat::Astc10x8RgbaUnormSrgb) }
    else if hal_format == 179 { Some(TextureFormat::Astc10x10RgbaUnorm) }
    else if hal_format == 180 { Some(TextureFormat::Astc10x10RgbaUnormSrgb) }
    else if hal_format == 181 { Some(TextureFormat::Astc12x10RgbaUnorm) }
    else if hal_format == 182 { Some(TextureFormat::Astc12x10RgbaUnormSrgb) }
    else if hal_format == 183 { Some(TextureFormat::Astc12x12RgbaUnorm) }
    else if hal_format == 184 { Some(TextureFormat::Astc12x12RgbaUnormSrgb) }
    else { None }
}

/// Step two of the table, executable form.
pub fn map_texture_format(hal_format: u32) -> (r: Option<TextureFormat>)
    ensures
        r == texture_format_of_hal(hal_format),
{
    if hal_format == 9 { Some(TextureFormat::R8Unorm) }
    else if hal_format == 10 { Some(TextureFormat::R8Snorm) }
    else if hal_format == 13 { Some(TextureFormat::R8Uint) }
    else if hal_format == 14 { Some(TextureFormat::R8Sint) }
    else if hal_format == 74 { Some(TextureFormat::R16Uint) }
    else if hal_format == 75 { Some(TextureFormat::R16Sint) }
    else if hal_format == 76 { Some(TextureFormat::R16Float) }
    else if hal_format == 16 { Some(TextureFormat::Rg8Unorm) }
    else if hal_format == 17 { Some(TextureFormat::Rg8Snorm) }
    else if hal_format == 20 { Some(TextureFormat::Rg8Uint) }
    else if hal_format == 21 { Some(TextureFormat::Rg8Sint) }
    else if hal_format == 98 { Some(TextureFormat::R32Uint) }
    else if hal_format == 99 { Some(TextureFormat::R32Sint) }
    else if hal_format == 100 { Some(TextureFormat::R32Float) }
    else if hal_format == 81 { Some(TextureFormat::Rg16Uint) }
    else if hal_format == 82 { Some(TextureFormat::Rg16Sint) }
    else if hal_format == 83 { Some(TextureFormat::Rg16Float) }
    else if hal_format == 37 { Some(TextureFormat::Rgba8Unorm) }
    else if hal_format == 43 { Some(TextureFormat::Rgba8UnormSrgb) }
    else if hal_format == 38 { Some(TextureFormat::Rgba8Snorm) }
    else if hal_format == 41 { Some(TextureFormat::Rgba8Uint) }
    else if hal_format == 42 { Some(TextureFormat::Rgba8Sint) }
    else if hal_format == 44 { Some(TextureFormat::Bgra8Unorm) }
    else if hal_format == 50 { Some(TextureFormat::Bgra8UnormSrgb) }
    else if hal_format == 58 { Some(TextureFormat::Rgb10a2Unorm) }
    else if hal_format == 122 { Some(TextureFormat::Rg11b10Float) }
    else if hal_format == 101 { Some(TextureFormat::Rg32Uint) }
    else if hal_format == 102 { Some(TextureFormat::Rg32Sint) }
    else if hal_format == 103 { Some(TextureFormat::Rg32Float) }
    else if hal_format == 95 { Some(TextureFormat::Rgba16Uint) }
    else if hal_format == 96 { Some(TextureFormat::Rgba16Sint) }
    else if hal_format == 97 { Some(TextureFormat::Rgba16Float) }
    else if hal_format == 107 { Some(TextureFormat::Rgba32Uint) }
    else if hal_format == 108 { Some(TextureFormat::Rgba32Sint) }
    else if hal_format == 109 { Some(TextureFormat::Rgba32Float) }
    else if hal_format == 126 { Some(TextureFormat::Depth32Float) }
    else if hal_format == 125 { Some(TextureFormat::Depth24Plus) }
    else if hal_format == 129 { Some(TextureFormat::Depth24Plus) }
    else if hal_format == 130 { Some(TextureFormat::Depth24Plus) }
    else if hal_format == 133 { Some(TextureFormat::Bc1RgbaUnorm) }
    else if hal_format == 134 { Some(TextureFormat::Bc1RgbaUnormSrgb) }
    else if hal_format == 135 { Some(TextureFormat::Bc2RgbaUnorm) }
    else if hal_format == 136 { Some(TextureFormat::Bc2RgbaUnormSrgb) }
    else if hal_format == 137 { Some(TextureFormat::Bc3RgbaUnorm) }
    else if hal_format == 138 { Some(TextureFormat::Bc3RgbaUnormSrgb) }
    else if hal_format == 139 { Some(TextureFormat::Bc4RUnorm) }
    else if hal_format == 140 { Some(TextureFormat::Bc4RSnorm) }
    else if hal_format == 141 { Some(TextureFormat::Bc5RgUnorm) }
    else if hal_format == 142 { Some(TextureFormat::Bc5RgSnorm) }
    else if hal_format == 144 { Some(TextureFormat::Bc6hRgbSfloat) }
    else if hal_format == 143 { Some(TextureFormat::Bc6hRgbUfloat) }
    else if hal_format == 145 { Some(TextureFormat::Bc7RgbaUnorm) }
    else if hal_format == 146 { Some(TextureFormat::Bc7RgbaUnormSrgb) }
    else if hal_format == 147 { Some(TextureFormat::Etc2RgbUnorm) }
    else if hal_format == 148 { Some(TextureFormat::Etc2RgbUnormSrgb) }
    else if hal_format == 149 { Some(TextureFormat::Etc2RgbA1Unorm) }
    else if hal_format == 150 { Some(TextureFormat::Etc2RgbA1UnormSrgb) }
    else if hal_format == 151 { Some(TextureFormat::Etc2RgbA8Unorm) }
    else if hal_format == 153 { Some(TextureFormat::EacRUnorm) }
    else if hal_format == 154 { Some(TextureFormat::EacRSnorm) }
    else if hal_format == 155 { Some(TextureFormat::EtcRgUnorm) }
    else if hal_format == 156 { Some(TextureFormat::EtcRgSnorm) }
    else if hal_format == 158 { Some(TextureFormat::Astc4x4RgbaUnormSrgb) }
    else if hal_format == 159 { Some(TextureFormat::Astc5x4RgbaUnorm) }
    else if hal_format == 160 { Some(TextureFormat::Astc5x4RgbaUnormSrgb) }
    else if hal_format == 161 { Some(TextureFormat::Astc5x5RgbaUnorm) }
    else if hal_format == 162 { Some(TextureFormat::Astc5x5RgbaUnormSrgb) }
    else if hal_format == 163 { Some(TextureFormat::Astc6x5RgbaUnorm) }
    else if hal_format == 164 { Some(TextureFormat::Astc6x5RgbaUnormSrgb) }
    else if hal_format == 165 { Some(TextureFormat::Astc6x6RgbaUnorm) }
    else if hal_format == 166 { Some(TextureFormat::Astc6x6RgbaUnormSrgb) }
    else if hal_format == 167 { Some(TextureFormat::Astc8x5RgbaUnorm) }
    else if hal_format == 168 { Some(TextureFormat::Astc8x5RgbaUnormSrgb) }
    else if hal_format == 169 { Some(TextureFormat::Astc8x6RgbaUnorm) }
    else if hal_format == 170 { Some(TextureFormat::Astc8x6RgbaUnormSrgb) }
    else if hal_format == 173 { Some(TextureFormat::Astc10x5RgbaUnorm) }
    else if hal_format == 174 { Some(TextureFormat::Astc10x5RgbaUnormSrgb) }
    else if hal_format == 175 { Some(TextureFormat::Astc10x6RgbaUnorm) }
    else if hal_format == 176 { Some(TextureFormat::Astc10x6RgbaUnormSrgb) }
    else if hal_format == 171 { Some(TextureFormat::Astc8x8RgbaUnorm) }
    else if hal_format == 172 { Some(TextureFormat::Astc8x8RgbaUnormSrgb) }
    else if hal_format == 177 { Some(TextureFormat::Astc10x8RgbaUnorm) }
    else if hal_format == 178 { Some(TextureFormat::Astc10x8RgbaUnormSrgb) }
    else if hal_format == 179 { Some(TextureFormat::Astc10x10RgbaUnorm) }
    else if hal_format == 180 { Some(TextureFormat::Astc10x10RgbaUnormSrgb) }
    else if hal_format == 181 { Some(TextureFormat::Astc12x10RgbaUnorm) }
    else if hal_format == 182 { Some(TextureFormat::Astc12x10RgbaUnormSrgb) }
    else if hal_format == 183 { Some(TextureFormat::Astc12x12RgbaUnorm) }
    else if hal_format == 184 { Some(TextureFormat::Astc12x12RgbaUnormSrgb) }
    else { None }
}

/// The runtime advertises 64-bit codes; the table is keyed by their low 32
/// bits, read as a signed value, exactly as the codes reach the two steps.
pub open spec fn hal_format_of_runtime(code: i64) -> Option<u32> {
    hal_format_of_vk(code as i32)
}

/// Both steps composed: which host texture format a runtime code renders to.
pub open spec fn texture_format_of_runtime(code: i64) -> Option<TextureFormat> {
    match hal_format_of_runtime(code) {
        Some(hal) => texture_format_of_hal(hal),
        None => None,
    }
}

/// A runtime code is supported when both steps of the table succeed on it.
pub open spec fn runtime_code_supported(code: i64) -> bool {
    texture_format_of_runtime(code) is Some
}

/// How far one advertised runtime code got through the two mapping steps.
/// Reported (never silently dropped) to aid diagnosing environment mismatches.
#[derive(Clone, Copy, Debug, PartialEq, Eq, Structural)]
pub struct FormatMapping {
    pub runtime_code: i64,
    pub hal_format: Option<u32>,
    pub texture_format: Option<TextureFormat>,
}

/// What both steps of the table say about one runtime code.
pub open spec fn mapping_of_runtime(code: i64) -> FormatMapping {
    FormatMapping {
        runtime_code: code,
        hal_format: hal_format_of_runtime(code),
        texture_format: texture_format_of_runtime(code),
    }
}

/// Run one advertised code through both mapping steps.
pub fn map_runtime_format(code: i64) -> (m: FormatMapping)
    ensures
        m == mapping_of_runtime(code),
{
    let vk_format: i32 = #[verifier::truncate] (code as i32);
    let hal_format = map_vk_format(vk_format);
    let texture_format = match hal_format {
        Some(hal) => map_texture_format(hal),
        None => None,
    };
    FormatMapping { runtime_code: code, hal_format, texture_format }
}

/// The outcome of a successful negotiation: the first advertised code that
/// both steps of the table accept, and what it mapped to.
#[derive(Clone, Copy, Debug, PartialEq, Eq, Structural)]
pub struct SelectedFormat {
    /// Position of the chosen code in the runtime's enumeration order.
    pub index: usize,
    pub runtime_code: i64,
    pub hal_format: u32,
    pub texture_format: TextureFormat,
}

/// Fatal startup condition: no advertised code is supported, so the
/// environment has no output format and the session cannot proceed. Carries
/// every attempted mapping, in enumeration order, for the startup diagnostic.
#[derive(Clone, Debug)]
pub struct NoSupportedFormat {
    pub attempted: Vec<FormatMapping>,
}

/// Select the first advertised runtime format code, in enumeration order, for
/// which both mapping steps succeed; report every attempted mapping if none
/// does. The selection is a pure function of the advertised list.
pub fn negotiate_swapchain_format(codes: &Vec<i64>) -> (r: Result<
    SelectedFormat,
    NoSupportedFormat,
>)
    ensures
        r is Ok <==> exists|j: int| 0 <= j < codes@.len() && runtime_code_supported(codes@[j]),
        r matches Ok(sel) ==> {
            &&& sel.index < codes@.len()
            &&& sel.runtime_code == codes@[sel.index as int]
            &&& hal_format_of_runtime(sel.runtime_code) == Some(sel.hal_format)
            &&& texture_format_of_runtime(sel.runtime_code) == Some(sel.texture_format)
            &&& forall|j: int|
                0 <= j < sel.index ==> !runtime_code_supported(#[trigger] codes@[j])
        },
        r matches Err(failure) ==> {
            &&& failure.attempted@.len() == codes@.len()
            &&& forall|j: int|
                0 <= j < codes@.len() ==> #[trigger] failure.attempted@[j]
                    == mapping_of_runtime(codes@[j])
        },
{
    let mut attempted: Vec<FormatMapping> = Vec::new();
    let n = codes.len();
    let mut i: usize = 0;
    while i < n
        invariant
            n == codes@.len(),
            0 <= i <= n,
            attempted@.len() == i,
            forall|j: int| 0 <= j < i ==> #[trigger] attempted@[j] == mapping_of_runtime(codes@[j]),
            forall|j: int| 0 <= j < i ==> !runtime_code_supported(#[trigger] codes@[j]),
        decreases n - i,
    {
        let code = codes[i];
        let mapping = map_runtime_format(code);
        if let (Some(hal_format), Some(texture_format)) = (mapping.hal_format, mapping.texture_format)
        {
            return Ok(SelectedFormat { index: i, runtime_code: code, hal_format, texture_format });
        }
        attempted.push(mapping);
        i = i + 1;
    }
    Err(NoSupportedFormat { attempted })
}

/// Negotiation is deterministic: any result meeting the selection contract is
/// the one position holding the first supported code. Given a list whose entry
/// at `k` is supported while every earlier entry is not, negotiation can only
/// select position `k`.
pub proof fn lemma_negotiation_deterministic(codes: Seq<i64>, k: int, sel: SelectedFormat)
    requires
        0 <= k < codes.len(),
        runtime_code_supported(codes[k]),
        forall|j: int| 0 <= j < k ==> !runtime_code_supported(#[trigger] codes[j]),
        sel.index < codes.len(),
        sel.runtime_code == codes[sel.index as int],
        runtime_code_supported(sel.runtime_code),
        forall|j: int| 0 <= j < sel.index ==> !runtime_code_supported(#[trigger] codes[j]),
    ensures
        sel.index == k,
{
    if sel.index < k {
        assert(!runtime_code_supported(codes[sel.index as int]));
    } else if k < sel.index {
        assert(!runtime_code_supported(codes[k]));
    }
}

} // verus!
