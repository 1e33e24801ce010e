//! The presentation surface: what it offers, how it is configured, and the
//! depth texture that follows its size.

use vstd::prelude::*;

verus! {

/// Largest accepted surface width or height, in pixels.
pub const MAX_SURFACE_DIMENSION: u32 = 8192;

/// Frames the surface may queue ahead of presentation.
pub const FRAME_LATENCY: u32 = 1;

/// A size in physical pixels.
#[derive(Clone, Copy, Debug, PartialEq, Eq, Structural)]
pub struct PhysicalSize {
    pub width: u32,
    pub height: u32,
}

/// Why the next surface texture could not be acquired.
#[derive(Clone, Copy, Debug, PartialEq, Eq, Structural)]
pub enum SurfaceError {
    /// The wait for a texture ran out.
    Timeout,
    /// The surface changed and has to be configured again.
    Outdated,
    /// The surface was lost and has to be configured again.
    Lost,
    /// No memory is left for a texture.
    OutOfMemory,
}

/// Why a scene could not be set up.
#[derive(Clone, Copy, Debug, PartialEq, Eq, Structural)]
pub enum InitError {
    /// The surface offers no texture format, present mode or alpha mode.
    IncompatibleSurface,
    /// The window is empty or larger than a surface may be.
    InvalidSize,
    /// The instance grid holds more instances than one draw can address.
    TooManyInstances,
}

/// A texture format, as `wgpu` names it.
#[verifier::external_type_specification]
#[verifier::external_body]
pub struct ExTextureFormat(wgpu::TextureFormat);

/// Whether `wgpu` counts a texture format among the sRGB formats.
pub uninterp spec fn format_is_srgb(format: wgpu::TextureFormat) -> bool;

/// Calls `wgpu::TextureFormat::is_srgb`, which compares the format with what
/// is left of it when its sRGB suffix is taken away. The answer depends on
/// the format alone.
#[verifier::external_body]
fn is_srgb(format: &wgpu::TextureFormat) -> (out: bool)
    ensures
        out == format_is_srgb(*format),
{
    format.is_srgb()
}

/// For each format, whether it is an sRGB format.
pub open spec fn srgb_flags(formats: Seq<wgpu::TextureFormat>) -> Seq<bool> {
    Seq::new(formats.len(), |i: int| format_is_srgb(formats[i]))
}

/// What a surface offers to an adapter: for each texture format, in the order
/// offered, whether it is an sRGB format; and how many present modes and
/// alpha modes there are to choose from.
#[derive(Clone, Debug, PartialEq, Eq)]
pub struct SurfaceCapabilities {
    pub formats_srgb: Vec<bool>,
    pub present_modes: usize,
    pub alpha_modes: usize,
}

/// How the surface is configured. `format`, `present_mode` and `alpha_mode`
/// are positions in the lists the surface offers.
#[derive(Clone, Copy, Debug, PartialEq, Eq, Structural)]
pub struct SurfaceConfiguration {
    pub width: u32,
    pub height: u32,
    pub format: usize,
    pub present_mode: usize,
    pub alpha_mode: usize,
    pub desired_maximum_frame_latency: u32,
}

/// Whether a surface of this size can be configured.
pub open spec fn size_is_valid(width: u32, height: u32) -> bool {
    0 < width <= MAX_SURFACE_DIMENSION && 0 < height <= MAX_SURFACE_DIMENSION
}

/// Whether `index` is the format to render to: the first sRGB format that is
/// offered, or the first format of all when none is sRGB.
pub open spec fn is_preferred_format(formats_srgb: Seq<bool>, index: int) -> bool {
    &&& 0 <= index < formats_srgb.len()
    &&& forall|k: int| 0 <= k < index ==> !formats_srgb[k]
    &&& (formats_srgb[index] || (index == 0 && forall|k: int|
        0 <= k < formats_srgb.len() ==> !formats_srgb[k]))
}

/// Whether a surface offers something of everything a configuration needs.
pub open spec fn is_compatible(caps: &SurfaceCapabilities) -> bool {
    caps.formats_srgb@.len() > 0 && caps.present_modes > 0 && caps.alpha_modes > 0
}

impl SurfaceCapabilities {
    /// Sums up what a surface offers: its texture formats in the order
    /// offered, and the number of its present modes and alpha modes.
    pub fn from_formats(
        formats: &Vec<wgpu::TextureFormat>,
        present_modes: usize,
        alpha_modes: usize,
    ) -> (out: SurfaceCapabilities)
        ensures
            out.formats_srgb@ == srgb_flags(formats@),
            out.present_modes == present_modes,
            out.alpha_modes == alpha_modes,
    {
        let mut formats_srgb: Vec<bool> = Vec::new();
        let mut i: usize = 0;
        while i < formats.len()
            invariant
                i <= formats.len(),
                formats_srgb@.len() == i,
                forall|k: int| 0 <= k < i ==> formats_srgb@[k] == format_is_srgb(formats@[k]),
            decreases formats.len() - i,
        {
            formats_srgb.push(is_srgb(&formats[i]));
            i += 1;
        }
        assert(formats_srgb@ == srgb_flags(formats@));
        SurfaceCapabilities { formats_srgb, present_modes, alpha_modes }
    }
}

/// Tests a requested surface size.
pub fn check_size(width: u32, height: u32) -> (ok: bool)
    ensures
        ok == size_is_valid(width, height),
{
    width > 0 && height > 0 && width <= MAX_SURFACE_DIMENSION && height <= MAX_SURFACE_DIMENSION
}

/// Picks the format to render to among those offered.
pub fn choose_surface_format(formats_srgb: &Vec<bool>) -> (out: Option<usize>)
    ensures
        out.is_some() <==> formats_srgb@.len() > 0,
        out matches Some(index) ==> is_preferred_format(formats_srgb@, index as int),
{
    if formats_srgb.len() == 0 {
        return None;
    }
    let mut i: usize = 0;
    while i < formats_srgb.len()
        invariant
            i <= formats_srgb.len(),
            forall|k: int| 0 <= k < i ==> !formats_srgb@[k],
        decreases formats_srgb.len() - i,
    {
        if formats_srgb[i] {
            return Some(i);
        }
        i += 1;
    }
    Some(0)
}

/// At most one position is the preferred format of a list.
pub proof fn preferred_format_is_unique(formats_srgb: Seq<bool>, a: int, b: int)
    requires
        is_preferred_format(formats_srgb, a),
        is_preferred_format(formats_srgb, b),
    ensures
        a == b,
{
    if a < b {
        assert(!formats_srgb[a]);
    } else if b < a {
        assert(!formats_srgb[b]);
    }
}

impl SurfaceConfiguration {
    /// Whether the size lies within the accepted bounds.
    pub open spec fn wf(&self) -> bool {
        size_is_valid(self.width, self.height)
    }

    /// Whether this is the configuration chosen for a surface with the
    /// given capabilities and a window of the given size.
    pub open spec fn is_initial(&self, caps: &SurfaceCapabilities, width: u32, height: u32) -> bool {
        &&& self.width == width
        &&& self.height == height
        &&& is_preferred_format(caps.formats_srgb@, self.format as int)
        &&& self.present_mode == 0
        &&& self.alpha_mode == 0
        &&& self.desired_maximum_frame_latency == FRAME_LATENCY
    }

    /// Configures a surface for a window of the given size: the preferred
    /// format, the first present mode and the first alpha mode offered.
    pub fn new(caps: &SurfaceCapabilities, width: u32, height: u32) -> (out: Result<
        SurfaceConfiguration,
        InitError,
    >)
        ensures
            match out {
                Ok(config) => {
                    &&& is_compatible(caps)
                    &&& size_is_valid(width, height)
                    &&& config.is_initial(caps, width, height)
                    &&& config.wf()
                },
                Err(InitError::IncompatibleSurface) => !is_compatible(caps),
                Err(InitError::InvalidSize) => is_compatible(caps) && !size_is_valid(width, height),
                Err(InitError::TooManyInstances) => false,
            },
    {
        if caps.present_modes == 0 || caps.alpha_modes == 0 {
            return Err(InitError::IncompatibleSurface);
        }
        match choose_surface_format(&caps.formats_srgb) {
            None => Err(InitError::IncompatibleSurface),
            Some(format) => {
                if check_size(width, height) {
                    Ok(
                        SurfaceConfiguration {
                            width,
                            height,
                            format,
                            present_mode: 0,
                            alpha_mode: 0,
                            desired_maximum_frame_latency: FRAME_LATENCY,
                        },
                    )
                } else {
                    Err(InitError::InvalidSize)
                }
            },
        }
    }

    /// The same configuration at another size.
    pub fn resized(&self, width: u32, height: u32) -> (out: SurfaceConfiguration)
        ensures
            out == (SurfaceConfiguration { width, height, ..*self }),
    {
        SurfaceConfiguration {
            width,
            height,
            format: self.format,
            present_mode: self.present_mode,
            alpha_mode: self.alpha_mode,
            desired_maximum_frame_latency: self.desired_maximum_frame_latency,
        }
    }
}

/// The depth texture. It is never resized in place: each surface size gets a
/// texture of its own, told apart from its predecessors by its epoch.
#[derive(Clone, Copy)]
pub struct DepthTexture {
    width: u32,
    height: u32,
    epoch: Ghost<nat>,
}

impl DepthTexture {
    /// Width in pixels.
    pub closed spec fn spec_width(&self) -> u32 {
        self.width
    }

    /// Height in pixels.
    pub closed spec fn spec_height(&self) -> u32 {
        self.height
    }

    /// How many textures came before this one.
    pub closed spec fn epoch(&self) -> nat {
        self.epoch@
    }

    /// Whether the texture has the size of the surface.
    pub open spec fn fits(&self, config: &SurfaceConfiguration) -> bool {
        self.spec_width() == config.width && self.spec_height() == config.height
    }

    /// The first depth texture, of the size of the surface.
    pub fn create_depth_texture(config: &SurfaceConfiguration) -> (out: DepthTexture)
        ensures
            out.fits(config),
            out.epoch() == 0,
    {
        DepthTexture { width: config.width, height: config.height, epoch: Ghost(0) }
    }

    /// The texture that takes this one's place when the surface changes.
    pub fn recreate(&self, config: &SurfaceConfiguration) -> (out: DepthTexture)
        ensures
            out.fits(config),
            out.epoch() == self.epoch() + 1,
    {
        DepthTexture {
            width: config.width,
            height: config.height,
            epoch: Ghost((self.epoch@ + 1) as nat),
        }
    }

    /// Width in pixels.
    pub fn width(&self) -> (out: u32)
        ensures
            out == self.spec_width(),
    {
        self.width
    }

    /// Height in pixels.
    pub fn height(&self) -> (out: u32)
        ensures
            out == self.spec_height(),
    {
        self.height
    }
}

} // verus!
