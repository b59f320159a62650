//! The presentable surface: its size, its configuration and how it is set up.

use vstd::prelude::*;

verus! {

/// A size in physical pixels.
#[derive(Clone, Copy, Debug, PartialEq, Eq, Structural)]
pub struct Size {
    pub width: u32,
    pub height: u32,
}

impl Size {
    /// Whether a surface of this size can be configured: both dimensions are
    /// non-zero.
    pub open spec fn is_drawable(self) -> bool {
        self.width > 0 && self.height > 0
    }

    pub fn new(width: u32, height: u32) -> (r: Size)
        ensures
            r.width == width,
            r.height == height,
    {
        Size { width, height }
    }

    pub fn drawable(&self) -> (r: bool)
        ensures
            r == self.is_drawable(),
    {
        self.width > 0 && self.height > 0
    }
}

/// How presented frames are paced against the display.
#[derive(Clone, Copy, Debug, PartialEq, Eq, Structural)]
pub enum PresentMode {
    /// Frames wait for the vertical blank in a bounded queue: no tearing.
    Fifo,
    FifoRelaxed,
    Immediate,
    Mailbox,
}

/// How the surface's alpha channel is composited with what lies behind the
/// window.
#[derive(Clone, Copy, Debug, PartialEq, Eq, Structural)]
pub enum AlphaMode {
    Auto,
    Opaque,
    PreMultiplied,
    PostMultiplied,
    Inherit,
}

/// What a texture, or the images of a surface, may be used for.
#[derive(Clone, Copy, Debug, PartialEq, Eq, Structural)]
pub struct TextureUsage {
    pub copy_src: bool,
    pub copy_dst: bool,
    pub texture_binding: bool,
    pub storage_binding: bool,
    pub render_attachment: bool,
}

/// The configuration of the surface.
///
/// `format` is an index into the list of pixel formats that the surface
/// reported as supported.
#[derive(Clone, Copy, Debug, PartialEq, Eq, Structural)]
pub struct SurfaceConfig {
    pub usage: TextureUsage,
    pub format: usize,
    pub width: u32,
    pub height: u32,
    pub present_mode: PresentMode,
    pub alpha_mode: AlphaMode,
}

/// Why the surface could not be set up.
#[derive(Clone, Copy, Debug, PartialEq, Eq, Structural)]
pub enum InitError {
    NoAdapterFound,
    DeviceRequestFailed,
    NoSupportedFormat,
}

/// What the graphics backend answered during start-up.
#[derive(Clone, Copy, Debug, PartialEq, Eq, Structural)]
pub enum BackendReport {
    /// No adapter is compatible with the window's surface.
    NoAdapter,
    /// An adapter was found, but it refused a device with default features
    /// and limits.
    DeviceRefused,
    /// Adapter, device and queue exist; the surface supports `formats` pixel
    /// formats.
    Ready { formats: usize },
}

impl BackendReport {
    /// Whether start-up configures the surface on this report: device and
    /// queue exist and the surface supports a format.
    pub open spec fn configures(self) -> bool {
        self matches BackendReport::Ready { formats } && formats > 0
    }

    pub fn will_configure(&self) -> (r: bool)
        ensures
            r == self.configures(),
    {
        match self {
            BackendReport::Ready { formats } => *formats > 0,
            _ => false,
        }
    }
}

impl SurfaceConfig {
    /// The size that the surface is configured to.
    pub open spec fn size(self) -> Size {
        Size { width: self.width, height: self.height }
    }

    /// The invariant of a configuration: it has a non-zero size.
    pub open spec fn wf(self) -> bool {
        self.width > 0 && self.height > 0
    }

    /// The configuration that start-up gives a surface of the given size: a
    /// render attachment and nothing else, in the first supported format, paced by the vertical
    /// blank, opaque.
    pub open spec fn initial(size: Size) -> SurfaceConfig {
        SurfaceConfig {
            usage: TextureUsage {
                copy_src: false,
                copy_dst: false,
                texture_binding: false,
                storage_binding: false,
                render_attachment: true,
            },
            format: 0,
            width: size.width,
            height: size.height,
            present_mode: PresentMode::Fifo,
            alpha_mode: AlphaMode::Opaque,
        }
    }

    /// This configuration after a request to resize to `size`: unchanged
    /// where a dimension is zero, else with the new width and height.
    pub open spec fn resized(self, size: Size) -> SurfaceConfig {
        if size.is_drawable() {
            SurfaceConfig { width: size.width, height: size.height, ..self }
        } else {
            self
        }
    }

    pub fn current_size(&self) -> (r: Size)
        ensures
            r == self.size(),
    {
        Size { width: self.width, height: self.height }
    }

    /// Applies a resize request. Returns whether the surface has to be
    /// reconfigured, which is the case exactly when the request was applied.
    pub fn resize(&mut self, size: Size) -> (reconfigure: bool)
        ensures
            *final(self) == old(self).resized(size),
            reconfigure == size.is_drawable(),
            old(self).wf() ==> final(self).wf(),
    {
        if size.width > 0 && size.height > 0 {
            self.width = size.width;
            self.height = size.height;
            true
        } else {
            false
        }
    }
}

/// The outcome that start-up owes to a backend report.
pub open spec fn init_outcome(size: Size, report: BackendReport) -> Result<SurfaceConfig, InitError> {
    match report {
        BackendReport::NoAdapter => Err(InitError::NoAdapterFound),
        BackendReport::DeviceRefused => Err(InitError::DeviceRequestFailed),
        BackendReport::Ready { formats } => if formats == 0 {
            Err(InitError::NoSupportedFormat)
        } else {
            Ok(SurfaceConfig::initial(size))
        },
    }
}

/// Picks the first of the formats that a surface supports.
pub fn first_format(formats: usize) -> (r: Result<usize, InitError>)
    ensures
        r == (if formats == 0 {
            Err::<usize, InitError>(InitError::NoSupportedFormat)
        } else {
            Ok::<usize, InitError>(0usize)
        }),
{
    if formats == 0 {
        Err(InitError::NoSupportedFormat)
    } else {
        Ok(0)
    }
}

/// Decides the surface configuration from the window's size and the backend's
/// report, or says why there is none. The window has to be drawable only
/// where the report has the surface configured; a failure is reported
/// whatever the size.
pub fn initialize(size: Size, report: BackendReport) -> (r: Result<SurfaceConfig, InitError>)
    requires
        report.configures() ==> size.is_drawable(),
    ensures
        r == init_outcome(size, report),
        r is Ok <==> report.configures(),
        r is Ok ==> r->Ok_0.wf() && r->Ok_0.size() == size,
{
    match report {
        BackendReport::NoAdapter => Err(InitError::NoAdapterFound),
        BackendReport::DeviceRefused => Err(InitError::DeviceRequestFailed),
        BackendReport::Ready { formats } => {
            match first_format(formats) {
                Err(e) => Err(e),
                Ok(format) => Ok(
                    SurfaceConfig {
                        usage: TextureUsage {
                copy_src: false,
                copy_dst: false,
                texture_binding: false,
                storage_binding: false,
                render_attachment: true,
            },
                        format,
                        width: size.width,
                        height: size.height,
                        present_mode: PresentMode::Fifo,
                        alpha_mode: AlphaMode::Opaque,
                    },
                ),
            }
        },
    }
}

/// Resizing to a drawable size stores exactly that size.
pub proof fn lemma_resize_applies(config: SurfaceConfig, size: Size)
    requires
        size.is_drawable(),
    ensures
        config.resized(size).size() == size,
        config.resized(size).wf(),
        config.resized(size) == (SurfaceConfig { width: size.width, height: size.height, ..config }),
{
}

/// Resizing to a size with a zero dimension changes nothing.
pub proof fn lemma_resize_zero_ignored(config: SurfaceConfig, size: Size)
    requires
        size.width == 0 || size.height == 0,
    ensures
        config.resized(size) == config,
{
}

/// Resizing twice to the same size gives the configuration that resizing
/// once gives.
pub proof fn lemma_resize_idempotent(config: SurfaceConfig, size: Size)
    ensures
        config.resized(size).resized(size) == config.resized(size),
{
}

} // verus!
