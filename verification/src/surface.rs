//! The swap configuration of a presentable surface, and the manager that
//! keeps it equal to the window's physical size.

use vstd::prelude::*;

verus! {

/// Physical extent of a window, in pixels.
#[derive(Clone, Copy, Debug, PartialEq, Eq, Structural)]
pub struct Size {
    pub width: u32,
    pub height: u32,
}

impl Size {
    /// Whether both sides are non-zero, so that a presentation chain of this
    /// extent holds at least one pixel.
    pub open spec fn has_area(self) -> bool {
        self.width > 0 && self.height > 0
    }

    pub fn new(width: u32, height: u32) -> (size: Size)
        ensures
            size == (Size { width, height }),
    {
        Size { width, height }
    }

    /// Decides `has_area`.
    pub fn is_presentable(&self) -> (yes: bool)
        ensures
            yes == self.has_area(),
    {
        self.width > 0 && self.height > 0
    }
}

/// Encoding of the pixels of a presentable image.
#[derive(Clone, Copy, Debug, PartialEq, Eq, Structural)]
pub enum PixelFormat {
    Rgba8Unorm,
    Rgba8UnormSrgb,
    Bgra8Unorm,
    Bgra8UnormSrgb,
}

/// How finished images are handed to the display.
#[derive(Clone, Copy, Debug, PartialEq, Eq, Structural)]
pub enum PresentMode {
    Immediate,
    Mailbox,
    Fifo,
}

/// What a presentation chain is built from.
#[derive(Clone, Copy, Debug, PartialEq, Eq, Structural)]
pub struct SurfaceConfig {
    pub width: u32,
    pub height: u32,
    pub format: PixelFormat,
    pub present_mode: PresentMode,
}

impl SurfaceConfig {
    /// The configuration for a window of the given size: its extent is the
    /// size, its pixels are BGRA with sRGB encoding, and images are queued
    /// first in, first out.
    pub open spec fn for_size(size: Size) -> SurfaceConfig {
        SurfaceConfig {
            width: size.width,
            height: size.height,
            format: PixelFormat::Bgra8UnormSrgb,
            present_mode: PresentMode::Fifo,
        }
    }

    /// The extent that the configuration describes.
    pub open spec fn extent(self) -> Size {
        Size { width: self.width, height: self.height }
    }

    /// The same format and presentation mode at another extent.
    pub open spec fn with_extent(self, size: Size) -> SurfaceConfig {
        SurfaceConfig {
            width: size.width,
            height: size.height,
            format: self.format,
            present_mode: self.present_mode,
        }
    }

    pub fn new(size: Size) -> (config: SurfaceConfig)
        ensures
            config == SurfaceConfig::for_size(size),
    {
        SurfaceConfig {
            width: size.width,
            height: size.height,
            format: PixelFormat::Bgra8UnormSrgb,
            present_mode: PresentMode::Fifo,
        }
    }

    pub fn size(&self) -> (size: Size)
        ensures
            size == self.extent(),
    {
        Size { width: self.width, height: self.height }
    }

    /// Moves the configuration to a new extent and leaves the rest alone.
    pub fn resized(&self, size: Size) -> (config: SurfaceConfig)
        ensures
            config == self.with_extent(size),
    {
        SurfaceConfig {
            width: size.width,
            height: size.height,
            format: self.format,
            present_mode: self.present_mode,
        }
    }
}

/// Owner of the swap configuration.
///
/// The manager remembers the size it was last configured for together with
/// the configuration itself, and keeps the two in step: at every moment the
/// configuration is the one that `SurfaceConfig::for_size` gives for that
/// size.  Its view is the size.
#[derive(Clone, Copy, Debug, PartialEq, Eq)]
pub struct SurfaceManager {
    size: Size,
    config: SurfaceConfig,
}

impl View for SurfaceManager {
    type V = Size;

    closed spec fn view(&self) -> Size {
        self.size
    }
}

impl SurfaceManager {
    #[verifier::type_invariant]
    closed spec fn in_step(&self) -> bool {
        self.config == SurfaceConfig::for_size(self.size)
    }

    /// A manager for a window of the given size.
    pub fn new(size: Size) -> (manager: SurfaceManager)
        ensures
            manager@ == size,
    {
        SurfaceManager { size, config: SurfaceConfig::new(size) }
    }

    /// The size last configured for.
    pub fn size(&self) -> (size: Size)
        ensures
            size == self@,
    {
        self.size
    }

    /// The configuration to build the presentation chain from.
    pub fn config(&self) -> (config: SurfaceConfig)
        ensures
            config == SurfaceConfig::for_size(self@),
    {
        proof {
            use_type_invariant(self);
        }
        self.config
    }

    /// Takes over a new window size.  The format and the presentation mode
    /// stay as they were made; only the extent follows the window.  The
    /// caller rebuilds the presentation chain from the configuration
    /// returned.
    pub fn reconfigure(&mut self, new_size: Size) -> (config: SurfaceConfig)
        ensures
            final(self)@ == new_size,
            config == SurfaceConfig::for_size(new_size),
    {
        proof {
            use_type_invariant(&*self);
        }
        let config = self.config.resized(new_size);
        *self = SurfaceManager { size: new_size, config };
        config
    }
}

} // verus!
