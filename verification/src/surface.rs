//! The size of the presentation surface and its configuration.

use vstd::prelude::*;

verus! {

/// The physical size of a presentation surface, in pixels.
#[derive(Clone, Copy, Debug, PartialEq, Eq, Structural)]
pub struct SurfaceSize {
    pub width: u32,
    pub height: u32,
}

impl SurfaceSize {
    /// A surface can be presented to only while neither extent is zero.
    pub open spec fn presentable(self) -> bool {
        self.width > 0 && self.height > 0
    }

    /// The size `width` by `height`.
    pub fn new(width: u32, height: u32) -> (s: SurfaceSize)
        ensures
            s == (SurfaceSize { width, height }),
    {
        SurfaceSize { width, height }
    }

    /// Whether neither extent is zero.
    pub fn is_presentable(&self) -> (p: bool)
        ensures
            p == self.presentable(),
    {
        self.width > 0 && self.height > 0
    }
}

/// `wgpu::TextureFormat`, the pixel format of a surface. Nothing is
/// claimed of it: the drawing layer only carries it.
#[verifier::external_type_specification]
#[verifier::external_body]
pub struct ExTextureFormat(wgpu::TextureFormat);

/// `wgpu::PresentMode`, the way a surface hands its images to the screen.
/// Nothing is claimed of it: the drawing layer only carries it.
#[verifier::external_type_specification]
#[verifier::external_body]
pub struct ExPresentMode(wgpu::PresentMode);

/// What the backend has to do to the presentation target after a size was
/// observed.
#[derive(Clone, Copy, Debug, PartialEq, Eq)]
pub enum ConfigureAction {
    /// Apply this configuration to the presentation target.
    Apply(SurfaceConfig),
    /// The surface has no area. Leave the target as it is: no image can be
    /// acquired until a size with area is observed.
    Suspend,
}

/// What the presentation target is configured with: the most recently
/// observed size, the pixel format and the presentation mode.
///
/// Only a change of size changes a configuration. The format and the mode
/// are chosen when the target is created and stay.
#[derive(Clone, Copy, Debug, PartialEq, Eq)]
pub struct SurfaceConfig {
    size: SurfaceSize,
    format: wgpu::TextureFormat,
    present_mode: wgpu::PresentMode,
}

impl SurfaceConfig {
    /// The most recently observed size.
    pub closed spec fn size(self) -> SurfaceSize {
        self.size
    }

    /// The pixel format.
    pub closed spec fn pixel_format(self) -> wgpu::TextureFormat {
        self.format
    }

    /// The presentation mode.
    pub closed spec fn mode(self) -> wgpu::PresentMode {
        self.present_mode
    }

    /// The same format and mode with another size.
    pub closed spec fn with_size(self, size: SurfaceSize) -> SurfaceConfig {
        SurfaceConfig { size, format: self.format, present_mode: self.present_mode }
    }

    /// What this configuration asks of the backend: to be applied, while
    /// it has area.
    pub open spec fn action(self) -> ConfigureAction {
        if self.size().presentable() {
            ConfigureAction::Apply(self)
        } else {
            ConfigureAction::Suspend
        }
    }

    /// One call of [`SurfaceConfig::configure`] with `size` may lead from
    /// `before` to `after` and answer `action`.
    pub open spec fn configured(
        before: SurfaceConfig,
        size: SurfaceSize,
        after: SurfaceConfig,
        action: ConfigureAction,
    ) -> bool {
        &&& after == before.with_size(size)
        &&& action == after.action()
    }

    /// A configuration is what it is made of.
    pub broadcast proof fn with_size_keeps_the_rest(self, size: SurfaceSize)
        ensures
            (#[trigger] self.with_size(size)).size() == size,
            self.with_size(size).pixel_format() == self.pixel_format(),
            self.with_size(size).mode() == self.mode(),
            self.with_size(self.size()) == self,
    {
    }

    /// The configuration of a target that was created with `size`,
    /// `format` and `present_mode`.
    pub fn new(size: SurfaceSize, format: wgpu::TextureFormat, present_mode: wgpu::PresentMode) -> (c:
        SurfaceConfig)
        ensures
            c.size() == size,
            c.pixel_format() == format,
            c.mode() == present_mode,
    {
        SurfaceConfig { size, format, present_mode }
    }

    /// Records `size` as the observed size and says what the backend has to
    /// do. Calling it again with the same size changes nothing and gives the
    /// same answer.
    pub fn configure(&mut self, size: SurfaceSize) -> (action: ConfigureAction)
        ensures
            Self::configured(*old(self), size, *final(self), action),
    {
        self.size = size;
        self.current_action()
    }

    /// What this configuration asks of the backend.
    pub fn current_action(&self) -> (action: ConfigureAction)
        ensures
            action == self.action(),
    {
        if self.size.is_presentable() {
            ConfigureAction::Apply(*self)
        } else {
            ConfigureAction::Suspend
        }
    }

    /// The pixel format.
    pub fn format(&self) -> (f: wgpu::TextureFormat)
        ensures
            f == self.pixel_format(),
    {
        self.format
    }

    /// The presentation mode.
    pub fn present_mode(&self) -> (m: wgpu::PresentMode)
        ensures
            m == self.mode(),
    {
        self.present_mode
    }

    /// The most recently observed size.
    pub fn current_size(&self) -> (s: SurfaceSize)
        ensures
            s == self.size(),
    {
        self.size
    }

    /// Whether a frame can be recorded at the current size.
    pub fn is_presentable(&self) -> (p: bool)
        ensures
            p == self.size().presentable(),
    {
        self.size.is_presentable()
    }

    /// Configuring twice in a row with the same size leaves the reported size
    /// and the whole configuration as the first call left them, and both calls
    /// give the same answer. Neither call can fail.
    pub proof fn configure_is_idempotent(
        before: SurfaceConfig,
        size: SurfaceSize,
        once: SurfaceConfig,
        first: ConfigureAction,
        twice: SurfaceConfig,
        second: ConfigureAction,
    )
        requires
            Self::configured(before, size, once, first),
            Self::configured(once, size, twice, second),
        ensures
            twice == once,
            twice.size() == size,
            twice.pixel_format() == before.pixel_format(),
            twice.mode() == before.mode(),
            second == first,
    {
    }
}

} // verus!
