//! Errors of the engine, and what the engine does about each of them.

use vstd::prelude::*;
use vstd::std_specs::convert::FromSpecImpl;

verus! {

/// `image::ImageError`, carried through unchanged when a texture fails to
/// decode. Nothing is claimed of its contents.
#[verifier::external_type_specification]
#[verifier::external_body]
pub struct ExImageError(image::ImageError);

/// `log::SetLoggerError`, carried through unchanged. Nothing is claimed of
/// its contents.
#[verifier::external_type_specification]
#[verifier::external_body]
pub struct ExSetLoggerError(log::SetLoggerError);

/// `wgpu::RequestDeviceError`, carried through unchanged. Nothing is claimed
/// of its contents.
#[verifier::external_type_specification]
#[verifier::external_body]
pub struct ExRequestDeviceError(wgpu::RequestDeviceError);

/// `winit::error::OsError`, carried through unchanged. Nothing is claimed of
/// its contents.
#[verifier::external_type_specification]
#[verifier::external_body]
pub struct ExOsError(winit::error::OsError);

/// `winit::error::ExternalError`, carried through unchanged. Nothing is
/// claimed of its contents.
#[verifier::external_type_specification]
#[verifier::external_body]
pub struct ExExternalError(winit::error::ExternalError);

/// Why the next frame of the surface could not be acquired.
#[derive(Copy, Clone, Debug, PartialEq, Eq, Structural)]
pub enum SurfaceError {
    /// Acquiring the frame took too long.
    Timeout,
    /// The surface changed underneath the swap chain.
    Outdated,
    /// The swap chain is gone and has to be made again.
    Lost,
    /// No memory is left for a new frame.
    OutOfMemory,
}

/// Everything that can go wrong while the engine starts or draws.
#[derive(Debug)]
pub enum Error {
    /// A texture's bytes could not be decoded.
    ImageImageError(image::ImageError),
    /// The logger could not be installed.
    LogSetLoggerError(log::SetLoggerError),
    /// No adapter is compatible with the surface.
    RequestAdapterError,
    /// The adapter would not open a device.
    WgpuRequestDeviceError(wgpu::RequestDeviceError),
    /// The next frame could not be acquired.
    WgpuSurfaceError(SurfaceError),
    /// The window could not be made.
    WinitOsError(winit::error::OsError),
    /// The cursor could not be placed.
    WinitExternalError(winit::error::ExternalError),
}

/// What the engine does once an error has been seen.
#[derive(Copy, Clone, Debug, PartialEq, Eq, Structural)]
pub enum Disposition {
    /// Give up: abort start-up, or leave the loop.
    Fatal,
    /// Configure the surface again with the size it has, and draw the next
    /// frame as usual.
    Reconfigure,
    /// Drop this frame and draw the next one as usual.
    SkipFrame,
    /// Report it and go on: nothing depends on the failed step.
    Ignore,
}

/// The disposition of each error.
pub open spec fn disposition_of(err: Error) -> Disposition {
    match err {
        Error::WgpuSurfaceError(SurfaceError::Lost) => Disposition::Reconfigure,
        Error::WgpuSurfaceError(SurfaceError::OutOfMemory) => Disposition::Fatal,
        Error::WgpuSurfaceError(SurfaceError::Timeout) => Disposition::SkipFrame,
        Error::WgpuSurfaceError(SurfaceError::Outdated) => Disposition::SkipFrame,
        Error::WinitExternalError(_) => Disposition::Ignore,
        Error::ImageImageError(_) => Disposition::Fatal,
        Error::LogSetLoggerError(_) => Disposition::Fatal,
        Error::RequestAdapterError => Disposition::Fatal,
        Error::WgpuRequestDeviceError(_) => Disposition::Fatal,
        Error::WinitOsError(_) => Disposition::Fatal,
    }
}

impl Error {
    /// Says what to do about this error: a lost surface is configured again,
    /// a frame that timed out or is outdated is skipped, a cursor that could
    /// not be placed is only reported, and everything else is fatal.
    pub fn disposition(&self) -> (d: Disposition)
        ensures
            d == disposition_of(*self),
    {
        match self {
            Error::WgpuSurfaceError(SurfaceError::Lost) => Disposition::Reconfigure,
            Error::WgpuSurfaceError(SurfaceError::OutOfMemory) => Disposition::Fatal,
            Error::WgpuSurfaceError(_) => Disposition::SkipFrame,
            Error::WinitExternalError(_) => Disposition::Ignore,
            _ => Disposition::Fatal,
        }
    }
}

impl From<winit::error::OsError> for Error {
    #[inline]
    fn from(err: winit::error::OsError) -> (e: Self) {
        Self::WinitOsError(err)
    }
}

impl FromSpecImpl<winit::error::OsError> for Error {
    open spec fn obeys_from_spec() -> bool {
        true
    }

    open spec fn from_spec(err: winit::error::OsError) -> Self {
        Error::WinitOsError(err)
    }
}

impl From<wgpu::RequestDeviceError> for Error {
    #[inline]
    fn from(err: wgpu::RequestDeviceError) -> (e: Self) {
        Self::WgpuRequestDeviceError(err)
    }
}

impl FromSpecImpl<wgpu::RequestDeviceError> for Error {
    open spec fn obeys_from_spec() -> bool {
        true
    }

    open spec fn from_spec(err: wgpu::RequestDeviceError) -> Self {
        Error::WgpuRequestDeviceError(err)
    }
}

impl From<log::SetLoggerError> for Error {
    #[inline]
    fn from(err: log::SetLoggerError) -> (e: Self) {
        Self::LogSetLoggerError(err)
    }
}

impl FromSpecImpl<log::SetLoggerError> for Error {
    open spec fn obeys_from_spec() -> bool {
        true
    }

    open spec fn from_spec(err: log::SetLoggerError) -> Self {
        Error::LogSetLoggerError(err)
    }
}

impl From<SurfaceError> for Error {
    #[inline]
    fn from(err: SurfaceError) -> (e: Self) {
        Self::WgpuSurfaceError(err)
    }
}

impl FromSpecImpl<SurfaceError> for Error {
    open spec fn obeys_from_spec() -> bool {
        true
    }

    open spec fn from_spec(err: SurfaceError) -> Self {
        Error::WgpuSurfaceError(err)
    }
}

impl From<winit::error::ExternalError> for Error {
    #[inline]
    fn from(err: winit::error::ExternalError) -> (e: Self) {
        Self::WinitExternalError(err)
    }
}

impl FromSpecImpl<winit::error::ExternalError> for Error {
    open spec fn obeys_from_spec() -> bool {
        true
    }

    open spec fn from_spec(err: winit::error::ExternalError) -> Self {
        Error::WinitExternalError(err)
    }
}

impl From<image::ImageError> for Error {
    #[inline]
    fn from(err: image::ImageError) -> (e: Self) {
        Self::ImageImageError(err)
    }
}

impl FromSpecImpl<image::ImageError> for Error {
    open spec fn obeys_from_spec() -> bool {
        true
    }

    open spec fn from_spec(err: image::ImageError) -> Self {
        Error::ImageImageError(err)
    }
}

} // verus!
