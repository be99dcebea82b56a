//! General purpose GPU toolkit: the verified core.
//!
//! The numeric pieces (polynomials, plane points, binomial weights), the
//! bookkeeping of font faces, the event-loop decisions, configuration and
//! the tables of adapter limits live here with their contracts.

use vstd::prelude::*;
use vstd::string::StringExecFns;

pub mod config;
pub mod dom;
pub mod fonts;
pub mod math;
pub mod niw;
pub mod plane;
pub mod point_laws;
pub mod pretty;
pub mod util;

verus! {

/// Error variants that are returned by this package's API.
///
/// Each variant carries a prefix, typically identifying the error location,
/// and a message.
pub enum Error {
    Fatal(String, String),
    Invalid(String, String),
    FailConvert(String, String),
    IOError(String, String),
    IPCError(String, String),
    Vk(String, String),
    Wgpu(String, String),
    SurfaceLost(String, String),
    SurfaceOutOfMemory(String, String),
    SurfaceOutdated(String, String),
}

/// Type alias for Result return type, used by this package.
pub type Result<T> = std::result::Result<T, Error>;

/// The text of an error: its prefix, its kind and its message.
pub open spec fn error_text(e: Error) -> Seq<char> {
    match e {
        Error::Fatal(p, m) => p@ + " Fatal: "@ + m@,
        Error::Invalid(p, m) => p@ + " Invalid: "@ + m@,
        Error::FailConvert(p, m) => p@ + " FailConvert: "@ + m@,
        Error::IOError(p, m) => p@ + " IOError: "@ + m@,
        Error::IPCError(p, m) => p@ + " IPCError: "@ + m@,
        Error::Vk(p, m) => p@ + " Vk: "@ + m@,
        Error::Wgpu(p, m) => p@ + " Wgpu: "@ + m@,
        Error::SurfaceLost(p, m) => p@ + " SurfaceLost: "@ + m@,
        Error::SurfaceOutOfMemory(p, m) => p@ + " SurfaceOutOfMemory: "@ + m@,
        Error::SurfaceOutdated(p, m) => p@ + " SurfaceOutdated: "@ + m@,
    }
}

impl Error {
    /// A copy of the error: the same kind, prefix and message.
    pub fn duplicate(&self) -> (r: Error)
        ensures
            r == *self,
    {
        match self {
            Error::Fatal(p, m) => Error::Fatal(p.clone(), m.clone()),
            Error::Invalid(p, m) => Error::Invalid(p.clone(), m.clone()),
            Error::FailConvert(p, m) => Error::FailConvert(p.clone(), m.clone()),
            Error::IOError(p, m) => Error::IOError(p.clone(), m.clone()),
            Error::IPCError(p, m) => Error::IPCError(p.clone(), m.clone()),
            Error::Vk(p, m) => Error::Vk(p.clone(), m.clone()),
            Error::Wgpu(p, m) => Error::Wgpu(p.clone(), m.clone()),
            Error::SurfaceLost(p, m) => Error::SurfaceLost(p.clone(), m.clone()),
            Error::SurfaceOutOfMemory(p, m) => Error::SurfaceOutOfMemory(p.clone(), m.clone()),
            Error::SurfaceOutdated(p, m) => Error::SurfaceOutdated(p.clone(), m.clone()),
        }
    }

    /// The text of the error, `"<prefix> <Kind>: <message>"`.
    pub fn to_text(&self) -> (r: String)
        ensures
            r@ == error_text(*self),
    {
        let (p, kind, m) = match self {
            Error::Fatal(p, m) => (p, " Fatal: ", m),
            Error::Invalid(p, m) => (p, " Invalid: ", m),
            Error::FailConvert(p, m) => (p, " FailConvert: ", m),
            Error::IOError(p, m) => (p, " IOError: ", m),
            Error::IPCError(p, m) => (p, " IPCError: ", m),
            Error::Vk(p, m) => (p, " Vk: ", m),
            Error::Wgpu(p, m) => (p, " Wgpu: ", m),
            Error::SurfaceLost(p, m) => (p, " SurfaceLost: ", m),
            Error::SurfaceOutOfMemory(p, m) => (p, " SurfaceOutOfMemory: ", m),
            Error::SurfaceOutdated(p, m) => (p, " SurfaceOutdated: ", m),
        };
        let mut s = String::from_str(p.as_str());
        s.append(kind);
        s.append(m.as_str());
        s
    }
}

/// Graphics backends that a device can run on.
#[derive(Clone, Copy, PartialEq, Eq, Structural, Debug)]
pub enum Backend {
    Empty,
    Vulkan,
    Metal,
    Dx12,
    Dx11,
    Gl,
    BrowserWebGpu,
}

/// Lower-case name of each backend.
pub open spec fn backend_name(b: Backend) -> Seq<char> {
    match b {
        Backend::Empty => "empty"@,
        Backend::Vulkan => "vulkan"@,
        Backend::Metal => "metal"@,
        Backend::Dx12 => "directx12"@,
        Backend::Dx11 => "directx11"@,
        Backend::Gl => "opengl"@,
        Backend::BrowserWebGpu => "web"@,
    }
}

/// Lower-case name of the backend.
pub fn backend_to_string(backend: Backend) -> (s: String)
    ensures
        s@ == backend_name(backend),
{
    let s = match backend {
        Backend::Empty => "empty",
        Backend::Vulkan => "vulkan",
        Backend::Metal => "metal",
        Backend::Dx12 => "directx12",
        Backend::Dx11 => "directx11",
        Backend::Gl => "opengl",
        Backend::BrowserWebGpu => "web",
    };
    String::from_str(s)
}

} // verus!
