//! The engine's error taxonomy. Every failure is fatal for the current run:
//! construction failures keep the loop from starting, and a polling failure
//! aborts the loop and is surfaced to the embedder.

use vstd::prelude::*;
use vstd::string::StringExecFns;

verus! {

/// An engine error, carrying a description of the underlying failure.
#[derive(Debug)]
pub enum UbiError {
    SdlError(String),
    GlError(String),
    ResourceError(String),
    ShaderError(String),
    WindowError(String),
    IoError(String),
    ModelError(String),
    TextureError(String),
    EcsError(String),
    Other(String),
}

/// The display form of an error: a prefix naming the failure kind, then the
/// carried description.
pub open spec fn spec_error_message(e: UbiError) -> Seq<char> {
    match e {
        UbiError::SdlError(m) => "SDL2 error: "@ + m@,
        UbiError::GlError(m) => "OpenGL error: "@ + m@,
        UbiError::ResourceError(m) => "Resource loading error: "@ + m@,
        UbiError::ShaderError(m) => "Shader compilation error: "@ + m@,
        UbiError::WindowError(m) => "Window creation error: "@ + m@,
        UbiError::IoError(m) => "IO error: "@ + m@,
        UbiError::ModelError(m) => "Model loading error: "@ + m@,
        UbiError::TextureError(m) => "Texture loading error: "@ + m@,
        UbiError::EcsError(m) => "ECS error: "@ + m@,
        UbiError::Other(m) => "Other engine error: "@ + m@,
    }
}

impl UbiError {
    /// Render the display form of this error.
    pub fn message(&self) -> (r: String)
        ensures
            r@ == spec_error_message(*self),
    {
        match self {
            UbiError::SdlError(m) => {
                let mut s = String::from_str("SDL2 error: ");
                s.append(m.as_str());
                s
            },
            UbiError::GlError(m) => {
                let mut s = String::from_str("OpenGL error: ");
                s.append(m.as_str());
                s
            },
            UbiError::ResourceError(m) => {
                let mut s = String::from_str("Resource loading error: ");
                s.append(m.as_str());
                s
            },
            UbiError::ShaderError(m) => {
                let mut s = String::from_str("Shader compilation error: ");
                s.append(m.as_str());
                s
            },
            UbiError::WindowError(m) => {
                let mut s = String::from_str("Window creation error: ");
                s.append(m.as_str());
                s
            },
            UbiError::IoError(m) => {
                let mut s = String::from_str("IO error: ");
                s.append(m.as_str());
                s
            },
            UbiError::ModelError(m) => {
                let mut s = String::from_str("Model loading error: ");
                s.append(m.as_str());
                s
            },
            UbiError::TextureError(m) => {
                let mut s = String::from_str("Texture loading error: ");
                s.append(m.as_str());
                s
            },
            UbiError::EcsError(m) => {
                let mut s = String::from_str("ECS error: ");
                s.append(m.as_str());
                s
            },
            UbiError::Other(m) => {
                let mut s = String::from_str("Other engine error: ");
                s.append(m.as_str());
                s
            },
        }
    }
}

} // verus!
