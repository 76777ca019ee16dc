//! Errors reported when a presentation window cannot be constructed. A
//! construction attempt may try several strategies in turn and combine two
//! failures into one paired error; the descriptive message then names both.

use vstd::prelude::*;
use vstd::string::StringExecFns;

verus! {

/// Why construction of a presentation window failed.
#[derive(Debug)]
pub enum CreationError {
    /// The operating system refused a required resource; the message
    /// carried names it.
    OsError(String),
    /// The requested feature is not supported on this backend.
    NotSupported(String),
    /// No presentation backend is available; the message of the underlying
    /// toolkit error is carried.
    NoBackendAvailable(String),
    RobustnessNotSupported,
    OpenGlVersionNotSupported,
    NoAvailablePixelFormat,
    /// A platform-specific failure, described by its message.
    PlatformSpecific(String),
    /// The toolkit failed to create the native window; its error's
    /// description is carried.
    Window(String),
    /// Two construction strategies were attempted and both failed.
    CreationErrorPair(Box<CreationError>, Box<CreationError>),
}

/// The fixed or carried message of an error, before any composed errors
/// are spelled out.
pub open spec fn spec_base_message(e: CreationError) -> Seq<char> {
    match e {
        CreationError::OsError(t) => t@,
        CreationError::NotSupported(t) => t@,
        CreationError::NoBackendAvailable(_) => "No backend is available"@,
        CreationError::RobustnessNotSupported =>
            "You requested robustness, but it is not supported."@,
        CreationError::OpenGlVersionNotSupported =>
            "The requested OpenGL version is not supported."@,
        CreationError::NoAvailablePixelFormat =>
            "Couldn't find any pixel format that matches the criteria."@,
        CreationError::PlatformSpecific(t) => t@,
        CreationError::Window(t) => t@,
        CreationError::CreationErrorPair(_, _) => "Received two errors."@,
    }
}

/// The full user-visible description: the base message, with the two
/// composed errors of a pair spelled out in quotes after it, and the
/// detail of an unsupported-feature error repeated after a colon.
pub open spec fn spec_describe(e: CreationError) -> Seq<char>
    decreases e,
{
    match e {
        CreationError::CreationErrorPair(e1, e2) => spec_base_message(e) + " Error 1: \""@
            + spec_describe(*e1) + "\""@ + " Error 2: \""@ + spec_describe(*e2) + "\""@,
        CreationError::NotSupported(t) => spec_base_message(e) + ": "@ + t@,
        _ => spec_base_message(e),
    }
}

impl CreationError {
    /// The fixed or carried message of this error alone.
    pub fn base_message(&self) -> (r: &str)
        ensures
            r@ == spec_base_message(*self),
    {
        match self {
            CreationError::OsError(t) => t.as_str(),
            CreationError::NotSupported(t) => t.as_str(),
            CreationError::NoBackendAvailable(_) => "No backend is available",
            CreationError::RobustnessNotSupported =>
                "You requested robustness, but it is not supported.",
            CreationError::OpenGlVersionNotSupported =>
                "The requested OpenGL version is not supported.",
            CreationError::NoAvailablePixelFormat =>
                "Couldn't find any pixel format that matches the criteria.",
            CreationError::PlatformSpecific(t) => t.as_str(),
            CreationError::Window(t) => t.as_str(),
            CreationError::CreationErrorPair(_, _) => "Received two errors.",
        }
    }

    /// The full user-visible description of this error.
    pub fn describe(&self) -> (r: String)
        ensures
            r@ == spec_describe(*self),
        decreases *self,
    {
        let mut s = String::new();
        s.append(self.base_message());
        match self {
            CreationError::CreationErrorPair(e1, e2) => {
                s.append(" Error 1: \"");
                let d1 = (&**e1).describe();
                s.append(d1.as_str());
                s.append("\"");
                s.append(" Error 2: \"");
                let d2 = (&**e2).describe();
                s.append(d2.as_str());
                s.append("\"");
            },
            CreationError::NotSupported(t) => {
                s.append(": ");
                s.append(t.as_str());
            },
            _ => {},
        }
        s
    }

    /// The message of the underlying error, where this error wraps one.
    pub fn cause_message(&self) -> (r: Option<&str>)
        ensures
            match *self {
                CreationError::NoBackendAvailable(t) => r matches Some(m) && m@ == t@,
                CreationError::Window(t) => r matches Some(m) && m@ == t@,
                _ => r is None,
            },
    {
        match self {
            CreationError::NoBackendAvailable(t) => Some(t.as_str()),
            CreationError::Window(t) => Some(t.as_str()),
            _ => None,
        }
    }
}

} // verus!
