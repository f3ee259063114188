use vstd::prelude::*;

verus! {

/// What can go wrong at the boundary with the engine.
#[derive(PartialEq, Eq, Structural, Debug, Clone, Copy)]
pub enum Error {
    /// Text bound for the engine holds a nul byte, which the engine's
    /// text encoding cannot carry.
    ToCString,
    /// Bytes handed back by the engine are not well-formed UTF-8.
    FromCStr,
    /// The engine reported a non-zero status when starting the node.
    StartFailed,
    /// The engine reported a non-zero status when joining a group.
    JoinFailed,
    /// The engine reported a non-zero status when leaving a group.
    LeaveFailed,
    /// Reading the next event returned nothing: the read was interrupted.
    ReadInterrupted,
}

pub type Result<T> = core::result::Result<T, Error>;

/// The fixed sentence that describes each error.
pub open spec fn description_of(e: Error) -> Seq<char> {
    match e {
        Error::ToCString => "nul byte found in data"@,
        Error::FromCStr => "invalid utf-8: corrupt contents"@,
        Error::StartFailed => "Zyre node failed to start"@,
        Error::JoinFailed => "Failed to join Zyre group"@,
        Error::LeaveFailed => "Failed to leave Zyre group"@,
        Error::ReadInterrupted => "Read was interrupted"@,
    }
}

/// A status code of the engine: zero is success, anything else is the
/// given failure.
pub open spec fn status_result(rc: i32, failure: Error) -> Result<()> {
    if rc == 0 {
        Ok(())
    } else {
        Err(failure)
    }
}

impl Error {
    /// A short human-readable description of the error.
    pub fn description(&self) -> (r: &'static str)
        ensures
            r@ == description_of(*self),
    {
        match self {
            Error::ToCString => "nul byte found in data",
            Error::FromCStr => "invalid utf-8: corrupt contents",
            Error::StartFailed => "Zyre node failed to start",
            Error::JoinFailed => "Failed to join Zyre group",
            Error::LeaveFailed => "Failed to leave Zyre group",
            Error::ReadInterrupted => "Read was interrupted",
        }
    }

    /// Maps a status code of the engine to success, or to `failure`.
    pub fn from_status(rc: i32, failure: Error) -> (r: Result<()>)
        ensures
            r == status_result(rc, failure),
    {
        if rc == 0 {
            Ok(())
        } else {
            Err(failure)
        }
    }
}

} // verus!
