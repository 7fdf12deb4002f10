//! The native boundary as plain data.
//!
//! A [`Request`] says which entry point of the simulator is to be called and
//! with which arguments. A [`Reply`] carries what the simulator returned,
//! together with its answer to the "query last error" call that follows every
//! native call. Handles are addresses; the address zero is the null handle.

use crate::result::{from_last_vpi_call, Error, LastError};
use vstd::prelude::*;

verus! {

/// A time as the simulator's callback descriptor holds it: the kind of time,
/// the two halves of a simulation time, and the bits of a scaled real time.
#[derive(Clone, Copy, Debug, PartialEq, Eq, Structural)]
pub struct NativeTime {
    pub type_: i32,
    pub high: u32,
    pub low: u32,
    pub real: u64,
}

/// One call of a native entry point, with its arguments.
#[derive(Debug, PartialEq, Eq)]
pub enum Request {
    /// Start to enumerate the children of `parent` that have the given type;
    /// with the null handle as parent, the roots of that type.
    Iterate { object_type: i32, parent: usize },
    /// Advance the iteration that `iterator` stands for.
    Scan { iterator: usize },
    /// Read a 32-bit integer property.
    Get { property: i32, object: usize },
    /// Read a 64-bit integer property.
    Get64 { property: i32, object: usize },
    /// Read a string property.
    GetStr { property: i32, object: usize },
    /// Ask whether two handles stand for the same object.
    CompareObjects { first: usize, second: usize },
    /// Register a callback. `user_data` is handed back on every invocation.
    RegisterCb { reason: i32, time: NativeTime, user_data: usize },
    /// Write text to the simulator's output.
    Printf { text: Vec<u8> },
    /// Flush the simulator's output.
    Flush,
    /// Ask for the simulator's arguments, product name and version.
    GetVlogInfo,
    /// Ask for the version of the direct programming interface.
    DpiVersion,
}

/// What came back from one native call: its return value, and the simulator's
/// answer to the "query last error" call made right after it.
#[derive(Debug)]
pub struct Reply<T> {
    pub value: T,
    pub last_error: LastError,
}

impl<T> Reply<T> {
    /// What the reply means once its error record has been translated: the
    /// error, or the value that came with it.
    pub open spec fn checked(self) -> Result<T, Box<Error>> {
        match self.last_error.translated() {
            Err(e) => Err(e),
            Ok(_) => Ok(self.value),
        }
    }

    /// Translates the reply's error record and hands on the value.
    pub fn check(self) -> (r: Result<T, Box<Error>>)
        ensures
            r == self.checked(),
    {
        match from_last_vpi_call(self.last_error) {
            Err(e) => Err(e),
            Ok(_) => Ok(self.value),
        }
    }
}

} // verus!
