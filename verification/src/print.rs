//! Writing to the simulator's output.
//!
//! A write hands its whole text to the simulator in one request, and counts
//! as done only if the simulator reports to have written as many bytes as the
//! text holds.

use crate::native::{Reply, Request};
use crate::result::Error;
use crate::startup::StartupState;
use vstd::prelude::*;
use vstd::slice::*;
use vstd::string::*;

verus! {

/// A handle to the simulator's output.
#[derive(Debug)]
pub struct SimulatorPrinter {}

/// A write of text failed. Nothing more is told, as with a formatter's error.
#[derive(Clone, Copy, Debug, PartialEq, Eq, Structural)]
pub struct WriteError {}

/// Whether the simulator can report the writing of `len` bytes: its count of
/// written bytes is a 32-bit integer.
pub open spec fn countable(len: nat) -> bool {
    len <= i32::MAX
}

/// Whether a byte string has no NUL byte in it, so that it can be handed to
/// the simulator as a NUL-terminated string.
pub open spec fn nul_free(bytes: Seq<u8>) -> bool {
    forall|i: int| 0 <= i < bytes.len() ==> bytes[i] != 0
}

/// The message of the error for a text that is too long to be counted.
pub open spec fn too_long_text() -> Seq<char> {
    "out of range integral type conversion attempted"@
}

fn too_long() -> (r: Box<Error>)
    ensures
        *r matches Error::Other(m) && m@ == too_long_text(),
{
    Box::new(Error::other(String::from_str("out of range integral type conversion attempted")))
}

fn has_nul(bytes: &[u8]) -> (r: bool)
    ensures
        r == !nul_free(bytes@),
{
    let mut i: usize = 0;
    while i < bytes.len()
        invariant
            i <= bytes@.len(),
            forall|j: int| 0 <= j < i ==> bytes@[j] != 0,
        decreases bytes@.len() - i,
    {
        if bytes[i] == 0 {
            return true;
        }
        i = i + 1;
    }
    false
}

impl SimulatorPrinter {
    pub fn new() -> (r: Self) {
        SimulatorPrinter {  }
    }

    /// The request that flushes the simulator's output.
    pub fn flush_request(&mut self, startup: &StartupState, thread: u64) -> (r: Request)
        requires
            startup.permits(thread),
        ensures
            r == Request::Flush,
    {
        Request::Flush
    }

    /// What a flush came to, given the simulator's reply: an error of the
    /// call is handed on, and a return value other than zero is an
    /// unclassified error.
    pub open spec fn flushed(reply: Reply<i32>) -> Result<(), Box<Error>> {
        match reply.checked() {
            Err(e) => Err(e),
            Ok(result) => if result == 0 {
                Ok(())
            } else {
                Err(Box::new(Error::UnknownSimulatorError))
            },
        }
    }

    /// Completes a flush.
    pub fn flush(&mut self, reply: Reply<i32>) -> (r: Result<(), Box<Error>>)
        ensures
            r == Self::flushed(reply),
    {
        match reply.check() {
            Err(e) => Err(e),
            Ok(result) => if result == 0 {
                Ok(())
            } else {
                Err(Box::new(Error::UnknownSimulatorError))
            },
        }
    }

    /// The request that writes a byte string, whole. The bytes hold no NUL.
    /// A text of more bytes than the simulator can count is refused before
    /// anything is written.
    pub fn write_cstr_request(
        &mut self,
        startup: &StartupState,
        thread: u64,
        cstr: &[u8],
    ) -> (r: Result<Request, Box<Error>>)
        requires
            startup.permits(thread),
            nul_free(cstr@),
        ensures
            countable(cstr@.len()) ==> (r matches Ok(Request::Printf { text }) && text@ == cstr@),
            !countable(cstr@.len()) ==> (r matches Err(e) && *e matches Error::Other(m) && m@
                == too_long_text()),
    {
        if cstr.len() > 0x7fff_ffff {
            return Err(too_long());
        }
        Ok(Request::Printf { text: slice_to_vec(cstr) })
    }

    /// Completes the writing of a byte string: done if the simulator wrote
    /// exactly the bytes of the text. An error of the call is handed on, and
    /// any other count of written bytes is an unclassified error.
    pub fn write_cstr(&mut self, cstr: &[u8], reply: Reply<i32>) -> (r: Result<(), Box<Error>>)
        ensures
            !countable(cstr@.len()) ==> (r matches Err(e) && *e matches Error::Other(m) && m@
                == too_long_text()),
            countable(cstr@.len()) ==> r == match reply.checked() {
                Err(e) => Err::<(), Box<Error>>(e),
                Ok(num_bytes_written) => if num_bytes_written == cstr@.len() {
                    Ok(())
                } else {
                    Err(Box::new(Error::UnknownSimulatorError))
                },
            },
    {
        if cstr.len() > 0x7fff_ffff {
            return Err(too_long());
        }
        let num_bytes: i32 = cstr.len() as i32;
        let num_bytes_written = match reply.check() {
            Ok(num_bytes_written) => num_bytes_written,
            Err(e) => {
                return Err(e);
            },
        };
        if num_bytes_written == num_bytes {
            Ok(())
        } else {
            Err(Box::new(Error::UnknownSimulatorError))
        }
    }

    /// Whether a text can be written: it holds no NUL, and no more bytes than
    /// the simulator can count.
    pub open spec fn writable(text: &str) -> bool {
        nul_free(text.spec_bytes()) && countable(text.spec_bytes().len())
    }

    /// The request that writes a text, whole, as its UTF-8 bytes. A text that
    /// cannot be written is refused before anything is written.
    pub fn write_str_request(
        &mut self,
        startup: &StartupState,
        thread: u64,
        str_: &str,
    ) -> (r: Result<Request, WriteError>)
        requires
            startup.permits(thread),
        ensures
            Self::writable(str_) ==> (r matches Ok(Request::Printf { text }) && text@
                == str_.spec_bytes()),
            !Self::writable(str_) ==> r is Err,
    {
        let bytes = str_.as_bytes();
        if has_nul(bytes) {
            return Err(WriteError {  });
        }
        match self.write_cstr_request(startup, thread, bytes) {
            Ok(request) => Ok(request),
            Err(_) => Err(WriteError {  }),
        }
    }

    /// Completes the writing of a text: done if the text can be written and
    /// the simulator wrote exactly its bytes, and failed otherwise.
    pub fn write_str(&mut self, str_: &str, reply: Reply<i32>) -> (r: Result<(), WriteError>)
        ensures
            r is Ok <==> Self::writable(str_) && (reply.checked() matches Ok(num_bytes_written)
                && num_bytes_written == str_.spec_bytes().len()),
    {
        let bytes = str_.as_bytes();
        if has_nul(bytes) {
            return Err(WriteError {  });
        }
        match self.write_cstr(bytes, reply) {
            Ok(_) => Ok(()),
            Err(_) => Err(WriteError {  }),
        }
    }
}

} // verus!
