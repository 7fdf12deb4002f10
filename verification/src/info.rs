//! What the simulator tells about itself: the arguments it was started with,
//! its product name and version, and the version of the direct programming
//! interface that it supports.

use crate::native::{Reply, Request};
use crate::result::Error;
use crate::startup::StartupState;
use crate::text::{is_text_of, text_of, utf8_error_text};
use vstd::prelude::*;
use vstd::utf8::*;

verus! {

/// What came back from the simulator's information call: the value it
/// returned, and a copy of the strings of the record it filled in.
#[derive(Debug)]
pub struct RawVlogInfo {
    pub result: i32,
    pub argv: Vec<Vec<u8>>,
    pub product: Vec<u8>,
    pub version: Vec<u8>,
}

/// The simulator's information, once the call is known to have succeeded.
#[derive(Debug)]
pub struct VlogInfo {
    pub arguments: Vec<Vec<u8>>,
    pub product_name: Vec<u8>,
    pub version: Vec<u8>,
}

/// The request for the simulator's information.
pub fn vpi_get_vlog_info_request(startup: &StartupState, thread: u64) -> (r: Request)
    requires
        startup.permits(thread),
    ensures
        r == Request::GetVlogInfo,
{
    Request::GetVlogInfo
}

/// The request for the version of the direct programming interface.
pub fn dpi_version_request(startup: &StartupState, thread: u64) -> (r: Request)
    requires
        startup.permits(thread),
    ensures
        r == Request::DpiVersion,
{
    Request::DpiVersion
}

/// The simulator's information, given its reply: an error of the call is
/// handed on, a return value other than 1 is an unclassified error, and
/// otherwise the strings of the record are the information.
pub open spec fn vlog_info_of(reply: Reply<RawVlogInfo>) -> Result<VlogInfo, Box<Error>> {
    match reply.checked() {
        Err(e) => Err(e),
        Ok(raw) => if raw.result != 1 {
            Err(Box::new(Error::UnknownSimulatorError))
        } else {
            Ok(VlogInfo { arguments: raw.argv, product_name: raw.product, version: raw.version })
        },
    }
}

/// Completes the simulator's information call.
pub fn vpi_get_safe_vlog_info_wrapper(reply: Reply<RawVlogInfo>) -> (r: Result<
    VlogInfo,
    Box<Error>,
>)
    ensures
        r == vlog_info_of(reply),
{
    let raw_info = match reply.check() {
        Ok(raw_info) => raw_info,
        Err(e) => {
            return Err(e);
        },
    };
    if raw_info.result != 1 {
        return Err(Box::new(Error::UnknownSimulatorError));
    }
    Ok(
        VlogInfo {
            arguments: raw_info.argv,
            product_name: raw_info.product,
            version: raw_info.version,
        },
    )
}

/// The index of the first of `arguments`, from `from` on, that is not UTF-8;
/// their number where all of them are.
pub open spec fn first_invalid(arguments: Seq<Vec<u8>>, from: int) -> int
    decreases arguments.len() - from,
{
    if from < 0 || from >= arguments.len() {
        arguments.len() as int
    } else if !valid_utf8(arguments[from]@) {
        from
    } else {
        first_invalid(arguments, from + 1)
    }
}

/// Whether `texts` is the result of converting `arguments` to text: the
/// decoded texts in the same order where all of them are UTF-8, and otherwise
/// [`Error::Other`] with the message of the first conversion that fails.
pub open spec fn are_texts_of(texts: Result<Vec<String>, Box<Error>>, arguments: Seq<Vec<u8>>) -> bool {
    if first_invalid(arguments, 0) == arguments.len() {
        &&& texts matches Ok(t)
        &&& t@.len() == arguments.len()
        &&& forall|i: int| 0 <= i < t@.len() ==> (#[trigger] t@[i])@ == decode_utf8(arguments[i]@)
    } else {
        &&& texts matches Err(e)
        &&& *e matches Error::Other(m)
        &&& m@ == utf8_error_text(arguments[first_invalid(arguments, 0)]@)
    }
}

/// What [`first_invalid`] finds is the first: it lies within the arguments
/// or just behind them, every argument from `from` up to it is UTF-8, and it
/// is not, where it is an argument.
pub proof fn lemma_first_invalid(arguments: Seq<Vec<u8>>, from: int)
    requires
        0 <= from <= arguments.len(),
    ensures
        from <= first_invalid(arguments, from) <= arguments.len(),
        first_invalid(arguments, from) < arguments.len() ==> !valid_utf8(
            arguments[first_invalid(arguments, from)]@,
        ),
        forall|j: int|
            from <= j < first_invalid(arguments, from) ==> valid_utf8(#[trigger] arguments[j]@),
    decreases arguments.len() - from,
{
    if from < arguments.len() && valid_utf8(arguments[from]@) {
        lemma_first_invalid(arguments, from + 1);
    }
}

/// The arguments that the simulator was started with, as text. The first
/// argument that is not UTF-8 fails the whole call.
pub fn arguments(reply: Reply<RawVlogInfo>) -> (r: Result<Vec<String>, Box<Error>>)
    ensures
        vlog_info_of(reply) matches Err(e) ==> r == Err::<Vec<String>, Box<Error>>(e),
        vlog_info_of(reply) matches Ok(info) ==> are_texts_of(r, info.arguments@),
{
    let info = match vpi_get_safe_vlog_info_wrapper(reply) {
        Ok(info) => info,
        Err(e) => {
            return Err(e);
        },
    };
    let mut texts: Vec<String> = Vec::new();
    let mut i: usize = 0;
    while i < info.arguments.len()
        invariant
            vlog_info_of(reply) == Ok::<VlogInfo, Box<Error>>(info),
            i <= info.arguments@.len(),
            texts@.len() == i,
            first_invalid(info.arguments@, 0) == first_invalid(info.arguments@, i as int),
            forall|j: int| 0 <= j < i ==> (#[trigger] texts@[j])@ == decode_utf8(info.arguments@[j]@),
        decreases info.arguments@.len() - i,
    {
        match text_of(&info.arguments[i]) {
            Ok(text) => {
                texts.push(text);
            },
            Err(e) => {
                return Err(e);
            },
        }
        i = i + 1;
    }
    Ok(texts)
}

/// The arguments that the simulator was started with, as bytes.
pub fn arguments_cstr(reply: Reply<RawVlogInfo>) -> (r: Result<Vec<Vec<u8>>, Box<Error>>)
    ensures
        r == match vlog_info_of(reply) {
            Err(e) => Err::<Vec<Vec<u8>>, Box<Error>>(e),
            Ok(info) => Ok(info.arguments),
        },
{
    match vpi_get_safe_vlog_info_wrapper(reply) {
        Ok(info) => Ok(info.arguments),
        Err(e) => Err(e),
    }
}

/// The simulator's product name, as text.
pub fn product_name(reply: Reply<RawVlogInfo>) -> (r: Result<String, Box<Error>>)
    ensures
        vlog_info_of(reply) matches Err(e) ==> r == Err::<String, Box<Error>>(e),
        vlog_info_of(reply) matches Ok(info) ==> is_text_of(r, info.product_name@),
{
    match vpi_get_safe_vlog_info_wrapper(reply) {
        Ok(info) => text_of(&info.product_name),
        Err(e) => Err(e),
    }
}

/// The simulator's product name, as bytes.
pub fn product_name_cstr(reply: Reply<RawVlogInfo>) -> (r: Result<Vec<u8>, Box<Error>>)
    ensures
        r == match vlog_info_of(reply) {
            Err(e) => Err::<Vec<u8>, Box<Error>>(e),
            Ok(info) => Ok(info.product_name),
        },
{
    match vpi_get_safe_vlog_info_wrapper(reply) {
        Ok(info) => Ok(info.product_name),
        Err(e) => Err(e),
    }
}

/// The simulator's version, as text.
pub fn version(reply: Reply<RawVlogInfo>) -> (r: Result<String, Box<Error>>)
    ensures
        vlog_info_of(reply) matches Err(e) ==> r == Err::<String, Box<Error>>(e),
        vlog_info_of(reply) matches Ok(info) ==> is_text_of(r, info.version@),
{
    match vpi_get_safe_vlog_info_wrapper(reply) {
        Ok(info) => text_of(&info.version),
        Err(e) => Err(e),
    }
}

/// The simulator's version, as bytes.
pub fn version_cstr(reply: Reply<RawVlogInfo>) -> (r: Result<Vec<u8>, Box<Error>>)
    ensures
        r == match vlog_info_of(reply) {
            Err(e) => Err::<Vec<u8>, Box<Error>>(e),
            Ok(info) => Ok(info.version),
        },
{
    match vpi_get_safe_vlog_info_wrapper(reply) {
        Ok(info) => Ok(info.version),
        Err(e) => Err(e),
    }
}

/// The version of the direct programming interface, as text.
pub fn dpi_version(reply: Reply<Vec<u8>>) -> (r: Result<String, Box<Error>>)
    ensures
        reply.checked() matches Err(e) ==> r == Err::<String, Box<Error>>(e),
        reply.checked() matches Ok(bytes) ==> is_text_of(r, bytes@),
{
    match dpi_version_cstr(reply) {
        Ok(bytes) => text_of(&bytes),
        Err(e) => Err(e),
    }
}

/// The version of the direct programming interface, as bytes.
pub fn dpi_version_cstr(reply: Reply<Vec<u8>>) -> (r: Result<Vec<u8>, Box<Error>>)
    ensures
        r == reply.checked(),
{
    reply.check()
}

} // verus!
