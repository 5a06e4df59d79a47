use vstd::prelude::*;

use crate::calls::NativeCall;
use crate::error::{failure_message, Error};

verus! {

/// A native entry point that failed. The engine's description of its last
/// error is fetched by the caller only once it holds a `Failure`, and then
/// turned into the error reported to the user with `report`.
#[derive(Debug)]
pub struct Failure(NativeCall);

impl View for Failure {
    type V = NativeCall;

    closed spec fn view(&self) -> NativeCall {
        self.0
    }
}

impl Failure {
    /// A failure of the native entry point `call`.
    pub fn new(call: NativeCall) -> (f: Failure)
        ensures
            f@ == call,
    {
        Failure(call)
    }

    /// The entry point that failed.
    pub fn call(&self) -> (c: NativeCall)
        ensures
            c == self@,
    {
        self.0
    }

    /// The error reported for the failure, with the engine's description of
    /// its last error as `detail`.
    pub fn report(&self, detail: &str) -> (e: Error)
        ensures
            e@ == failure_message(self@, detail@),
    {
        Error::call_failed(self.0, detail)
    }
}

/// Judges the status code `ret` returned by the native entry point `call`:
/// zero is success, anything else a failure of `call`.
pub fn check_status(call: NativeCall, ret: i32) -> (r: Result<(), Failure>)
    ensures
        r is Ok <==> ret == 0,
        r matches Err(f) ==> f@ == call,
{
    if ret != 0 {
        Err(Failure(call))
    } else {
        Ok(())
    }
}

/// Judges the raw handle `raw` returned by the native constructor `call`:
/// a null handle is a failure of `call`.
pub fn check_created(call: NativeCall, raw: usize) -> (r: Result<usize, Failure>)
    ensures
        r is Ok <==> raw != 0,
        r matches Ok(h) ==> h == raw,
        r matches Err(f) ==> f@ == call,
{
    if raw == 0 {
        Err(Failure(call))
    } else {
        Ok(raw)
    }
}

/// Judges what `pdf_canvas_draw_textbox` returned: a negative value is a
/// failure; any other value is the character offset of the first character
/// that did not fit in the box.
pub fn textbox_offset(ret: i32) -> (r: Result<usize, Failure>)
    ensures
        r is Ok <==> ret >= 0,
        r matches Ok(n) ==> n == ret,
        r matches Err(f) ==> f@ == NativeCall::CanvasDrawTextbox,
{
    if ret < 0 {
        Err(Failure(NativeCall::CanvasDrawTextbox))
    } else {
        Ok(ret as usize)
    }
}

} // verus!
