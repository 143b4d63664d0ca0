//! Turning a transcoding failure into an exception of the runtime.

use vstd::prelude::*;
use vstd::string::StringExecFns;
use crate::error::{message_of, Error, ErrorKind};
use crate::runtime::{Env, Status, Value};

verus! {

/// The sign that the runtime is throwing: an exception is pending in it.
#[derive(Clone, Copy, Debug, PartialEq, Eq, Structural)]
pub struct Throw;

impl Throw {
    pub fn message(&self) -> (r: String)
        ensures
            r@ == "JavaScript Error"@,
    {
        String::from_str("JavaScript Error")
    }
}

/// Converts a result into a value of the runtime, or a pending exception.
pub trait JsResultExt {
    fn or_throw(self, env: &mut Env) -> Result<Value, Throw>;
}

/// Converts a result into one whose failure is a pending exception.
pub trait ResultExt<T>: Sized {
    spec fn thrown(self, pre: Env, post: Env, r: Result<T, Throw>) -> bool;

    fn or_throw(self, env: &mut Env) -> (r: Result<T, Throw>)
        ensures
            self.thrown(*old(env), *final(env), r),
    ;
}

impl<T> ResultExt<T> for Result<T, Error> {
    /// A success is handed on and the runtime left alone. A pending exception
    /// is propagated as it is; any other failure is raised as a new exception
    /// carrying the error's text.
    open spec fn thrown(self, pre: Env, post: Env, r: Result<T, Throw>) -> bool {
        match self {
            Ok(v) => r == Ok::<T, Throw>(v) && post == pre,
            Err(e) => {
                &&& r == Err::<T, Throw>(Throw)
                &&& post.slots == pre.slots
                &&& if e.kind == ErrorKind::Napi(Status::PendingException) {
                    post.exception == pre.exception
                } else {
                    post.exception is Some && post.exception->Some_0@ == message_of(e.kind)
                }
            },
        }
    }

    fn or_throw(self, env: &mut Env) -> (r: Result<T, Throw>) {
        let err = match self {
            Ok(v) => {
                return Ok(v);
            },
            Err(err) => err,
        };
        if err.is_exception_pending() {
            Err(Throw)
        } else {
            env.throw_error(err.message());
            Err(Throw)
        }
    }
}

} // verus!
