//! Pieces of work, and the worker's side of running them.

use crate::message::{done_message, FieldName, FieldValue, JsPayload};
use std::sync::Arc;
use vstd::prelude::*;

verus! {

/// A function that takes the value.
pub struct WithPayload<F> {
    pub f: F,
}

impl<F> WithPayload<F> {
    /// Calls the function.
    pub fn run<P>(self, js_payload: P) where F: FnOnce(P)
        requires
            call_requires(self.f, (js_payload,)),
        ensures
            call_ensures(self.f, (js_payload,), ()),
    {
        (self.f)(js_payload)
    }
}

/// A function that does not look at the value.
pub struct IgnoringPayload<F> {
    pub f: F,
}

impl<F> IgnoringPayload<F> {
    /// Calls the function.
    pub fn run<P>(self, _js_payload: P) where F: FnOnce()
        requires
            call_requires(self.f, ()),
        ensures
            call_ensures(self.f, (), ()),
    {
        (self.f)()
    }
}

/// A function that many threads share, and that takes the value.
pub struct Shared<F> {
    pub f: Arc<F>,
}

impl<F> Clone for Shared<F> {
    fn clone(&self) -> (copy: Self)
        ensures
            copy == *self,
    {
        Shared { f: self.f.clone() }
    }
}

impl<F> Shared<F> {
    /// Calls the function.
    pub fn run<P>(self, js_payload: P) where F: Fn(P)
        requires
            call_requires(*self.f, (js_payload,)),
        ensures
            call_ensures(*self.f, (js_payload,), ()),
    {
        (*self.f)(js_payload)
    }
}

/// A function that many threads share, and that does not look at the value.
pub struct SharedIgnoringPayload<F> {
    pub f: Arc<F>,
}

impl<F> Clone for SharedIgnoringPayload<F> {
    fn clone(&self) -> (copy: Self)
        ensures
            copy == *self,
    {
        SharedIgnoringPayload { f: self.f.clone() }
    }
}

impl<F> SharedIgnoringPayload<F> {
    /// Calls the function. It is made a function of the value first, so that the
    /// value goes into one call. The contract says that the function was called,
    /// and not how often: a call of a shared function leaves no trace that a
    /// contract could count.
    pub fn run<P>(self, js_payload: P) where F: Fn()
        requires
            call_requires(*self.f, ()),
        ensures
            call_ensures(*self.f, (), ()),
    {
        let f = self.f;
        let once = move |_p: P|
            requires
                call_requires(*f, ()),
            ensures
                call_ensures(*f, (), ()),
            { (*f)() };
        run_work(Work { func: once }, js_payload)
    }
}

/// A piece of work as it is handed to another thread: a function that is called
/// once with a JavaScript value.
pub struct Work<F> {
    pub func: F,
}

/// Runs a piece of work with the value that came with it.
pub fn run_work<F, P>(work: Work<F>, js_payload: P) where F: FnOnce(P)
    requires
        call_requires(work.func, (js_payload,)),
    ensures
        call_ensures(work.func, (js_payload,), ()),
{
    (work.func)(js_payload)
}

/// What a worker does when it is handed work: it runs the work, and then says
/// that it has finished. The result is the message to be posted.
pub fn child_entry_point<F, P>(work: Work<F>, js_payload: P) -> (reply: Vec<
    (FieldName, FieldValue<P>),
>) where F: FnOnce(P)
    requires
        call_requires(work.func, (js_payload,)),
    ensures
        call_ensures(work.func, (js_payload,), ()),
        reply@ == crate::message::done_fields::<P>(),
{
    run_work(work, js_payload);
    done_message()
}

/// A callback that a worker is about to send to the main thread.
pub struct CallbackRequest<F, P> {
    pub work: Work<F>,
    pub js_payload: JsPayload<P>,
}

/// Prepares a callback from a worker to the main thread. Only a web worker can
/// send one: anywhere else the result is an error text.
pub fn worker_send_callback<F, P>(in_web_worker: bool, f: F, js_payload: JsPayload<P>) -> (res:
    Result<CallbackRequest<F, P>, String>) where F: FnOnce(P)
    ensures
        res is Ok <==> in_web_worker,
        res matches Ok(request) ==> request.work.func == f && request.js_payload == js_payload,
        res matches Err(text) ==> text@
            == "worker_send_callback can only be called from a web worker"@,
{
    if in_web_worker {
        Ok(CallbackRequest { work: Work { func: f }, js_payload })
    } else {
        Err("worker_send_callback can only be called from a web worker".to_owned())
    }
}

} // verus!
