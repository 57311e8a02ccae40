use std::io::Write;

use vstd::prelude::*;

use crate::error::MaelstromError;
use crate::message::Message;
use crate::service::{MessageContext, Service};

verus! {

/// Wraps a service in a [`LogService`].
#[derive(Clone, Copy)]
pub struct LogLayer {}

impl LogLayer {
    pub fn layer<S: Service>(&self, inner: S) -> (r: LogService<S>)
        ensures
            r.inner() == inner,
    {
        LogService { inner }
    }
}

/// A stage that reports each request and its outcome on the diagnostic
/// stream and passes both through untouched.
#[derive(Clone)]
pub struct LogService<S> {
    inner: S,
}

impl<S: Service> LogService<S> {
    pub closed spec fn inner(&self) -> S {
        self.inner
    }
}

impl<S: Service> Service for LogService<S> {
    open spec fn answers(&self, req: Message, r: Result<Message, MaelstromError>) -> bool {
        self.inner().answers(req, r)
    }

    fn call(&mut self, req: MessageContext) -> (r: Result<Message, MaelstromError>) {
        report_request(&req.msg);
        let res = self.inner.call(req);
        report_outcome(&res);
        res
    }
}

/// Relies on std's `writeln!` to the standard error stream: writes the
/// request's debug form; a failed write is ignored.
#[verifier::external_body]
fn report_request(msg: &Message) {
    let _ = writeln!(std::io::stderr(), "req: {:?}", msg);
}

/// Relies on std's `writeln!` to the standard error stream: writes the
/// outcome's debug form; a failed write is ignored.
#[verifier::external_body]
fn report_outcome(res: &Result<Message, MaelstromError>) {
    let _ = writeln!(std::io::stderr(), "resp: {:?}", res);
}

} // verus!
