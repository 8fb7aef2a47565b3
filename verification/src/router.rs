//! Routing of requests to the methods of the service, the answer to a
//! request for a path that names no method, and the settings of a server.

use vstd::prelude::*;
use vstd::utf8::encode_utf8;
use crate::service::{
    lemma_method_listed, lemma_paths_distinct, methods, spec_method_path, spec_methods, Method,
};

verus! {

/// Whether two strings hold the same characters, compared by their UTF-8 bytes.
pub fn str_eq(a: &str, b: &str) -> (r: bool)
    ensures
        r == (a@ == b@),
{
    let x = a.as_bytes();
    let y = b.as_bytes();
    proof {
        vstd::utf8::encode_utf8_decode_utf8(a@);
        vstd::utf8::encode_utf8_decode_utf8(b@);
    }
    if x.len() != y.len() {
        return false;
    }
    let mut i: usize = 0;
    while i < x.len()
        invariant
            x@ == encode_utf8(a@),
            y@ == encode_utf8(b@),
            x@.len() == y@.len(),
            i <= x@.len(),
            forall|j: int| 0 <= j < i ==> x@[j] == y@[j],
        decreases x@.len() - i,
    {
        if x[i] != y[i] {
            return false;
        }
        i = i + 1;
    }
    assert(x@ =~= y@);
    true
}

/// The method whose request path is `p`, if any.
pub open spec fn spec_route(p: Seq<char>) -> Option<Method> {
    if exists|m: Method| spec_method_path(m) == p {
        Some(choose|m: Method| spec_method_path(m) == p)
    } else {
        None
    }
}

/// A request for the path of a method is routed to that method.
pub proof fn lemma_route_path(m: Method)
    ensures
        spec_route(spec_method_path(m)) == Some(m),
{
    let p = spec_method_path(m);
    assert(exists|x: Method| spec_method_path(x) == p);
    let c = choose|x: Method| spec_method_path(x) == p;
    lemma_paths_distinct(c, m);
}

/// The method whose request path is `path`, or `None` where no method has it.
pub fn route(path: &str) -> (r: Option<Method>)
    ensures
        r == spec_route(path@),
{
    let ms = methods();
    let mut i: usize = 0;
    while i < ms.len()
        invariant
            ms@ == spec_methods(),
            i <= ms@.len(),
            forall|j: int| 0 <= j < i ==> spec_method_path(#[trigger] ms@[j]) != path@,
        decreases ms@.len() - i,
    {
        let m = ms[i];
        if str_eq(path, m.path()) {
            proof {
                lemma_route_path(m);
            }
            return Some(m);
        }
        i = i + 1;
    }
    proof {
        assert forall|m: Method| spec_method_path(m) != path@ by {
            lemma_method_listed(m);
            let k = choose|k: int| 0 <= k < ms@.len() && ms@[k] == m;
            assert(spec_method_path(ms@[k]) != path@);
        }
    }
    None
}

/// The head of the answer to a request that is not routed to a method.
#[derive(Clone, Copy, Debug)]
pub struct ReplyHead {
    /// The HTTP status code.
    pub http_status: u16,
    /// The value of the `grpc-status` header.
    pub grpc_status: &'static str,
    /// The value of the `content-type` header.
    pub content_type: &'static str,
}

/// An HTTP status 200 answer that carries gRPC status 12 (Unimplemented) and
/// the content type `application/grpc`, with an empty body.
pub open spec fn is_unimplemented_reply(h: ReplyHead) -> bool {
    &&& h.http_status == 200
    &&& h.grpc_status@ == "12"@
    &&& h.content_type@ == "application/grpc"@
}

/// The answer to a request that names no method of the service.
pub fn unimplemented_reply() -> (r: ReplyHead)
    ensures
        is_unimplemented_reply(r),
{
    ReplyHead { http_status: 200, grpc_status: "12", content_type: "application/grpc" }
}

/// What a server does with a request: call a method, or answer at once.
#[derive(Clone, Copy, Debug)]
pub enum Dispatch {
    Call(Method),
    Reply(ReplyHead),
}

/// What a server does with a request for `path`: call the method whose path
/// it is; where there is none, answer with gRPC status 12 (Unimplemented).
pub fn dispatch(path: &str) -> (r: Dispatch)
    ensures
        match spec_route(path@) {
            Some(m) => r == Dispatch::Call(m),
            None => r matches Dispatch::Reply(h) && is_unimplemented_reply(h),
        },
{
    match route(path) {
        Some(m) => Dispatch::Call(m),
        None => Dispatch::Reply(unimplemented_reply()),
    }
}

/// A request for a path that names no method is answered with gRPC status 12
/// (Unimplemented); a request for the path of a method calls that method.
pub proof fn lemma_dispatch_law(p: Seq<char>)
    ensures
        spec_route(p) is None <==> forall|m: Method| spec_method_path(m) != p,
        forall|m: Method| spec_method_path(m) == p ==> spec_route(p) == Some(m),
{
    assert forall|m: Method| spec_method_path(m) == p implies spec_route(p) == Some(m) by {
        lemma_route_path(m);
    }
}

/// The gRPC status code Unknown.
pub const CODE_UNKNOWN: i32 = 2;

/// The message of the status with which a call fails when the channel is not
/// ready, `detail` saying why.
pub fn not_ready_message(detail: &str) -> (r: String)
    ensures
        r@ == "Service was not ready: "@ + detail@,
{
    let prefix = "Service was not ready: ".to_owned();
    prefix.concat(detail)
}

/// The message size limits of a server; `None` leaves the transport's default.
#[derive(Clone, Copy, Debug)]
pub struct ServerConfig {
    /// Limits the size of a decoded message (default 4 MB).
    pub max_decoding_message_size: Option<usize>,
    /// Limits the size of an encoded message (default `usize::MAX`).
    pub max_encoding_message_size: Option<usize>,
}

impl ServerConfig {
    /// No limit of its own.
    pub fn new() -> (r: Self)
        ensures
            r.max_decoding_message_size is None,
            r.max_encoding_message_size is None,
    {
        ServerConfig { max_decoding_message_size: None, max_encoding_message_size: None }
    }

    /// Limits the maximum size of a decoded message to `limit`.
    pub fn max_decoding_message_size(self, limit: usize) -> (r: Self)
        ensures
            r.max_decoding_message_size == Some(limit),
            r.max_encoding_message_size == self.max_encoding_message_size,
    {
        ServerConfig { max_decoding_message_size: Some(limit), ..self }
    }

    /// Limits the maximum size of an encoded message to `limit`.
    pub fn max_encoding_message_size(self, limit: usize) -> (r: Self)
        ensures
            r.max_encoding_message_size == Some(limit),
            r.max_decoding_message_size == self.max_decoding_message_size,
    {
        ServerConfig { max_encoding_message_size: Some(limit), ..self }
    }
}

} // verus!
