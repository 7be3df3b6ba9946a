//! The request side: mark a request as accepting protocol buffers, and attach
//! an encoded message as its body.
use prost::{EncodeError, Message};
use reqwest::RequestBuilder;
use vstd::prelude::*;

use crate::media::{header_name_ok, header_value_ok, ACCEPT, CONTENT_TYPE, PROTOBUF_MEDIA_TYPE};

verus! {

#[verifier::external_type_specification]
#[verifier::external_body]
pub struct ExRequestBuilder(RequestBuilder);

#[verifier::external_type_specification]
#[verifier::external_body]
pub struct ExEncodeError(EncodeError);

/// The headers of a builder: each lower-case name with its values in order.
pub type HeaderModel = Map<Seq<char>, Seq<Seq<char>>>;

/// Whether the builder still holds a request, rather than an error from an
/// earlier step of its building.
pub uninterp spec fn builder_ok(b: RequestBuilder) -> bool;

/// The headers of the request that the builder holds.
pub uninterp spec fn header_values(b: RequestBuilder) -> HeaderModel;

/// The body of the request that the builder holds, where one was set from bytes.
pub uninterp spec fn body_bytes(b: RequestBuilder) -> Option<Seq<u8>>;

/// The method of the request that the builder holds, as its name.
pub uninterp spec fn request_method(b: RequestBuilder) -> Seq<char>;

/// The URL of the request that the builder holds, as text.
pub uninterp spec fn request_url(b: RequestBuilder) -> Seq<char>;

/// The HTTP version of the request that the builder holds, as text.
pub uninterp spec fn request_version(b: RequestBuilder) -> Seq<char>;

/// The method, URL and version of `after` are those of `before`.
pub open spec fn same_target(before: RequestBuilder, after: RequestBuilder) -> bool {
    &&& request_method(after) == request_method(before)
    &&& request_url(after) == request_url(before)
    &&& request_version(after) == request_version(before)
}

/// The builder's header map can take one more name without reaching the size
/// at which http's `HeaderMap` refuses to grow (and `entry` panics).
pub open spec fn has_header_room(b: RequestBuilder) -> bool {
    builder_ok(b) ==> header_values(b).dom().len() < 6553
}

/// The headers of `b` once `name` is made to hold `value` alone; a builder
/// that already failed keeps what it had.
pub open spec fn with_header(b: RequestBuilder, name: Seq<char>, value: Seq<char>) -> HeaderModel {
    if builder_ok(b) {
        header_values(b).insert(name, seq![value])
    } else {
        header_values(b)
    }
}

/// Relies on reqwest's `RequestBuilder::headers`, which replaces all values of
/// each name in the map it is handed, leaves the body alone, and does nothing
/// on a builder that already failed; and on http's `HeaderName::from_static`
/// and `HeaderValue::from_static`, which accept such a name and value. The
/// request's header map needs no growth past its limit where the builder has
/// header room, so `HeaderMap::entry` does not panic.
#[verifier::external_body]
fn replace_header(b: RequestBuilder, name: &'static str, value: &'static str) -> (r:
    RequestBuilder)
    requires
        header_name_ok(name@),
        header_value_ok(value@),
        has_header_room(b),
    ensures
        builder_ok(r) == builder_ok(b),
        header_values(r) == with_header(b, name@, value@),
        body_bytes(r) == body_bytes(b),
        request_method(r) == request_method(b),
        request_url(r) == request_url(b),
        request_version(r) == request_version(b),
{
    let mut headers = reqwest::header::HeaderMap::new();
    let name = reqwest::header::HeaderName::from_static(name);
    headers.insert(name, reqwest::header::HeaderValue::from_static(value));
    b.headers(headers)
}

/// Relies on reqwest's `RequestBuilder::body`, which on a builder that has not
/// failed makes the bytes the request body, and touches nothing else.
#[verifier::external_body]
fn set_body(b: RequestBuilder, bytes: Vec<u8>) -> (r: RequestBuilder)
    ensures
        builder_ok(r) == builder_ok(b),
        header_values(r) == header_values(b),
        body_bytes(r) == (if builder_ok(b) {
            Some(bytes@)
        } else {
            body_bytes(b)
        }),
        request_method(r) == request_method(b),
        request_url(r) == request_url(b),
        request_version(r) == request_version(b),
{
    b.body(bytes)
}

/// Relies on prost's `Message::encode` into a growable buffer: it writes the
/// message's encoding, or reports an `EncodeError`.
#[verifier::external_body]
fn encode_message<T: Message>(value: &T) -> (r: Result<Vec<u8>, EncodeError>) {
    let mut buf = Vec::new();
    value.encode(&mut buf).map(|()| buf)
}

/// `after` is `before` marked as accepting protocol buffers: the accept header
/// holds the media type alone, and nothing else changed.
pub open spec fn accept_marked(before: RequestBuilder, after: RequestBuilder) -> bool {
    &&& builder_ok(after) == builder_ok(before)
    &&& same_target(before, after)
    &&& header_values(after) == with_header(before, ACCEPT@, PROTOBUF_MEDIA_TYPE@)
    &&& body_bytes(after) == body_bytes(before)
}

/// `after` is `before` with `bytes` attached as a protocol-buffer body: the
/// content-type header holds the media type alone, the body is the bytes, and
/// nothing else changed. A builder that already failed keeps what it had.
pub open spec fn body_attached(before: RequestBuilder, after: RequestBuilder, bytes: Seq<u8>) -> bool {
    &&& builder_ok(after) == builder_ok(before)
    &&& same_target(before, after)
    &&& header_values(after) == with_header(before, CONTENT_TYPE@, PROTOBUF_MEDIA_TYPE@)
    &&& body_bytes(after) == (if builder_ok(before) {
        Some(bytes)
    } else {
        body_bytes(before)
    })
}

proof fn lemma_protobuf_header_ok()
    ensures
        header_name_ok(ACCEPT@),
        header_name_ok(CONTENT_TYPE@),
        header_value_ok(PROTOBUF_MEDIA_TYPE@),
{
    reveal_strlit("accept");
    reveal_strlit("content-type");
    reveal_strlit("application/protobuf");
}

/// Sets the accept header of the request to `application/protobuf`.
pub fn mark_accepting(b: RequestBuilder) -> (r: RequestBuilder)
    requires
        has_header_room(b),
    ensures
        accept_marked(b, r),
{
    proof {
        lemma_protobuf_header_ok();
    }
    replace_header(b, ACCEPT, PROTOBUF_MEDIA_TYPE)
}

/// Attaches the outcome of encoding a message: on success the bytes become the
/// body and the content type is set; an encoding error comes back unchanged
/// and the builder is dropped.
pub fn attach_encoded(b: RequestBuilder, encoded: Result<Vec<u8>, EncodeError>) -> (r: Result<
    RequestBuilder,
    EncodeError,
>)
    requires
        has_header_room(b),
    ensures
        match encoded {
            Ok(bytes) => r is Ok && body_attached(b, r->Ok_0, bytes@),
            Err(e) => r == Err::<RequestBuilder, EncodeError>(e),
        },
{
    match encoded {
        Ok(bytes) => {
            proof {
                lemma_protobuf_header_ok();
            }
            let marked = replace_header(b, CONTENT_TYPE, PROTOBUF_MEDIA_TYPE);
            Ok(set_body(marked, bytes))
        },
        Err(e) => Err(e),
    }
}

/// Marking a request as accepting protocol buffers a second time changes
/// nothing: the accept header keeps the media type as its one value.
pub proof fn lemma_accept_marking_idempotent(
    b: RequestBuilder,
    once: RequestBuilder,
    twice: RequestBuilder,
)
    requires
        accept_marked(b, once),
        accept_marked(once, twice),
    ensures
        builder_ok(twice) == builder_ok(once),
        header_values(twice) == header_values(once),
        body_bytes(twice) == body_bytes(once),
        builder_ok(b) ==> header_values(twice)[ACCEPT@] == seq![PROTOBUF_MEDIA_TYPE@],
{
    if builder_ok(b) {
        assert(header_values(twice) =~= header_values(once));
    }
}

/// Protocol-buffer operations on a request under construction.
pub trait ProtobufRequestExt: Sized {
    /// The request can take one more header.
    spec fn header_room(&self) -> bool;

    /// Configures the request to accept a protocol-buffer response.
    fn accept_protobuf(self) -> Self
        requires
            self.header_room(),
    ;

    /// Sets the request payload to the encoding of `value`, and the content
    /// type to `application/protobuf`.
    fn protobuf<T: Message + Default>(self, value: T) -> Result<Self, EncodeError>
        requires
            self.header_room(),
    ;
}

impl ProtobufRequestExt for RequestBuilder {
    open spec fn header_room(&self) -> bool {
        has_header_room(*self)
    }

    fn accept_protobuf(self) -> (r: Self)
        ensures
            accept_marked(self, r),
    {
        mark_accepting(self)
    }

    fn protobuf<T: Message + Default>(self, value: T) -> (r: Result<Self, EncodeError>)
        ensures
            r is Ok ==> exists|bytes: Seq<u8>| body_attached(self, r->Ok_0, bytes),
    {
        let encoded = encode_message(&value);
        attach_encoded(self, encoded)
    }
}

} // verus!
