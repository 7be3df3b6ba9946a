//! The header names and the media type that mark a protocol-buffer exchange.
use vstd::prelude::*;

verus! {

/// The media type that both directions advertise.
pub const PROTOBUF_MEDIA_TYPE: &'static str = "application/protobuf";

/// The name of the header that says what a response may hold.
pub const ACCEPT: &'static str = "accept";

/// The name of the header that says what a request body holds.
pub const CONTENT_TYPE: &'static str = "content-type";

/// A header name as an HTTP/2 header map stores it: a short run of
/// lower-case letters, digits and dashes.
pub open spec fn header_name_ok(s: Seq<char>) -> bool {
    &&& 0 < s.len() <= 64
    &&& forall|i: int|
        0 <= i < s.len() ==> ('a' <= #[trigger] s[i] <= 'z' || '0' <= s[i] <= '9' || s[i]
            == '-')
}

/// A header value of visible ASCII characters only.
pub open spec fn header_value_ok(s: Seq<char>) -> bool {
    forall|i: int| 0 <= i < s.len() ==> ' ' <= #[trigger] s[i] <= '~'
}

} // verus!
