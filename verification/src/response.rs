//! What a dispatch hands back: the status and the body as text.

use vstd::prelude::*;
use vstd::utf8::{decode_utf8, encode_utf8, valid_utf8};
use crate::text::{from_utf8_lossy, lossy_text};

verus! {

/// Status and body of a response, the body fully read and decoded.
#[derive(Clone, Debug, PartialEq, Eq)]
pub struct RespBody {
    pub status: u16,
    pub body: String,
}

/// A captured response as a mathematical value.
pub ghost struct RespBodyView {
    pub status: u16,
    pub body: Seq<char>,
}

impl View for RespBody {
    type V = RespBodyView;

    open spec fn view(&self) -> RespBodyView {
        RespBodyView { status: self.status, body: self.body@ }
    }
}

impl RespBodyView {
    /// This value is what a response with `status` and the body `bytes` is
    /// captured as: the status unchanged, the body decoded lossily, which
    /// for valid UTF-8 is its exact decoding.
    pub open spec fn reflects(self, status: u16, bytes: Seq<u8>) -> bool {
        &&& self.status == status
        &&& self.body == lossy_text(bytes)
        &&& valid_utf8(bytes) ==> self.body == decode_utf8(bytes)
    }
}

impl RespBody {
    /// Packages a response's status and its drained body. Every status is
    /// kept as it is, and every byte sequence has a text.
    pub fn capture(status: u16, bytes: &[u8]) -> (out: RespBody)
        ensures
            out@.reflects(status, bytes@),
    {
        RespBody { status, body: from_utf8_lossy(bytes) }
    }
}

/// Two captures of the same status and bytes are the same value.
pub proof fn lemma_capture_is_a_function(
    a: RespBodyView,
    b: RespBodyView,
    status: u16,
    bytes: Seq<u8>,
)
    requires
        a.reflects(status, bytes),
        b.reflects(status, bytes),
    ensures
        a == b,
{
}

/// A body that is the UTF-8 encoding of a text is captured as that text.
pub proof fn lemma_capture_keeps_text(out: RespBodyView, status: u16, text: Seq<char>)
    requires
        out.reflects(status, encode_utf8(text)),
    ensures
        out.body == text,
{
    vstd::utf8::encode_utf8_valid_utf8(text);
    vstd::utf8::encode_utf8_decode_utf8(text);
}

/// An empty body is captured as the empty text.
pub proof fn lemma_capture_of_empty_body(out: RespBodyView, status: u16)
    requires
        out.reflects(status, Seq::<u8>::empty()),
    ensures
        out.body == Seq::<char>::empty(),
{
}

} // verus!
