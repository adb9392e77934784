//! Header values and small extractor types of the request/response layer.
//!
//! A header value does not have to be valid UTF-8: it is kept as a string
//! whenever its bytes decode, and as a bag of bytes only when they do not.
//! The byte content is the value's view, so every accessor is specified
//! against the same sequence of bytes regardless of the representation.

use vstd::prelude::*;
use vstd::slice::slice_to_vec;
use vstd::string::StringSliceAdditionalSpecFns;
use vstd::utf8::decode_utf8;
use vstd::utf8::decode_utf8_encode_utf8;
use vstd::utf8::encode_utf8;
use vstd::utf8::encode_utf8_decode_utf8;
use vstd::utf8::encode_utf8_valid_utf8;
use vstd::utf8::valid_utf8;

verus! {

/// How one decoded character sequence reads per character, after lowercase
/// folding by the standard library.
pub uninterp spec fn lower_chars(s: Seq<char>) -> Seq<char>;

/// Relies on `str::to_lowercase`: the result is a function of the
/// characters alone.
#[verifier::external_body]
fn to_lower(s: &str) -> (r: String)
    ensures
        r@ == lower_chars(s@),
{
    s.to_lowercase()
}

/// Relies on `String::from_utf8`: it succeeds exactly on valid UTF-8 input
/// and decodes it, and on failure `FromUtf8Error::into_bytes` hands the
/// input bytes back unchanged.
#[verifier::external_body]
pub(crate) fn string_from_utf8(bytes: Vec<u8>) -> (r: Result<String, Vec<u8>>)
    ensures
        r is Ok <==> valid_utf8(bytes@),
        r matches Ok(s) ==> s@ == decode_utf8(bytes@),
        r matches Err(b) ==> b@ == bytes@,
{
    String::from_utf8(bytes).map_err(|e| e.into_bytes())
}

/// How any byte sequence reads after the standard library's lossy UTF-8
/// decoding, which replaces every invalid part with the replacement
/// character.
pub uninterp spec fn utf8_lossy(bytes: Seq<u8>) -> Seq<char>;

/// Relies on `String::from_utf8_lossy`: the result is a function of the
/// bytes alone, and valid UTF-8 input is decoded unchanged.
#[verifier::external_body]
fn string_from_utf8_lossy(bytes: &Vec<u8>) -> (r: String)
    ensures
        r@ == utf8_lossy(bytes@),
        valid_utf8(bytes@) ==> r@ == decode_utf8(bytes@),
{
    String::from_utf8_lossy(bytes).into_owned()
}

/// The two representations of a header value.
enum HeaderValueRep {
    /// The bytes decoded, so the value is kept as a string.
    Text(String),
    /// The bytes are not valid UTF-8 and stay a bag of bytes.
    Octets(Vec<u8>),
}

/// A header value: a sequence of bytes that is kept as a UTF-8 string
/// whenever possible.
///
/// The view of a header value is its byte content.  [`HeaderValue::wf`]
/// says the byte representation is only used when the bytes do not decode;
/// both constructors establish it.
pub struct HeaderValue {
    inner: HeaderValueRep,
}

impl View for HeaderValue {
    type V = Seq<u8>;

    closed spec fn view(&self) -> Seq<u8> {
        match self.inner {
            HeaderValueRep::Text(s) => encode_utf8(s@),
            HeaderValueRep::Octets(b) => b@,
        }
    }
}

impl HeaderValue {
    /// The representation invariant: bytes are kept raw only when they are
    /// not valid UTF-8.
    pub closed spec fn wf(&self) -> bool {
        match self.inner {
            HeaderValueRep::Text(_) => true,
            HeaderValueRep::Octets(b) => !valid_utf8(b@),
        }
    }

    /// A header value from a string: its bytes are the string's UTF-8
    /// encoding.
    pub fn string(str: String) -> (h: HeaderValue)
        ensures
            h@ == encode_utf8(str@),
            h.wf(),
    {
        HeaderValue { inner: HeaderValueRep::Text(str) }
    }

    /// A header value from a bag of bytes, kept as a string when they
    /// decode.  The byte content is the input, unchanged.
    pub fn bytes(bytes: Vec<u8>) -> (h: HeaderValue)
        ensures
            h@ == bytes@,
            h.wf(),
    {
        let ghost bv = bytes@;
        match string_from_utf8(bytes) {
            Ok(s) => {
                proof {
                    decode_utf8_encode_utf8(bv);
                }
                HeaderValue { inner: HeaderValueRep::Text(s) }
            },
            Err(b) => HeaderValue { inner: HeaderValueRep::Octets(b) },
        }
    }

    /// The value as a UTF-8 string: `Some` of the decoded characters
    /// exactly when the bytes are valid UTF-8.
    pub fn as_str(&self) -> (r: Option<&str>)
        requires
            self.wf(),
        ensures
            match r {
                Some(s) => valid_utf8(self@) && s@ == decode_utf8(self@),
                None => !valid_utf8(self@),
            },
    {
        match &self.inner {
            HeaderValueRep::Text(s) => {
                proof {
                    encode_utf8_valid_utf8(s@);
                    encode_utf8_decode_utf8(s@);
                }
                Some(s.as_str())
            },
            HeaderValueRep::Octets(_) => None,
        }
    }

    /// The value's bytes.
    pub fn as_bytes(&self) -> (r: &[u8])
        ensures
            r@ == self@,
    {
        match &self.inner {
            HeaderValueRep::Text(s) => s.as_str().as_bytes(),
            HeaderValueRep::Octets(b) => b.as_slice(),
        }
    }

    /// The value as a string, decoding lossily when the bytes are not
    /// valid UTF-8.
    pub fn into_utf8_lossy(self) -> (r: String)
        requires
            self.wf(),
        ensures
            valid_utf8(self@) ==> r@ == decode_utf8(self@),
            !valid_utf8(self@) ==> r@ == utf8_lossy(self@),
    {
        match self.inner {
            HeaderValueRep::Text(s) => {
                proof {
                    encode_utf8_valid_utf8(s@);
                    encode_utf8_decode_utf8(s@);
                }
                s
            },
            HeaderValueRep::Octets(b) => string_from_utf8_lossy(&b),
        }
    }

    /// The value's bytes, owned.
    pub fn into_bytes(self) -> (r: Vec<u8>)
        ensures
            r@ == self@,
    {
        match self.inner {
            HeaderValueRep::Text(s) => slice_to_vec(s.as_str().as_bytes()),
            HeaderValueRep::Octets(b) => b,
        }
    }
}

/// Normalize a header list into the internal representation: every name is
/// lowercase-folded and every value is wrapped as a [`HeaderValue`] with
/// the same bytes.  Later entries shadow earlier ones on lookup.
pub fn into_header_rep(headers: Vec<(String, Vec<u8>)>) -> (r: Vec<(String, HeaderValue)>)
    ensures
        r@.len() == headers@.len(),
        forall|i: int|
            0 <= i < headers@.len() ==> {
                &&& (#[trigger] r@[i]).0@ == lower_chars(headers@[i].0@)
                &&& r@[i].1@ == headers@[i].1@
                &&& r@[i].1.wf()
            },
{
    let ghost orig = headers@;
    let total: usize = headers.len();
    let mut rem = headers;
    let mut out: Vec<(String, HeaderValue)> = Vec::new();
    let mut k: usize = 0;
    while rem.len() > 0
        invariant
            orig == headers@,
            total == orig.len(),
            k + rem@.len() == orig.len(),
            rem@ == orig.skip(k as int),
            out@.len() == k,
            forall|i: int|
                0 <= i < k ==> {
                    &&& (#[trigger] out@[i]).0@ == lower_chars(orig[i].0@)
                    &&& out@[i].1@ == orig[i].1@
                    &&& out@[i].1.wf()
                },
        decreases rem.len(),
    {
        let ghost rem0 = rem@;
        let (name, value) = rem.remove(0);
        proof {
            assert(rem@ =~= orig.skip(k + 1));
            assert(rem0[0] == orig[k as int]);
        }
        let key = to_lower(name.as_str());
        let hv = HeaderValue::bytes(value);
        out.push((key, hv));
        k = k + 1;
    }
    out
}

/// The error of reading a body as text when it is not UTF-8.
#[derive(Debug)]
pub struct NonUtf8BodyError;

/// A typed body extracted from a request or response.
#[derive(Debug)]
pub struct Body<T>(pub T);

impl<T> Body<T> {
    /// The extracted body value.
    pub fn into_inner(self) -> (r: T)
        ensures
            r == self.0,
    {
        self.0
    }
}

/// A value deserialized from a JSON body.
#[derive(Debug)]
pub struct Json<T>(pub T);

impl<T> Json<T> {
    /// The deserialized value.
    pub fn into_inner(self) -> (r: T)
        ensures
            r == self.0,
    {
        self.0
    }
}

} // verus!
