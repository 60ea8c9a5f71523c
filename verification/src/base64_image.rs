//! Validation of base64-encoded images.
//!
//! An uploaded image arrives as a data URL (`data:image/png;base64,...`)
//! or as bare base64. The payload after the first comma must decode as
//! standard base64 and its bytes must sniff as PNG or JPEG; the accepted
//! image is stored back in data-URL form with the sniffed type.

use vstd::prelude::*;
use base64::Engine;

verus! {

/// Why an image was refused.
#[derive(Clone, Copy, Debug, PartialEq, Eq, Structural)]
pub enum ImageError {
    /// The input was empty.
    Empty,
    /// The input was not valid base64, or its bytes are no known image
    /// type, or an image type other than PNG or JPEG.
    Invalid,
}

impl ImageError {
    /// The user-facing message of the error.
    pub fn message(&self) -> (r: String)
        ensures
            *self is Empty ==> r@ == "Base64Image is empty !!"@,
            *self is Invalid ==> r@ == "Invalid base64 image data."@,
    {
        match self {
            ImageError::Empty => String::from_str("Base64Image is empty !!"),
            ImageError::Invalid => String::from_str("Invalid base64 image data."),
        }
    }
}

/// What base64's standard-alphabet decode returns for a string: the bytes,
/// or nothing when the input is not valid padded standard base64.
pub uninterp spec fn b64_decoded(s: Seq<char>) -> Option<Seq<u8>>;

/// Relies on `base64::Engine::decode` with the `STANDARD` engine: decodes
/// padded standard-alphabet base64, refusing invalid input. The result
/// depends on the input alone.
#[verifier::external_body]
fn b64_decode(s: &str) -> (r: Option<Vec<u8>>)
    ensures
        match r {
            Some(v) => b64_decoded(s@) == Some(v@),
            None => b64_decoded(s@) is None,
        },
{
    match base64::engine::general_purpose::STANDARD.decode(s) {
        Ok(v) => Some(v),
        Err(_) => None,
    }
}

/// What infer's file-type sniff returns for a byte sequence: the MIME type
/// of the type its magic bytes match, or nothing when no known type
/// matches.
pub uninterp spec fn sniffed_mime(bytes: Seq<u8>) -> Option<Seq<char>>;

/// Relies on `infer::get` and `infer::Type::mime_type`: sniffs the file
/// type from the leading magic bytes. The result depends on the bytes
/// alone.
#[verifier::external_body]
fn sniff_mime(bytes: &Vec<u8>) -> (r: Option<String>)
    ensures
        match r {
            Some(m) => sniffed_mime(bytes@) == Some(m@),
            None => sniffed_mime(bytes@) is None,
        },
{
    infer::get(bytes.as_slice()).map(|t| String::from(t.mime_type()))
}

/// The position of the first comma, or the length when there is none.
pub open spec fn first_comma(s: Seq<char>) -> int
    decreases s.len(),
{
    if s.len() == 0 {
        0
    } else if s[0] == ',' {
        0
    } else {
        1 + first_comma(s.drop_first())
    }
}

/// The base64 payload of a data URL: what follows the first comma, or the
/// whole string when no comma marks off a header.
pub open spec fn payload_of(s: Seq<char>) -> Seq<char> {
    if first_comma(s) < s.len() {
        s.subrange(first_comma(s) + 1, s.len() as int)
    } else {
        s
    }
}

proof fn lemma_first_comma_exact(s: Seq<char>, i: int)
    requires
        0 <= i <= s.len(),
        forall|k: int| 0 <= k < i ==> s[k] != ',',
        i < s.len() ==> s[i] == ',',
    ensures
        first_comma(s) == i,
    decreases i,
{
    if i == 0 {
    } else {
        let t = s.drop_first();
        lemma_first_comma_exact(t, i - 1);
    }
}

/// Whether a string is accepted as an image: nonempty, its payload
/// decodes, and the bytes sniff as PNG or JPEG.
pub open spec fn image_ok(data: Seq<char>) -> bool {
    &&& data.len() > 0
    &&& b64_decoded(payload_of(data)) matches Some(bytes)
    &&& sniffed_mime(b64_decoded(payload_of(data)).unwrap()) matches Some(m) && (m == "image/png"@
        || m == "image/jpeg"@)
}

/// The stored form of an accepted image: a data URL around its payload,
/// naming the sniffed type.
pub open spec fn image_text(data: Seq<char>) -> Seq<char> {
    "data:"@.add(sniffed_mime(b64_decoded(payload_of(data)).unwrap()).unwrap()).add(
        ";base64,"@,
    ).add(payload_of(data))
}

/// A validated base64 image, held in data-URL form.
#[derive(Clone, Debug)]
pub struct Base64Image(String);

impl View for Base64Image {
    type V = Seq<char>;

    closed spec fn view(&self) -> Seq<char> {
        self.0@
    }
}

impl Base64Image {
    /// Validates an upload: refuses an empty input, an undecodable
    /// payload, and bytes that are not a PNG or JPEG; accepts the rest in
    /// data-URL form.
    pub fn new(data: &String) -> (r: Result<Self, ImageError>)
        ensures
            r is Ok <==> image_ok(data@),
            r matches Ok(img) ==> img@ == image_text(data@),
            data@.len() == 0 ==> r == Err::<Base64Image, _>(ImageError::Empty),
            data@.len() > 0 && !image_ok(data@) ==> r == Err::<Base64Image, _>(
                ImageError::Invalid,
            ),
    {
        let s = data.as_str();
        let n = s.unicode_len();
        if n == 0 {
            return Err(ImageError::Empty);
        }
        let mut i: usize = 0;
        while i < n && s.get_char(i) != ','
            invariant
                0 <= i <= n,
                n == s@.len(),
                forall|k: int| 0 <= k < i ==> s@[k] != ',',
            decreases n - i,
        {
            i = i + 1;
        }
        proof {
            lemma_first_comma_exact(s@, i as int);
        }
        let clean_data = if i < n {
            s.substring_char(i + 1, n)
        } else {
            s
        };
        proof {
            assert(clean_data@ == payload_of(data@));
        }
        let bytes = match b64_decode(clean_data) {
            Some(bs) => bs,
            None => {
                return Err(ImageError::Invalid);
            },
        };
        let mime = match sniff_mime(&bytes) {
            Some(m) => m,
            None => {
                return Err(ImageError::Invalid);
            },
        };
        let png = String::from_str("image/png");
        let jpeg = String::from_str("image/jpeg");
        if !(mime == png || mime == jpeg) {
            return Err(ImageError::Invalid);
        }
        let mut out = String::from_str("data:");
        out.append(mime.as_str());
        out.append(";base64,");
        out.append(clean_data);
        proof {
            assert(out@ == image_text(data@));
        }
        Ok(Base64Image(out))
    }

    /// The stored data URL.
    pub fn into_inner(self) -> (r: String)
        ensures
            r@ == self@,
    {
        self.0
    }
}

} // verus!
