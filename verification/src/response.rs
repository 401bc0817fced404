//! The raw bytes a sync request returns, tagged with the type they encode.

use vstd::prelude::*;
use vstd::string::*;
use vstd::utf8::{decode_utf8, pop_first_scalar, valid_utf8};
use std::marker::PhantomData;
use crate::text::str_eq;
use crate::upload::UploadResponse;

verus! {

/// Stores the data returned from a sync request, and the type it
/// represents. Uploads and downloads are answered with bare bytes.
pub struct SyncResponse<T> {
    pub data: Vec<u8>,
    pub json_output_type: PhantomData<T>,
}

impl<T> SyncResponse<T> {
    /// Wraps the bytes of a reply.
    pub fn from_vec(data: Vec<u8>) -> (r: SyncResponse<T>)
        ensures
            r.data@ == data@,
    {
        SyncResponse { data, json_output_type: PhantomData }
    }
}

/// What `String::from_utf8_lossy` returns for `bytes`.
pub uninterp spec fn utf8_lossy(bytes: Seq<u8>) -> Seq<char>;

/// Calls `String::from_utf8_lossy`. Its documentation says that valid
/// UTF-8 is decoded as it stands; the replacement of invalid sequences is
/// left to the name `utf8_lossy`.
#[verifier::external_body]
fn from_utf8_lossy(bytes: &[u8]) -> (s: String)
    ensures
        s@ == utf8_lossy(bytes@),
        valid_utf8(bytes@) ==> s@ == decode_utf8(bytes@),
{
    String::from_utf8_lossy(bytes).into_owned()
}

/// The bytes of the reply `OK`.
pub open spec fn ok_reply() -> Seq<u8> {
    seq![79u8, 75u8]
}

/// The bytes `OK` are valid UTF-8 and decode to the text `OK`.
pub proof fn lemma_ok_reply_decodes()
    ensures
        valid_utf8(ok_reply()),
        decode_utf8(ok_reply()) == "OK"@,
{
    reveal_strlit("OK");
    let b = ok_reply();
    assert((79u8 & 0x7fu8) == 79u8 && (75u8 & 0x7fu8) == 75u8) by (bit_vector);
    let rest = pop_first_scalar(b);
    assert(rest =~= seq![75u8]);
    assert(pop_first_scalar(rest) =~= Seq::<u8>::empty());
    assert(valid_utf8(pop_first_scalar(rest)));
    assert(valid_utf8(rest));
    assert(valid_utf8(b));
    assert(decode_utf8(pop_first_scalar(rest)) =~= Seq::<char>::empty());
    assert(decode_utf8(rest) =~= seq!['K']);
    assert(decode_utf8(b) =~= seq!['O', 'K']);
    assert("OK"@ =~= seq!['O', 'K']);
}

/// The reply to an upload read as text: `OK` means the upload was
/// accepted, anything else is the server's reason for refusing it.
pub open spec fn upload_response_spec(data: Seq<u8>) -> UploadResponseSpec {
    let text = utf8_lossy(data);
    if text == "OK"@ {
        UploadResponseSpec::Accepted
    } else {
        UploadResponseSpec::Rejected(text)
    }
}

/// An upload reply as plain values.
pub enum UploadResponseSpec {
    Accepted,
    Rejected(Seq<char>),
}

pub open spec fn upload_response_view(r: UploadResponse) -> UploadResponseSpec {
    match r {
        UploadResponse::Accepted => UploadResponseSpec::Accepted,
        UploadResponse::Rejected(m) => UploadResponseSpec::Rejected(m@),
    }
}

/// The answer to an upload given the reply as text: `OK` accepts, any
/// other text is the reason for the refusal.
pub fn upload_response_from_text(text: String) -> (r: UploadResponse)
    ensures
        r is Accepted <==> text@ == "OK"@,
        r matches UploadResponse::Rejected(m) ==> m == text,
{
    if str_eq(text.as_str(), "OK") {
        UploadResponse::Accepted
    } else {
        UploadResponse::Rejected(text)
    }
}

impl SyncResponse<UploadResponse> {
    /// The server's answer to an upload. The sync protocol sends it as a
    /// bare string instead of JSON.
    pub fn upload_response(&self) -> (r: UploadResponse)
        ensures
            upload_response_view(r) == upload_response_spec(self.data@),
            valid_utf8(self.data@) ==> upload_response_view(r) == (if decode_utf8(self.data@)
                == "OK"@ {
                UploadResponseSpec::Accepted
            } else {
                UploadResponseSpec::Rejected(decode_utf8(self.data@))
            }),
            self.data@ == ok_reply() ==> r is Accepted,
    {
        proof {
            lemma_ok_reply_decodes();
        }
        let resp = from_utf8_lossy(self.data.as_slice());
        upload_response_from_text(resp)
    }
}

} // verus!
