//! The certificate that a peer keeps from one run to the next.

use libp2p_webrtc::tokio::certificate::Error;
use libp2p_webrtc::tokio::Certificate;
use vstd::prelude::*;
use vstd::slice::slice_subrange;
use vstd::utf8::encode_utf8;

verus! {

/// `libp2p_webrtc::tokio::Certificate`, carried through unread.
#[verifier::external_type_specification]
#[verifier::external_body]
pub struct ExCertificate(libp2p_webrtc::tokio::Certificate);

/// `libp2p_webrtc::tokio::certificate::Error`, carried through unread.
#[verifier::external_type_specification]
#[verifier::external_body]
pub struct ExCertificateError(libp2p_webrtc::tokio::certificate::Error);

/// A certificate, with its private key and its expiry, in PEM.
pub uninterp spec fn certificate_pem(certificate: Certificate) -> Seq<char>;

/// The certificate that a PEM text stands for, itself as PEM. Its expiry has to be a
/// time that the system's clock can express.
pub uninterp spec fn pem_certificate(text: Seq<char>) -> Option<Seq<char>>;

/// The tag and the contents of the first PEM block in some bytes.
pub uninterp spec fn pem_block(bytes: Seq<u8>) -> Option<(Seq<char>, Seq<u8>)>;

/// `pem::parse`: the first PEM block, or nothing where the bytes hold none.
#[verifier::external_body]
fn parse_block(bytes: &[u8]) -> (res: Option<(String, Vec<u8>)>)
    ensures
        match pem_block(bytes@) {
            Some((tag, contents)) => res matches Some(block) && block.0@ == tag && block.1@
                == contents,
            None => res is None,
        },
{
    pem::parse(bytes).ok().map(|block| (block.tag, block.contents))
}

/// Where the first of two adjacent line feeds stands, at `from` or behind it; the
/// end of the bytes where there is none.
pub open spec fn blank_line(bytes: Seq<u8>, from: int) -> int
    decreases bytes.len() - from,
{
    if from + 1 >= bytes.len() {
        bytes.len() as int
    } else if bytes[from] == 10 && bytes[from + 1] == 10 {
        from
    } else {
        blank_line(bytes, from + 1)
    }
}

/// Whether the block that should hold a certificate's expiry time is one, but with
/// fewer bytes than a time takes.
pub open spec fn expiry_cut_short(text: Seq<char>) -> bool {
    let bytes = encode_utf8(text);
    pem_block(bytes.take(blank_line(bytes, 0))) matches Some((tag, contents)) && tag == "EXPIRES"@
        && contents.len() < 8
}

/// `Certificate::from_pem` gives the certificate that a PEM text stands for, and an
/// error where it stands for none. It takes eight bytes from the expiry block
/// without asking whether they are there.
pub assume_specification[ Certificate::from_pem ](pem_str: &str) -> (res: Result<Certificate, Error>)
    requires
        !expiry_cut_short(pem_str@),
    ensures
        match pem_certificate(pem_str@) {
            Some(pem) => res matches Ok(certificate) && certificate_pem(certificate) == pem,
            None => res is Err,
        },
;

/// `Certificate::serialize_pem` writes what `Certificate::from_pem` reads: the PEM
/// of a certificate stands for a certificate with that PEM.
pub assume_specification[ Certificate::serialize_pem ](certificate: &Certificate) -> (res: String)
    ensures
        res@ == certificate_pem(*certificate),
        pem_certificate(res@) == Some(res@),
        !expiry_cut_short(res@),
;

/// `Certificate::generate` with the thread's generator of random numbers: some
/// certificate. Which one is up to chance; that there is one is not.
#[verifier::external_body]
fn generate_certificate() -> (res: Result<Certificate, Error>)
    ensures
        res is Ok,
{
    Certificate::generate(&mut rand::thread_rng())
}

/// The certificate of a run, and what is to be stored of it.
pub struct LoadedCertificate {
    pub certificate: Certificate,
    pub to_store: Option<String>,
}

/// Why a run has no certificate.
pub enum CertificateError {
    /// What was stored is no certificate.
    Unreadable(Error),
    /// No certificate could be generated.
    Ungenerated(Error),
}

/// What loading a certificate comes to, given what was stored before: what was
/// stored is used and left as it is, and an error if it is no certificate; where
/// nothing was stored, a new certificate is stored in a form that can be read
/// again.
pub open spec fn certificate_loaded(
    stored: Option<Seq<char>>,
    res: Result<LoadedCertificate, CertificateError>,
) -> bool {
    match stored {
        Some(text) => match pem_certificate(text) {
            Some(pem) => {
                &&& res matches Ok(loaded)
                &&& certificate_pem(loaded.certificate) == pem
                &&& loaded.to_store is None
            },
            None => res matches Err(CertificateError::Unreadable(_)),
        },
        None => {
            &&& res matches Ok(loaded)
            &&& loaded.to_store matches Some(text)
            &&& text@ == certificate_pem(loaded.certificate)
            &&& pem_certificate(text@) == Some(text@)
            &&& !expiry_cut_short(text@)
        },
    }
}

/// The text that was stored, as its characters.
pub open spec fn stored_text(stored: Option<String>) -> Option<Seq<char>> {
    match stored {
        Some(text) => Some(text@),
        None => None,
    }
}

/// The certificate of a run that found one stored, once it is read.
pub fn stored_certificate(read: Result<Certificate, Error>) -> (res: Result<
    LoadedCertificate,
    CertificateError,
>)
    ensures
        res == (match read {
            Ok(certificate) => Ok::<LoadedCertificate, CertificateError>(
                LoadedCertificate { certificate, to_store: None },
            ),
            Err(error) => Err(CertificateError::Unreadable(error)),
        }),
{
    match read {
        Ok(certificate) => Ok(LoadedCertificate { certificate, to_store: None }),
        Err(error) => Err(CertificateError::Unreadable(error)),
    }
}

/// The certificate of a run that found none stored, once one is generated.
pub fn created_certificate(generated: Result<Certificate, Error>) -> (res: Result<
    LoadedCertificate,
    CertificateError,
>)
    ensures
        match generated {
            Ok(certificate) => {
                &&& res matches Ok(loaded)
                &&& loaded.certificate == certificate
                &&& loaded.to_store matches Some(text)
                &&& text@ == certificate_pem(certificate)
                &&& pem_certificate(text@) == Some(text@)
                &&& !expiry_cut_short(text@)
            },
            Err(error) => res == Err::<LoadedCertificate, CertificateError>(
                CertificateError::Ungenerated(error),
            ),
        },
{
    match generated {
        Ok(certificate) => {
            let text = certificate.serialize_pem();
            Ok(LoadedCertificate { certificate, to_store: Some(text) })
        },
        Err(error) => Err(CertificateError::Ungenerated(error)),
    }
}

/// The certificate of this run, from what an earlier run has stored, if any has.
pub fn read_or_create_certificate(stored: Option<String>) -> (res: Result<
    LoadedCertificate,
    CertificateError,
>)
    requires
        stored matches Some(text) ==> !expiry_cut_short(text@),
    ensures
        certificate_loaded(stored_text(stored), res),
{
    match stored {
        Some(text) => stored_certificate(Certificate::from_pem(text.as_str())),
        None => created_certificate(generate_certificate()),
    }
}

fn find_blank_line(bytes: &[u8]) -> (res: usize)
    ensures
        res == blank_line(bytes@, 0),
        res <= bytes@.len(),
{
    let mut at: usize = 0;
    while at < bytes.len() && bytes.len() - at > 1
        invariant
            at <= bytes@.len(),
            blank_line(bytes@, 0) == blank_line(bytes@, at as int),
        decreases bytes@.len() - at,
    {
        if bytes[at] == 10 && bytes[at + 1] == 10 {
            return at;
        }
        at = at + 1;
    }
    bytes.len()
}

/// Whether [`read_or_create_certificate`] can be asked about a text.
pub fn is_expiry_cut_short(text: &str) -> (res: bool)
    ensures
        res == expiry_cut_short(text@),
{
    let bytes = text.as_bytes();
    let end: usize = find_blank_line(bytes);
    let first = slice_subrange(bytes, 0, end);
    assert(first@ =~= bytes@.take(end as int));
    match parse_block(first) {
        Some((tag, contents)) => tag.eq(&"EXPIRES".to_owned()) && contents.len() < 8,
        None => false,
    }
}

/// The certificate of this run, or nothing where the stored text ends within its
/// expiry time.
pub fn load_certificate(stored: Option<String>) -> (res: Option<
    Result<LoadedCertificate, CertificateError>,
>)
    ensures
        res is None <==> (stored matches Some(text) && expiry_cut_short(text@)),
        res matches Some(loaded) ==> certificate_loaded(stored_text(stored), loaded),
{
    let cut_short: bool = match &stored {
        Some(text) => is_expiry_cut_short(text.as_str()),
        None => false,
    };
    if cut_short {
        None
    } else {
        Some(read_or_create_certificate(stored))
    }
}

/// A certificate outlives the run that created it: a later run that finds what was
/// stored has a certificate with the same PEM, and stores nothing.
pub proof fn certificate_survives_restart(
    first: Result<LoadedCertificate, CertificateError>,
    stored: String,
    second: Result<LoadedCertificate, CertificateError>,
)
    requires
        certificate_loaded(None, first),
        first->Ok_0.to_store == Some(stored),
        certificate_loaded(Some(stored@), second),
    ensures
        !expiry_cut_short(stored@),
        second is Ok,
        certificate_pem(second->Ok_0.certificate) == certificate_pem(first->Ok_0.certificate),
        second->Ok_0.to_store is None,
{
}

/// A stored certificate serves every run alike: two runs that find the same text store
/// nothing, and have certificates with the same PEM or are refused both.
pub proof fn certificate_stays(
    stored: Seq<char>,
    first: Result<LoadedCertificate, CertificateError>,
    second: Result<LoadedCertificate, CertificateError>,
)
    requires
        certificate_loaded(Some(stored), first),
        certificate_loaded(Some(stored), second),
    ensures
        first is Ok <==> second is Ok,
        first matches Ok(loaded) ==> {
            &&& loaded.to_store is None
            &&& second->Ok_0.to_store is None
            &&& certificate_pem(second->Ok_0.certificate) == certificate_pem(loaded.certificate)
        },
        first matches Err(error) ==> error is Unreadable && second->Err_0 is Unreadable,
{
}

/// What was stored decides, whatever it is: a run has the certificate that the text stands
/// for, and no other; a text that stands for none is refused, and never replaced.
pub proof fn stored_certificate_decides(
    stored: String,
    res: Result<LoadedCertificate, CertificateError>,
)
    requires
        certificate_loaded(stored_text(Some(stored)), res),
    ensures
        res is Ok <==> pem_certificate(stored@) is Some,
        res matches Ok(loaded) ==> pem_certificate(stored@) == Some(
            certificate_pem(loaded.certificate),
        ) && loaded.to_store is None,
        res matches Err(error) ==> error is Unreadable,
{
}

/// A run that finds nothing stored always has a certificate, and stores a text that stands
/// for that very certificate and can be read.
pub proof fn new_certificate_can_be_read_again(res: Result<LoadedCertificate, CertificateError>)
    requires
        certificate_loaded(stored_text(None), res),
    ensures
        res is Ok,
        res->Ok_0.to_store is Some,
        res->Ok_0.to_store->0@ == certificate_pem(res->Ok_0.certificate),
        pem_certificate(res->Ok_0.to_store->0@) == Some(certificate_pem(res->Ok_0.certificate)),
        !expiry_cut_short(res->Ok_0.to_store->0@),
{
}

/// Whether two line feeds follow each other at a place in some bytes.
pub open spec fn is_blank_line(bytes: Seq<u8>, at: int) -> bool {
    0 <= at && at + 1 < bytes.len() && bytes[at] == 10 && bytes[at + 1] == 10
}

proof fn blank_line_is_the_first(bytes: Seq<u8>, from: int, at: int)
    requires
        0 <= from <= at <= bytes.len(),
        at == bytes.len() || is_blank_line(bytes, at),
        forall|i: int| from <= i < at ==> !is_blank_line(bytes, i),
    ensures
        blank_line(bytes, from) == at,
    decreases at - from,
{
    if from < at {
        assert(!is_blank_line(bytes, from));
        if from + 1 < bytes.len() {
            blank_line_is_the_first(bytes, from + 1, at);
        }
    }
}

/// A text is cut short exactly if the block before its first blank line, or the block that
/// the text consists of where it has none, is an expiry with fewer than eight bytes.
pub proof fn cut_short_before_the_first_blank_line(text: Seq<char>, at: int)
    requires
        0 <= at <= encode_utf8(text).len(),
        at == encode_utf8(text).len() || is_blank_line(encode_utf8(text), at),
        forall|i: int| 0 <= i < at ==> !is_blank_line(encode_utf8(text), i),
    ensures
        expiry_cut_short(text) == (match pem_block(encode_utf8(text).take(at)) {
            Some((tag, contents)) => tag == "EXPIRES"@ && contents.len() < 8,
            None => false,
        }),
{
    blank_line_is_the_first(encode_utf8(text), 0, at);
}

} // verus!
