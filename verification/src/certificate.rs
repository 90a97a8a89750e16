//! What the Android trust stores ask of a certificate: the hash of its subject, by which its file
//! is named, and the common name of its subject.

use vstd::prelude::*;
use vstd::string::*;
use x509_parser::prelude::{FromDer, X509Certificate};

use crate::failure::{text_outcome, Failure};
use crate::text::{hex_digit, hex_digits, hex_text, hex_value, law_hex_notation};

verus! {

// ---------------------------------------------------------------------------------------------
// Trusted: PEM, X.509 and MD5
// ---------------------------------------------------------------------------------------------

/// The first certificate that `rustls_pemfile::certs` finds in `pem`, in DER, or the message of
/// the error that it meets instead; none where there is no certificate.
pub uninterp spec fn first_pem_certificate(pem: Seq<u8>) -> Option<Result<Seq<u8>, Seq<char>>>;

/// What `X509Certificate::from_der` reads in `der`: the subject in DER and its first common name,
/// which is itself a text or the message of an error and may be missing; or else the message of
/// the error that the parser ends with.
pub uninterp spec fn parsed_certificate(der: Seq<u8>) -> Result<
    (Seq<u8>, Option<Result<Seq<char>, Seq<char>>>),
    Seq<char>,
>;

/// The digest that `md5::compute` makes of `bytes`.
pub uninterp spec fn md5_digest(bytes: Seq<u8>) -> Seq<u8>;

/// The first certificate of a PEM file, as values.
pub open spec fn first_value(first: Option<Result<Vec<u8>, String>>) -> Option<
    Result<Seq<u8>, Seq<char>>,
> {
    match first {
        Some(Ok(der)) => Some(Ok(der@)),
        Some(Err(error)) => Some(Err(error@)),
        None => None,
    }
}

/// The subject of a certificate.
#[derive(Debug)]
pub struct CertificateSubject {
    /// The whole name, in DER.
    pub raw: Vec<u8>,
    /// The first common name in it, or the message of the error that decoding it ended with.
    pub common_name: Option<Result<String, String>>,
}

/// A common name, as values.
pub open spec fn common_name_value(name: Option<Result<String, String>>) -> Option<
    Result<Seq<char>, Seq<char>>,
> {
    match name {
        Some(Ok(text)) => Some(Ok(text@)),
        Some(Err(error)) => Some(Err(error@)),
        None => None,
    }
}

/// What a certificate was parsed to, as values.
pub open spec fn parsed_value(parsed: Result<CertificateSubject, String>) -> Result<
    (Seq<u8>, Option<Result<Seq<char>, Seq<char>>>),
    Seq<char>,
> {
    match parsed {
        Ok(subject) => Ok((subject.raw@, common_name_value(subject.common_name))),
        Err(error) => Err(error@),
    }
}

/// `rustls_pemfile::certs`, of which the first item is taken: it depends on the bytes alone. The
/// error is given by its message.
#[verifier::external_body]
fn first_certificate(pem: &[u8]) -> (first: Option<Result<Vec<u8>, String>>)
    ensures
        first_value(first) == first_pem_certificate(pem@),
{
    let mut reader = std::io::BufReader::new(pem);
    let first = rustls_pemfile::certs(&mut reader).next();
    match first {
        Some(Ok(der)) => Some(Ok(der.as_ref().to_vec())),
        Some(Err(error)) => Some(Err(error.to_string())),
        None => None,
    }
}

/// `X509Certificate::from_der`, of whose result the subject is taken: the bytes of the name
/// (`X509Name::as_raw`) and the first of its common names (`X509Name::iter_common_name`) as text
/// (`AttributeTypeAndValue::as_str`). All of it depends on the bytes alone. Errors are given by
/// their messages.
#[verifier::external_body]
fn parse_certificate(der: &[u8]) -> (parsed: Result<CertificateSubject, String>)
    ensures
        parsed_value(parsed) == parsed_certificate(der@),
{
    let (_, certificate) = X509Certificate::from_der(der).map_err(|error| error.to_string())?;
    let subject = certificate.subject();
    let common_name = match subject.iter_common_name().next() {
        Some(attribute) => Some(match attribute.as_str() {
            Ok(text) => Ok(text.to_string()),
            Err(error) => Err(error.to_string()),
        }),
        None => None,
    };
    Ok(CertificateSubject { raw: subject.as_raw().to_vec(), common_name })
}

/// `md5::compute`: the sixteen bytes of the digest, which depend on the bytes alone.
#[verifier::external_body]
fn md5_of(bytes: &[u8]) -> (digest: [u8; 16])
    ensures
        digest@ == md5_digest(bytes@),
{
    md5::compute(bytes).0
}

// ---------------------------------------------------------------------------------------------
// The subject of a certificate
// ---------------------------------------------------------------------------------------------

/// The certificate in a PEM file, in DER, or why there is none.
pub open spec fn der_result(first: Option<Result<Seq<u8>, Seq<char>>>) -> Result<
    Seq<u8>,
    Seq<Seq<char>>,
> {
    match first {
        Some(Ok(der)) => Ok(der),
        Some(Err(error)) => Err(seq!["failed to parse PEM certificate"@].push(error)),
        None => Err(seq!["certificate PEM is empty"@]),
    }
}

/// Bytes, or why there are none.
pub open spec fn bytes_outcome(result: Result<Vec<u8>, Failure>) -> Result<
    Seq<u8>,
    Seq<Seq<char>>,
> {
    match result {
        Ok(bytes) => Ok(bytes@),
        Err(failure) => Err(failure@),
    }
}

/// The certificate in a PEM file, in DER, given the first that was found in it.
pub fn certificate_der(first: Option<Result<Vec<u8>, String>>) -> (der: Result<Vec<u8>, Failure>)
    ensures
        bytes_outcome(der) == der_result(first_value(first)),
{
    match first {
        Some(Ok(der)) => Ok(der),
        Some(Err(error)) => {
            let failure = Failure::new(error).context(
                "failed to parse PEM certificate".to_string(),
            );
            assert(failure@ =~= seq!["failed to parse PEM certificate"@].push(error@));
            Err(failure)
        },
        None => Err(Failure::new("certificate PEM is empty".to_string())),
    }
}

/// The number that four bytes are the notation of, the lowest byte first.
pub open spec fn little_endian(bytes: Seq<u8>) -> nat {
    (bytes[0] + 0x100 * bytes[1] + 0x1_0000 * bytes[2] + 0x100_0000 * bytes[3]) as nat
}

/// The name of a subject with this digest: its first four bytes as a number, the lowest byte
/// first, in eight hexadecimal digits.
pub open spec fn subject_hash(digest: Seq<u8>) -> Seq<char> {
    hex_digits(little_endian(digest), 8)
}

/// The name of a subject with this digest.
pub fn subject_hash_text(digest: &[u8; 16]) -> (hash: String)
    ensures
        hash@ == subject_hash(digest@),
{
    let value: u32 = digest[0] as u32 + 0x100 * (digest[1] as u32) + 0x1_0000 * (digest[2] as u32)
        + 0x100_0000 * (digest[3] as u32);
    hex_text(value)
}

/// What a certificate was parsed to, with its error as a failure.
pub open spec fn parse_result(
    parsed: Result<(Seq<u8>, Option<Result<Seq<char>, Seq<char>>>), Seq<char>>,
) -> Result<(Seq<u8>, Option<Result<Seq<char>, Seq<char>>>), Seq<Seq<char>>> {
    match parsed {
        Ok(subject) => Ok(subject),
        Err(error) => Err(seq!["failed to parse X509 certificate: "@ + error]),
    }
}

/// The subject of the certificate in a PEM file.
pub open spec fn pem_subject(pem: Seq<u8>) -> Result<
    (Seq<u8>, Option<Result<Seq<char>, Seq<char>>>),
    Seq<Seq<char>>,
> {
    match der_result(first_pem_certificate(pem)) {
        Err(causes) => Err(causes),
        Ok(der) => parse_result(parsed_certificate(der)),
    }
}

/// The subject of a certificate, or why there is none.
pub open spec fn subject_outcome(result: Result<CertificateSubject, Failure>) -> Result<
    (Seq<u8>, Option<Result<Seq<char>, Seq<char>>>),
    Seq<Seq<char>>,
> {
    match result {
        Ok(subject) => Ok((subject.raw@, common_name_value(subject.common_name))),
        Err(failure) => Err(failure@),
    }
}

/// The subject of a certificate, given what the certificate was parsed to.
pub fn certificate_subject(parsed: Result<CertificateSubject, String>) -> (subject: Result<
    CertificateSubject,
    Failure,
>)
    ensures
        subject_outcome(subject) == parse_result(parsed_value(parsed)),
{
    match parsed {
        Ok(subject) => Ok(subject),
        Err(error) => Err(
            Failure::new(
                "failed to parse X509 certificate: ".to_string().concat(error.as_str()),
            ),
        ),
    }
}

/// The subject of the certificate in a PEM file.
fn read_subject(cert_pem: &Vec<u8>) -> (subject: Result<CertificateSubject, Failure>)
    ensures
        subject_outcome(subject) == pem_subject(cert_pem@),
{
    match certificate_der(first_certificate(cert_pem.as_slice())) {
        Err(failure) => Err(failure),
        Ok(der) => certificate_subject(parse_certificate(der.as_slice())),
    }
}

/// The name that Android gives to the file of a certificate: the MD5 digest of its subject, in
/// the notation of `openssl x509 -subject_hash_old`.
pub fn android_cert_subject_hash_old(cert_pem: &Vec<u8>) -> (hash: Result<String, Failure>)
    ensures
        text_outcome(hash) == (match pem_subject(cert_pem@) {
            Err(causes) => Err(causes),
            Ok((subject, _)) => Ok(subject_hash(md5_digest(subject))),
        }),
{
    match read_subject(cert_pem) {
        Err(failure) => Err(failure),
        Ok(subject) => Ok(subject_hash_text(&md5_of(subject.raw.as_slice()))),
    }
}

/// The first common name of a subject, or why there is none.
pub open spec fn common_name_result(name: Option<Result<Seq<char>, Seq<char>>>) -> Result<
    Seq<char>,
    Seq<Seq<char>>,
> {
    match name {
        Some(Ok(text)) => Ok(text),
        Some(Err(error)) => Err(seq!["failed to decode certificate common name: "@ + error]),
        None => Err(seq!["certificate common name is missing"@]),
    }
}

/// The first common name of a subject, or why there is none.
pub fn subject_common_name(subject: CertificateSubject) -> (name: Result<String, Failure>)
    ensures
        text_outcome(name) == common_name_result(common_name_value(subject.common_name)),
{
    match subject.common_name {
        Some(Ok(text)) => Ok(text),
        Some(Err(error)) => Err(
            Failure::new(
                "failed to decode certificate common name: ".to_string().concat(error.as_str()),
            ),
        ),
        None => Err(Failure::new("certificate common name is missing".to_string())),
    }
}

/// The common name of the certificate in a PEM file, or why there is none.
pub open spec fn pem_common_name(pem: Seq<u8>) -> Result<Seq<char>, Seq<Seq<char>>> {
    match pem_subject(pem) {
        Err(causes) => Err(causes),
        Ok((_, name)) => common_name_result(name),
    }
}

/// The common name of the certificate in a PEM file.
pub fn android_cert_common_name(cert_pem: &Vec<u8>) -> (name: Result<String, Failure>)
    ensures
        text_outcome(name) == pem_common_name(cert_pem@),
{
    match read_subject(cert_pem) {
        Err(failure) => Err(failure),
        Ok(subject) => subject_common_name(subject),
    }
}

// ---------------------------------------------------------------------------------------------
// Laws
// ---------------------------------------------------------------------------------------------

/// A hexadecimal digit in small letters.
pub open spec fn is_hex_digit(c: char) -> bool {
    '0' <= c <= '9' || 'a' <= c <= 'f'
}

/// The name of a subject is eight hexadecimal digits, and two digests share it if and only if
/// their first four bytes are the same.
pub proof fn law_subject_hash_is_faithful(a: Seq<u8>, b: Seq<u8>)
    requires
        a.len() == 16,
        b.len() == 16,
    ensures
        subject_hash(a).len() == 8,
        forall|i: int| 0 <= i < 8 ==> is_hex_digit(#[trigger] subject_hash(a)[i]),
        subject_hash(a) == subject_hash(b) <==> a.take(4) == b.take(4),
{
    lemma_hex_digits(little_endian(a), 8);
    let x = little_endian(a);
    let y = little_endian(b);
    if subject_hash(a) == subject_hash(b) {
        assert(pow16(8) == 0x1_0000_0000) by {
            reveal_with_fuel(pow16, 9);
        }
        lemma_hex_injective(x, y, 8);
        lemma_little_endian_injective(
            a[0] as int,
            a[1] as int,
            a[2] as int,
            a[3] as int,
            b[0] as int,
            b[1] as int,
            b[2] as int,
            b[3] as int,
        );
        assert(a.take(4) =~= b.take(4));
    }
    if a.take(4) == b.take(4) {
        assert(a[0] == a.take(4)[0] && a[1] == a.take(4)[1] && a[2] == a.take(4)[2] && a[3]
            == a.take(4)[3]);
        assert(b[0] == b.take(4)[0] && b[1] == b.take(4)[1] && b[2] == b.take(4)[2] && b[3]
            == b.take(4)[3]);
    }
}

/// 16 to the power of `n`.
spec fn pow16(n: nat) -> nat
    decreases n,
{
    if n == 0 {
        1
    } else {
        16 * pow16((n - 1) as nat)
    }
}

proof fn lemma_hex_digits(n: nat, width: nat)
    ensures
        hex_digits(n, width).len() == width,
        forall|i: int| 0 <= i < width ==> is_hex_digit(#[trigger] hex_digits(n, width)[i]),
    decreases width,
{
    if width > 0 {
        lemma_hex_digits(n / 16, (width - 1) as nat);
    }
}

proof fn lemma_hex_digit_injective(a: int, b: int)
    requires
        0 <= a < 16,
        0 <= b < 16,
        hex_digit(a) == hex_digit(b),
    ensures
        a == b,
{
    assert(hex_digit(a) as int == (if a < 10 {
        48 + a
    } else {
        87 + a
    }));
    assert(hex_digit(b) as int == (if b < 10 {
        48 + b
    } else {
        87 + b
    }));
}

/// Four bytes are determined by the number that they are the notation of.
proof fn lemma_little_endian_injective(
    a0: int,
    a1: int,
    a2: int,
    a3: int,
    b0: int,
    b1: int,
    b2: int,
    b3: int,
)
    requires
        0 <= a0 < 256,
        0 <= a1 < 256,
        0 <= a2 < 256,
        0 <= a3 < 256,
        0 <= b0 < 256,
        0 <= b1 < 256,
        0 <= b2 < 256,
        0 <= b3 < 256,
        a0 + 0x100 * a1 + 0x1_0000 * a2 + 0x100_0000 * a3 == b0 + 0x100 * b1 + 0x1_0000 * b2
            + 0x100_0000 * b3,
    ensures
        a0 == b0,
        a1 == b1,
        a2 == b2,
        a3 == b3,
{
}

/// Numbers that fit into the width are told apart by their digits.
proof fn lemma_hex_injective(a: nat, b: nat, width: nat)
    requires
        a < pow16(width),
        b < pow16(width),
        hex_digits(a, width) == hex_digits(b, width),
    ensures
        a == b,
    decreases width,
{
    if width > 0 {
        let short = (width - 1) as nat;
        lemma_hex_digits(a / 16, short);
        lemma_hex_digits(b / 16, short);
        assert(hex_digits(a, width).last() == hex_digit((a % 16) as int));
        assert(hex_digits(b, width).last() == hex_digit((b % 16) as int));
        lemma_hex_digit_injective((a % 16) as int, (b % 16) as int);
        assert(hex_digits(a, width).drop_last() =~= hex_digits(a / 16, short));
        assert(hex_digits(b, width).drop_last() =~= hex_digits(b / 16, short));
        lemma_hex_injective(a / 16, b / 16, short);
    }
}

/// The name of a subject stands for the number that the first four bytes of the digest make, the lowest
/// byte first.
pub proof fn law_subject_hash_is_little_endian(digest: Seq<u8>)
    requires
        digest.len() == 16,
    ensures
        hex_value(subject_hash(digest)) == digest[0] + 256 * (digest[1] + 256 * (digest[2] + 256
            * digest[3])),
{
    law_hex_notation(little_endian(digest) as u32);
}

/// What is found in a file is passed on, and what goes wrong on the way has a message of its own.
pub proof fn law_certificate_errors_are_told(
    der: Seq<u8>,
    subject: (Seq<u8>, Option<Result<Seq<char>, Seq<char>>>),
    name: Seq<char>,
    error: Seq<char>,
)
    ensures
        der_result(Some(Ok(der))) == Ok::<Seq<u8>, Seq<Seq<char>>>(der),
        der_result(Some(Err(error))) == Err::<Seq<u8>, Seq<Seq<char>>>(
            seq!["failed to parse PEM certificate"@, error],
        ),
        der_result(None) == Err::<Seq<u8>, Seq<Seq<char>>>(seq!["certificate PEM is empty"@]),
        parse_result(Ok(subject)) is Ok && parse_result(Ok(subject))->Ok_0 == subject,
        parse_result(Err(error)) is Err && parse_result(Err(error))->Err_0 == seq![
            "failed to parse X509 certificate: "@ + error,
        ],
        common_name_result(Some(Ok(name))) == Ok::<Seq<char>, Seq<Seq<char>>>(name),
        common_name_result(Some(Err(error))) == Err::<Seq<char>, Seq<Seq<char>>>(
            seq!["failed to decode certificate common name: "@ + error],
        ),
        common_name_result(None) == Err::<Seq<char>, Seq<Seq<char>>>(
            seq!["certificate common name is missing"@],
        ),
{
    assert(seq!["failed to parse PEM certificate"@].push(error) =~= seq![
        "failed to parse PEM certificate"@,
        error,
    ]);
}

/// The subject of a file is that of its first certificate, and its common name is the first of the
/// subject; the first thing that goes wrong is told.
pub proof fn law_subject_is_that_of_the_first_certificate(pem: Seq<u8>, der: Seq<u8>)
    ensures
        first_pem_certificate(pem) == Some(Ok::<Seq<u8>, Seq<char>>(der)) ==> pem_subject(pem)
            == parse_result(parsed_certificate(der)),
        !(first_pem_certificate(pem) matches Some(Ok(_))) ==> pem_subject(pem) is Err && pem_subject(
            pem,
        )->Err_0 == der_result(first_pem_certificate(pem))->Err_0,
        pem_subject(pem) is Err ==> pem_common_name(pem) is Err && pem_common_name(pem)->Err_0
            == pem_subject(pem)->Err_0,
        pem_subject(pem) is Ok ==> pem_common_name(pem) == common_name_result(
            pem_subject(pem)->Ok_0.1,
        ),
{
}

} // verus!
