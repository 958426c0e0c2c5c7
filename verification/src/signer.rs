//! The signing service: signs a list of words together with the time of
//! signing. Every signature is checked against the service's public key
//! before it is handed out.

use crate::carrier::Carrier;
use crate::config::ConfigurationError;
use crate::messages::{SignRequest, WordsResponse, WordsView};
use crate::propagator::{extract, extracted};
use crate::provider::{ProviderView, TracerProvider};
use crate::rpc::Failure;
use crate::span::{started_span, Span, SpanView};
use crate::stamp::{now_millis, Stamp};
use crate::text::texts;
use vstd::bytes::{spec_u64_to_le_bytes, u64_to_le_bytes};
use vstd::prelude::*;
use vstd::utf8::encode_utf8;

verus! {

/// The RSA key pair of ring, opaque to the verifier.
#[verifier::external_type_specification]
#[verifier::external_body]
pub struct ExRsaKeyPair(ring::signature::RsaKeyPair);

/// The error with which ring rejects a key, opaque to the verifier.
#[verifier::external_type_specification]
#[verifier::external_body]
pub struct ExKeyRejected(ring::error::KeyRejected);

/// The error with which ring fails to sign, opaque to the verifier.
#[verifier::external_type_specification]
#[verifier::external_body]
pub struct ExUnspecified(ring::error::Unspecified);

/// The growable byte buffer of the bytes crate; the verifier knows it by
/// `buffered`.
#[verifier::external_type_specification]
#[verifier::external_body]
pub struct ExBytesMut(bytes::BytesMut);

/// The immutable byte buffer of the bytes crate; the verifier knows it by
/// `frozen`.
#[verifier::external_type_specification]
#[verifier::external_body]
pub struct ExBytes(bytes::Bytes);

/// The bytes that a growable buffer of the bytes crate holds, in order.
pub uninterp spec fn buffered(buffer: bytes::BytesMut) -> Seq<u8>;

/// The bytes that an immutable buffer of the bytes crate holds, in order.
pub uninterp spec fn frozen(message: bytes::Bytes) -> Seq<u8>;

/// The text that `base64::encode` gives for a sequence of bytes: its
/// base64 form in the standard alphabet, with padding.
pub uninterp spec fn base64_text(bytes: Seq<u8>) -> Seq<char>;

/// `BytesMut::new` of the bytes crate: a buffer that holds nothing.
#[verifier::external_body]
fn buffer_new() -> (buffer: bytes::BytesMut)
    ensures
        buffered(buffer) == Seq::<u8>::empty(),
{
    bytes::BytesMut::new()
}

/// `BytesMut::extend_from_slice` of the bytes crate: the slice is appended
/// to what the buffer held.
#[verifier::external_body]
fn buffer_extend(buffer: &mut bytes::BytesMut, part: &[u8])
    ensures
        buffered(*final(buffer)) == buffered(*old(buffer)) + part@,
{
    buffer.extend_from_slice(part)
}

/// `BytesMut::freeze` of the bytes crate: the same bytes, immutable.
#[verifier::external_body]
fn buffer_freeze(buffer: bytes::BytesMut) -> (message: bytes::Bytes)
    ensures
        frozen(message) == buffered(buffer),
{
    buffer.freeze()
}

/// Whether `RsaKeyPair::from_der` of ring accepts a sequence of bytes as an
/// RSA private key in DER form. It parses the bytes and checks the key's
/// numbers against each other; what it accepts depends on the bytes alone.
pub uninterp spec fn key_accepted(der: Seq<u8>) -> bool;

/// `RsaKeyPair::from_der` of ring: the key pair where the bytes are
/// accepted, the reason where they are rejected.
#[verifier::external_body]
fn key_from_der(der: &[u8]) -> (key: Result<ring::signature::RsaKeyPair, ring::error::KeyRejected>)
    ensures
        key is Ok <==> key_accepted(der@),
{
    ring::signature::RsaKeyPair::from_der(der)
}

/// `RsaKeyPair::public_modulus_len` of ring: the length in bytes of the
/// key's public modulus, which is the length of its signatures.
#[verifier::external_body]
fn modulus_len(key: &ring::signature::RsaKeyPair) -> (len: usize) {
    key.public_modulus_len()
}

/// `RsaKeyPair::sign` of ring with RSA-PSS over SHA-256 and the system's
/// random generator. It writes the signature over `signature`, whose
/// length stays as it is, or fails (always, where that length is not the
/// modulus length). The padding is random: nothing is claimed of the bytes.
#[verifier::external_body]
fn pss_sign(
    key: &ring::signature::RsaKeyPair,
    message: &bytes::Bytes,
    signature: &mut Vec<u8>,
) -> (r: Result<(), ring::error::Unspecified>)
    ensures
        final(signature)@.len() == old(signature)@.len(),
{
    key.sign(
        &ring::signature::RSA_PSS_SHA256,
        &ring::rand::SystemRandom::new(),
        message,
        signature,
    )
}

/// Whether ring's verification of RSA-PSS signatures over SHA-256 accepts
/// `signature` as a signature of `message` under the RSA public key
/// `public_key`, given in DER form. It depends on the three byte sequences
/// alone.
pub uninterp spec fn pss_verifies(public_key: Seq<u8>, message: Seq<u8>, signature: Seq<u8>) -> bool;

/// `KeyPair::public_key` of ring, on an RSA key pair: the public key in DER
/// form. Nothing is claimed of the bytes.
#[verifier::external_body]
fn public_key_of(key: &ring::signature::RsaKeyPair) -> (public_key: Vec<u8>) {
    ring::signature::KeyPair::public_key(key).as_ref().to_vec()
}

/// `UnparsedPublicKey::verify` of ring with RSA-PSS over SHA-256, for keys
/// of 2048 to 8192 bits: `Ok` where the signature is accepted.
#[verifier::external_body]
fn pss_verify(public_key: &Vec<u8>, message: &bytes::Bytes, signature: &Vec<u8>) -> (r: Result<
    (),
    ring::error::Unspecified,
>)
    ensures
        r is Ok <==> pss_verifies(public_key@, frozen(*message), signature@),
{
    ring::signature::UnparsedPublicKey::new(
        &ring::signature::RSA_PSS_2048_8192_SHA256,
        public_key,
    ).verify(message, signature)
}

/// `encode` of the base64 crate.
#[verifier::external_body]
fn base64_encode(bytes: &Vec<u8>) -> (text: String)
    ensures
        text@ == base64_text(bytes@),
{
    base64::encode(bytes)
}

/// The name under which the signer's spans are made.
pub const TRACER: &'static str = "signer";

/// The name of the signer's span.
pub const SIGN_SPAN: &'static str = "signing words";

/// The event recorded once the words are signed.
pub const SIGNED_EVENT: &'static str = "signed words";

/// The cause recorded where the signing primitive fails.
pub const SIGNING_CAUSE: &'static str = "OOM while signing message";

/// The cause recorded where the clock gives no timestamp.
pub const CLOCK_CAUSE: &'static str = "no timestamp for the signature";

/// The UTF-8 bytes of the words, one word after the other.
pub open spec fn words_bytes(words: Seq<Seq<char>>) -> Seq<u8>
    decreases words.len(),
{
    if words.len() == 0 {
        Seq::empty()
    } else {
        words_bytes(words.drop_last()) + encode_utf8(words.last())
    }
}

/// The byte sequence that is signed: the words in order, then the
/// timestamp as eight bytes, least significant first.
pub open spec fn canonical(words: Seq<Seq<char>>, timestamp: u64) -> Seq<u8> {
    words_bytes(words) + spec_u64_to_le_bytes(timestamp)
}

/// Assembles the byte sequence that is signed for `words` at `timestamp`.
pub fn canonical_message(words: &Vec<String>, timestamp: u64) -> (message: bytes::Bytes)
    ensures
        frozen(message) == canonical(texts(words@), timestamp),
{
    let mut buffer = buffer_new();
    let mut i: usize = 0;
    while i < words.len()
        invariant
            i <= words.len(),
            buffered(buffer) == words_bytes(texts(words@).take(i as int)),
        decreases words.len() - i,
    {
        buffer_extend(&mut buffer, words[i].as_str().as_bytes());
        proof {
            let next = texts(words@).take(i as int + 1);
            assert(next.drop_last() =~= texts(words@).take(i as int));
            assert(next.last() == words@[i as int]@);
        }
        i += 1;
    }
    assert(texts(words@).take(i as int) =~= texts(words@));
    let stamp_bytes = u64_to_le_bytes(timestamp);
    buffer_extend(&mut buffer, stamp_bytes.as_slice());
    buffer_freeze(buffer)
}

/// The signature that is handed out: the one that was made, where it
/// verifies; none, where it does not.
pub fn checked(signature: Vec<u8>, valid: bool) -> (r: Option<Vec<u8>>)
    ensures
        r == if valid {
            Some(signature)
        } else {
            None
        },
{
    if valid {
        Some(signature)
    } else {
        None
    }
}

/// What the signing service answers, as contracts see it.
pub open spec fn answer_view(r: Result<WordsResponse, Failure>) -> Result<WordsView, Failure> {
    match r {
        Ok(response) => Ok(response@),
        Err(failure) => Err(failure),
    }
}

/// The answer for `words` signed at `timestamp`, given what the signing
/// primitive returned: the words with timestamp and base64 signature, or
/// `Failure::SigningFailed` where it returned nothing.
pub fn signed_answer(words: Vec<String>, timestamp: u64, signature: Option<Vec<u8>>) -> (r: Result<
    WordsResponse,
    Failure,
>)
    ensures
        answer_view(r) == match signature {
            Some(bytes) => Ok::<WordsView, Failure>(
                WordsView {
                    words: texts(words@),
                    timestamp: Some(timestamp),
                    signature: Some(base64_text(bytes@)),
                },
            ),
            None => Err::<WordsView, Failure>(Failure::SigningFailed),
        },
        r matches Ok(response) ==> response.words == words,
{
    match signature {
        Some(bytes) => Ok(WordsResponse::signed(words, timestamp, base64_encode(&bytes))),
        None => Err(Failure::SigningFailed),
    }
}

/// The bytes that an optional signature holds.
pub open spec fn bytes_of(signature: Option<Vec<u8>>) -> Option<Seq<u8>> {
    match signature {
        Some(bytes) => Some(bytes@),
        None => None,
    }
}

/// What the signing service answers, given the clock's timestamp and what
/// came of the attempt to sign: the words with timestamp and base64
/// signature where both are there, `Failure::SigningFailed` where either
/// is missing.
pub open spec fn signed_result(
    words: Seq<Seq<char>>,
    reading: Option<u64>,
    signature: Option<Seq<u8>>,
) -> Result<WordsView, Failure> {
    match (reading, signature) {
        (Some(timestamp), Some(bytes)) => Ok(
            WordsView {
                words,
                timestamp: Some(timestamp),
                signature: Some(base64_text(bytes)),
            },
        ),
        _ => Err(Failure::SigningFailed),
    }
}

/// What the signer's span records before it is ended: that the words were
/// signed, or why they were not.
pub open spec fn signed_span(
    span: SpanView,
    reading: Option<u64>,
    signature: Option<Seq<u8>>,
    done: u64,
) -> SpanView {
    if reading is None {
        span.with_failure(CLOCK_CAUSE@, done)
    } else if signature is None {
        span.with_failure(SIGNING_CAUSE@, done)
    } else {
        span.with_event(SIGNED_EVENT@, done)
    }
}

/// What may come of an attempt to sign `words` at `reading`: nothing, or,
/// where there is a reading, a signature that verifies under `public_key`
/// over the words followed by the timestamp.
pub open spec fn attempted(
    public_key: Seq<u8>,
    words: Seq<Seq<char>>,
    reading: Option<u64>,
    signature: Option<Seq<u8>>,
) -> bool {
    signature matches Some(bytes) ==> reading is Some && pss_verifies(
        public_key,
        canonical(words, reading.unwrap()),
        bytes,
    )
}

/// What one call of the signing service comes to.
///
/// `before` and `after` are the tracer provider around the call, `stamp`
/// what was drawn for the span, `reading` the clock's timestamp for the
/// signature, `signature` what came of the attempt to sign and `done` the
/// time at which the work ended.
///
/// The span is started under the context read from `metadata`, and is
/// ended and handed over on every path. The call succeeds exactly where
/// there is a timestamp and a signature: the answer then holds the
/// request's words, the timestamp and the base64 form of the signature.
/// What the metadata holds changes the span, never the answer.
pub open spec fn sign_outcome(
    before: ProviderView,
    words: Seq<Seq<char>>,
    metadata: Map<Seq<char>, Seq<char>>,
    stamp: Stamp,
    reading: Option<u64>,
    signature: Option<Seq<u8>>,
    done: u64,
    result: Result<WordsView, Failure>,
    after: ProviderView,
) -> bool {
    let under = extracted(metadata, before.accepts(), stamp.trace_id);
    let span = started_span(SIGN_SPAN@, under, stamp.span_id, stamp.millis);
    &&& result == signed_result(words, reading, signature)
    &&& after == before.after_finish(signed_span(span, reading, signature, done), done)
}

/// The signing service.
pub struct MySignWords {
    rsa_key_pair: ring::signature::RsaKeyPair,
    public_key: Vec<u8>,
}

impl MySignWords {
    /// The key pair that the service signs with.
    pub closed spec fn key_pair(self) -> ring::signature::RsaKeyPair {
        self.rsa_key_pair
    }

    /// The public key that the service's signatures verify under, in DER
    /// form.
    pub closed spec fn verifying_key(self) -> Seq<u8> {
        self.public_key@
    }

    /// A signing service that signs with `rsa_key_pair`.
    pub fn new(rsa_key_pair: ring::signature::RsaKeyPair) -> (service: MySignWords)
        ensures
            service.key_pair() == rsa_key_pair,
    {
        let public_key = public_key_of(&rsa_key_pair);
        MySignWords { rsa_key_pair, public_key }
    }

    /// The public key that the service's signatures verify under, in DER
    /// form.
    pub fn public_key(&self) -> (r: Vec<u8>)
        ensures
            r@ == self.verifying_key(),
    {
        self.public_key.clone()
    }

    /// Whether `signature` verifies, under the service's public key, over
    /// `words` followed by `timestamp`.
    pub fn verify(&self, words: &Vec<String>, timestamp: u64, signature: &Vec<u8>) -> (valid: bool)
        ensures
            valid == pss_verifies(
                self.verifying_key(),
                canonical(texts(words@), timestamp),
                signature@,
            ),
    {
        let message = canonical_message(words, timestamp);
        match pss_verify(&self.public_key, &message, signature) {
            Ok(()) => true,
            Err(_) => false,
        }
    }

    /// A signing service for the RSA private key given in DER form, where
    /// the key is accepted; `ConfigurationError::KeyRejected` where it is
    /// not.
    pub fn from_der(der: &[u8]) -> (r: Result<MySignWords, ConfigurationError>)
        ensures
            match r {
                Ok(_) => key_accepted(der@),
                Err(error) => !key_accepted(der@) && error == ConfigurationError::KeyRejected,
            },
    {
        match key_from_der(der) {
            Ok(rsa_key_pair) => Ok(MySignWords::new(rsa_key_pair)),
            Err(_) => Err(ConfigurationError::KeyRejected),
        }
    }

    /// Signs `words` followed by the time `reading`, and checks the
    /// signature; `None` where there is no reading, the signing primitive
    /// fails, or the signature does not verify.
    fn attempt(&self, words: &Vec<String>, reading: Option<u64>) -> (signature: Option<Vec<u8>>)
        ensures
            attempted(self.verifying_key(), texts(words@), reading, bytes_of(signature)),
    {
        match reading {
            Some(timestamp) => {
                let message = canonical_message(words, timestamp);
                let len = modulus_len(&self.rsa_key_pair);
                let mut signature: Vec<u8> = vec![0u8; len];
                match pss_sign(&self.rsa_key_pair, &message, &mut signature) {
                    Ok(()) => {
                        let valid = match pss_verify(&self.public_key, &message, &signature) {
                            Ok(()) => true,
                            Err(_) => false,
                        };
                        checked(signature, valid)
                    },
                    Err(_) => None,
                }
            },
            None => None,
        }
    }

    /// Records on `span` what came of the attempt to sign, ends it, hands
    /// it over and gives the answer.
    ///
    /// The answer is `Ok` exactly where there is a timestamp and a
    /// signature; it then holds `words`, the timestamp and the base64 form
    /// of the signature.
    pub fn conclude(
        provider: &mut TracerProvider,
        span: Span,
        words: Vec<String>,
        reading: Option<u64>,
        signature: Option<Vec<u8>>,
        done: u64,
    ) -> (r: Result<WordsResponse, Failure>)
        requires
            span@.is_open(),
        ensures
            answer_view(r) == signed_result(texts(words@), reading, bytes_of(signature)),
            r is Ok <==> reading is Some && signature is Some,
            r matches Ok(response) ==> response.words == words,
            final(provider)@ == old(provider)@.after_finish(
                signed_span(span@, reading, bytes_of(signature), done),
                done,
            ),
    {
        let mut span = span;
        match reading {
            Some(timestamp) => {
                let answer = signed_answer(words, timestamp, signature);
                match &answer {
                    Ok(_) => {
                        span.add_event(SIGNED_EVENT, done);
                    },
                    Err(_) => {
                        span.record_failure(SIGNING_CAUSE, done);
                    },
                }
                provider.finish(span, done);
                answer
            },
            None => {
                span.record_failure(CLOCK_CAUSE, done);
                provider.finish(span, done);
                Err(Failure::SigningFailed)
            },
        }
    }

    /// Serves one request with the values drawn for it.
    ///
    /// The outcome is the one that `sign_outcome` describes for what came
    /// of the attempt to sign: nothing, or a signature that verifies under
    /// the service's public key.
    pub fn sign_words_at(
        &self,
        provider: &mut TracerProvider,
        request: SignRequest,
        metadata: &Carrier,
        stamp: &Stamp,
        reading: Option<u64>,
        done: u64,
    ) -> (r: Result<WordsResponse, Failure>)
        ensures
            exists|signature: Option<Seq<u8>>|
                {
                    &&& attempted(
                        self.verifying_key(),
                        texts(request.words@),
                        reading,
                        signature,
                    )
                    &&& #[trigger] sign_outcome(
                        old(provider)@,
                        texts(request.words@),
                        metadata@,
                        *stamp,
                        reading,
                        signature,
                        done,
                        answer_view(r),
                        final(provider)@,
                    )
                },
            reading is None ==> r is Err,
            r matches Ok(response) ==> response.words == request.words,
    {
        let cx = extract(metadata, provider.default_sampled(), stamp.trace_id);
        let span = Span::start(SIGN_SPAN, &cx, stamp.span_id, stamp.millis);
        let signature = self.attempt(&request.words, reading);
        let ghost made = bytes_of(signature);
        let r = Self::conclude(provider, span, request.words, reading, signature, done);
        assert(sign_outcome(
            old(provider)@,
            texts(request.words@),
            metadata@,
            *stamp,
            reading,
            made,
            done,
            answer_view(r),
            final(provider)@,
        ));
        r
    }

    /// Serves one request: reads the context from `metadata`, signs the
    /// request's words together with the current time, and answers with
    /// words, timestamp and signature, or with `Failure::SigningFailed`.
    /// Its span is ended and handed to `provider` on every path.
    ///
    /// The outcome is the one that `sign_outcome` describes, for the values
    /// that were drawn while the request was served and for what came of
    /// the attempt to sign.
    pub fn sign_words(
        &self,
        provider: &mut TracerProvider,
        request: SignRequest,
        metadata: &Carrier,
    ) -> (r: Result<WordsResponse, Failure>)
        ensures
            exists|stamp: Stamp, reading: Option<u64>, signature: Option<Seq<u8>>, done: u64|
                {
                    &&& attempted(
                        self.verifying_key(),
                        texts(request.words@),
                        reading,
                        signature,
                    )
                    &&& #[trigger] sign_outcome(
                        old(provider)@,
                        texts(request.words@),
                        metadata@,
                        stamp,
                        reading,
                        signature,
                        done,
                        answer_view(r),
                        final(provider)@,
                    )
                },
            r matches Ok(response) ==> response.words == request.words,
    {
        let stamp = Stamp::draw();
        let cx = extract(metadata, provider.default_sampled(), stamp.trace_id);
        let span = Span::start(SIGN_SPAN, &cx, stamp.span_id, stamp.millis);
        let reading = now_millis();
        let signature = self.attempt(&request.words, reading);
        let ghost made = bytes_of(signature);
        let done = now_millis().unwrap_or(stamp.millis);
        let r = Self::conclude(provider, span, request.words, reading, signature, done);
        assert(sign_outcome(
            old(provider)@,
            texts(request.words@),
            metadata@,
            stamp,
            reading,
            made,
            done,
            answer_view(r),
            final(provider)@,
        ));
        r
    }
}

} // verus!
