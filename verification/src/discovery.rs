//! The discovery document that advertises the service: a small JSON object
//! carrying the base64 of the certificate's content hash and the port the
//! transport is bound on. The document is framed here byte by byte; only
//! the base64 encoding itself is done by an outside crate.

use vstd::prelude::*;

use base64::Engine;

verus! {

/// The well-known port the discovery document is served on, over plain
/// HTTP with cross-origin access restricted to GET.
pub fn discovery_port() -> (p: u16)
    ensures
        p == 8080,
{
    8080
}

/// The base64 text (standard alphabet, padded) of a byte sequence, as
/// ASCII bytes.
pub uninterp spec fn base64_of(b: Seq<u8>) -> Seq<u8>;

/// Relies on base64's `Engine::encode` with the `STANDARD` engine: the
/// output depends on the input bytes alone, and the padded encoding is four
/// bytes for every started group of three input bytes. `encode` panics only
/// when that output length overflows, which the bound on the input rules
/// out.
#[verifier::external_body]
fn base64_encode(b: &Vec<u8>) -> (r: Vec<u8>)
    requires
        b@.len() <= 0xffff_ffff,
    ensures
        r@ == base64_of(b@),
        r@.len() == ((b@.len() + 2) / 3) * 4,
{
    base64::prelude::BASE64_STANDARD.encode(b.as_slice()).into_bytes()
}

/// The decimal digits of `n` as ASCII bytes, most significant first, with
/// no sign and no leading zero except for `n == 0` itself.
pub open spec fn decimal_bytes(n: nat) -> Seq<u8>
    decreases n,
{
    if n < 10 {
        seq![(48 + n) as u8]
    } else {
        decimal_bytes(n / 10) + seq![(48 + n % 10) as u8]
    }
}

/// Appends the decimal digits of `n` to `v`.
fn push_decimal(v: &mut Vec<u8>, n: u16)
    ensures
        final(v)@ == old(v)@ + decimal_bytes(n as nat),
    decreases n,
{
    if n < 10 {
        v.push(48 + n as u8);
        assert(v@ =~= old(v)@ + decimal_bytes(n as nat));
    } else {
        push_decimal(v, n / 10);
        v.push(48 + (n % 10) as u8);
        assert(v@ =~= old(v)@ + decimal_bytes(n as nat));
    }
}

/// The bytes of the ASCII text `{"cert_digest_base64":"`.
pub open spec fn config_prefix() -> Seq<u8> {
    seq![
        123u8, 34, 99, 101, 114, 116, 95, 100, 105, 103, 101, 115, 116, 95, 98, 97, 115, 101, 54,
        52, 34, 58, 34,
    ]
}

/// The bytes of the ASCII text `","default_port":`.
pub open spec fn config_middle() -> Seq<u8> {
    seq![34u8, 44, 34, 100, 101, 102, 97, 117, 108, 116, 95, 112, 111, 114, 116, 34, 58]
}

/// The discovery document as bytes: a JSON object whose
/// `cert_digest_base64` member holds the base64 text `digest64` and whose
/// `default_port` member holds the decimal of `port`.
pub open spec fn config_document_bytes(digest64: Seq<u8>, port: u16) -> Seq<u8> {
    config_prefix() + digest64 + config_middle() + decimal_bytes(port as nat) + seq![125u8]
}

/// Builds the discovery document for a certificate's content hash and the
/// transport's bound port. The digest member is never empty when the hash
/// itself is not.
pub fn config_document(cert_digest: &Vec<u8>, port: u16) -> (r: Vec<u8>)
    requires
        cert_digest@.len() <= 0xffff_ffff,
    ensures
        r@ == config_document_bytes(base64_of(cert_digest@), port),
        cert_digest@.len() > 0 ==> base64_of(cert_digest@).len() > 0,
{
    let mut digest64 = base64_encode(cert_digest);
    let ghost d: Seq<u8> = digest64@;
    let mut r: Vec<u8> = Vec::new();
    r.push(123);
    r.push(34);
    r.push(99);
    r.push(101);
    r.push(114);
    r.push(116);
    r.push(95);
    r.push(100);
    r.push(105);
    r.push(103);
    r.push(101);
    r.push(115);
    r.push(116);
    r.push(95);
    r.push(98);
    r.push(97);
    r.push(115);
    r.push(101);
    r.push(54);
    r.push(52);
    r.push(34);
    r.push(58);
    r.push(34);
    assert(r@ =~= config_prefix());
    r.append(&mut digest64);
    assert(r@ =~= config_prefix() + d);
    r.push(34);
    r.push(44);
    r.push(34);
    r.push(100);
    r.push(101);
    r.push(102);
    r.push(97);
    r.push(117);
    r.push(108);
    r.push(116);
    r.push(95);
    r.push(112);
    r.push(111);
    r.push(114);
    r.push(116);
    r.push(34);
    r.push(58);
    assert(r@ =~= config_prefix() + d + config_middle());
    push_decimal(&mut r, port);
    r.push(125);
    assert(r@ =~= config_document_bytes(d, port));
    r
}

} // verus!
