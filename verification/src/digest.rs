//! The MD5 digest, as the `md5` crate computes it.
//!
//! The digest of a byte string is named by the uninterpreted function
//! [`md5_of`]; everything this library claims about fingerprints is
//! relative to that name. The `md5` crate's streaming context is wrapped
//! in [`DigestStream`], whose view is the byte string consumed so far.

use vstd::prelude::*;

verus! {

/// The 16-byte MD5 digest of a byte string. The value is a function of
/// the bytes alone; this library states fingerprints in terms of it and
/// never unfolds it.
pub uninterp spec fn md5_of(bytes: Seq<u8>) -> Seq<u8>;

/// The byte string consumed so far by an `md5::Context`.
pub uninterp spec fn md5_consumed(ctx: md5::Context) -> Seq<u8>;

#[verifier::external_type_specification]
#[verifier::external_body]
pub struct ExMd5Context(md5::Context);

/// Relies on md5::Context::new: a fresh context has consumed nothing.
#[verifier::external_body]
fn md5_context_new() -> (c: md5::Context)
    ensures
        md5_consumed(c) == Seq::<u8>::empty(),
{
    md5::Context::new()
}

/// Relies on md5::Context::consume: the context accumulates exactly the
/// bytes handed to it, in order.
#[verifier::external_body]
fn md5_context_consume(c: &mut md5::Context, data: &[u8])
    ensures
        md5_consumed(*final(c)) == md5_consumed(*old(c)) + data@,
{
    c.consume(data);
}

/// Relies on md5::Context::finalize: the result is the 16-byte MD5
/// digest of everything the context consumed, and md5::compute is
/// exactly new-consume-finalize, so the digest depends on the consumed
/// bytes alone.
#[verifier::external_body]
fn md5_context_finalize(c: md5::Context) -> (d: Vec<u8>)
    ensures
        d@ == md5_of(md5_consumed(c)),
        d@.len() == 16,
{
    c.finalize().0.to_vec()
}

/// An MD5 digest computed over bytes handed in chunk by chunk, so that
/// a large input never has to be resident in memory at once.
pub struct DigestStream {
    ctx: md5::Context,
}

impl DigestStream {
    /// The bytes consumed so far.
    pub closed spec fn consumed(&self) -> Seq<u8> {
        md5_consumed(self.ctx)
    }

    /// A stream that has consumed nothing.
    pub fn new() -> (r: Self)
        ensures
            r.consumed() == Seq::<u8>::empty(),
    {
        DigestStream { ctx: md5_context_new() }
    }

    /// Consumes one more chunk.
    pub fn update(&mut self, chunk: &[u8])
        ensures
            final(self).consumed() == old(self).consumed() + chunk@,
    {
        md5_context_consume(&mut self.ctx, chunk);
    }

    /// The digest of everything consumed.
    pub fn finish(self) -> (d: Vec<u8>)
        ensures
            d@ == md5_of(self.consumed()),
            d@.len() == 16,
    {
        md5_context_finalize(self.ctx)
    }
}

/// The MD5 digest of `bytes`, taken in one piece.
pub fn md5_digest(bytes: &[u8]) -> (d: Vec<u8>)
    ensures
        d@ == md5_of(bytes@),
        d@.len() == 16,
{
    let mut stream = DigestStream::new();
    stream.update(bytes);
    proof {
        assert(stream.consumed() =~= bytes@);
    }
    stream.finish()
}

} // verus!
