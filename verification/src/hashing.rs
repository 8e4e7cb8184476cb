//! Content hashing: SHA-256 over a body that arrives in chunks, written as
//! lowercase hexadecimal.

use crate::stream::CHUNK_SIZE;
use crate::text::{hex_digit, hex_digit_char, push_char};
use vstd::prelude::*;

verus! {

/// The running state of a SHA-256 computation, as the `sha2` crate keeps it.
#[verifier::external_body]
pub struct Sha256State {
    inner: sha2::Sha256,
}

/// The bytes that a SHA-256 state has taken in so far, in the order in which
/// they came.
pub uninterp spec fn sha256_absorbed(state: Sha256State) -> Seq<u8>;

/// The SHA-256 digest of a message.
pub uninterp spec fn sha256(message: Seq<u8>) -> Seq<u8>;

/// `sha2::Digest::new` for `Sha256`: a state that has taken in nothing.
#[verifier::external_body]
fn sha256_start() -> (state: Sha256State)
    ensures
        sha256_absorbed(state) == Seq::<u8>::empty(),
{
    Sha256State { inner: <sha2::Sha256 as sha2::Digest>::new() }
}

/// `sha2::Digest::update`: the state takes in `chunk` after what it already
/// holds.
#[verifier::external_body]
fn sha256_absorb(state: &mut Sha256State, chunk: &[u8])
    ensures
        sha256_absorbed(*final(state)) == sha256_absorbed(*old(state)) + chunk@,
{
    sha2::Digest::update(&mut state.inner, chunk)
}

/// `sha2::Digest::finalize`: the digest of everything the state took in,
/// which for SHA-256 is 32 bytes long.
#[verifier::external_body]
fn sha256_finish(state: Sha256State) -> (digest: Vec<u8>)
    ensures
        digest@ == sha256(sha256_absorbed(state)),
        digest@.len() == 32,
{
    sha2::Digest::finalize(state.inner).to_vec()
}

/// The lowercase hexadecimal text of `bytes`: two digits for each byte, the
/// high half first.
pub open spec fn hex_lower(bytes: Seq<u8>) -> Seq<char> {
    Seq::new(
        2 * bytes.len(),
        |i: int|
            if i % 2 == 0 {
                hex_digit(bytes[i / 2] as int / 16)
            } else {
                hex_digit(bytes[i / 2] as int % 16)
            },
    )
}

/// Writes bytes as lowercase hexadecimal text.
pub fn to_hex(bytes: &[u8]) -> (text: String)
    ensures
        text@ == hex_lower(bytes@),
{
    let mut text = String::new();
    let mut i: usize = 0;
    while i < bytes.len()
        invariant
            i <= bytes.len(),
            text@ == hex_lower(bytes@.take(i as int)),
        decreases bytes.len() - i,
    {
        let byte = bytes[i];
        push_char(&mut text, hex_digit_char(byte / 16));
        push_char(&mut text, hex_digit_char(byte % 16));
        assert(text@ =~= hex_lower(bytes@.take(i + 1)));
        i = i + 1;
    }
    assert(bytes@.take(i as int) =~= bytes@);
    text
}

/// A SHA-256 computation over content that is fed in pieces.
pub struct ContentHasher {
    state: Sha256State,
}

impl View for ContentHasher {
    type V = Seq<u8>;

    /// The content fed so far.
    closed spec fn view(&self) -> Seq<u8> {
        sha256_absorbed(self.state)
    }
}

impl ContentHasher {
    /// A hasher that has been fed nothing.
    pub fn new() -> (hasher: ContentHasher)
        ensures
            hasher@ == Seq::<u8>::empty(),
    {
        ContentHasher { state: sha256_start() }
    }

    /// Feeds the next piece of the content.
    pub fn update(&mut self, chunk: &[u8])
        ensures
            final(self)@ == old(self)@ + chunk@,
    {
        sha256_absorb(&mut self.state, chunk);
    }

    /// The digest of the content fed, as 64 lowercase hexadecimal digits.
    /// It depends on the content alone, not on how it was cut into pieces.
    pub fn finalize(self) -> (hash: String)
        ensures
            hash@ == hex_lower(sha256(self@)),
            hash@.len() == 64,
    {
        let digest = sha256_finish(self.state);
        to_hex(digest.as_slice())
    }
}

/// The digest of `content` as lowercase hexadecimal text, computed one chunk
/// at a time.
pub fn hash_bytes(content: &[u8]) -> (hash: String)
    ensures
        hash@ == hex_lower(sha256(content@)),
        hash@.len() == 64,
{
    let mut hasher = ContentHasher::new();
    let mut done: usize = 0;
    while done < content.len()
        invariant
            done <= content.len(),
            hasher@ == content@.take(done as int),
        decreases content.len() - done,
    {
        let left = content.len() - done;
        let step: usize = if left < CHUNK_SIZE {
            left
        } else {
            CHUNK_SIZE
        };
        hasher.update(vstd::slice::slice_subrange(content, done, done + step));
        assert(hasher@ =~= content@.take(done + step));
        done = done + step;
    }
    assert(content@.take(done as int) =~= content@);
    hasher.finalize()
}

} // verus!
