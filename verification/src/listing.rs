//! The answer to a list request: the names in the storage root, each as a
//! frame of its UTF-8 bytes, one after the other in a single payload.

use crate::error::VeriflowError;
use crate::frame::{
    after_frame, decode_frame, encode_frame, first_payload, frame, has_frame,
    lemma_frame_round_trip, MAX_PAYLOAD,
};
use vstd::prelude::*;
use vstd::string::StringExecFns;
use vstd::utf8::{decode_utf8, encode_utf8, valid_utf8};

verus! {

/// `String::from_utf8`: the text whose UTF-8 bytes are `bytes`, or `None`
/// where `bytes` is not UTF-8.
#[verifier::external_body]
fn text_from_utf8(bytes: Vec<u8>) -> (text: Option<String>)
    ensures
        match text {
            Some(found) => encode_utf8(found@) == bytes@,
            None => !valid_utf8(bytes@),
        },
{
    String::from_utf8(bytes).ok()
}

/// The texts of a list of strings.
pub open spec fn texts(names: Seq<String>) -> Seq<Seq<char>> {
    names.map_values(|name: String| name@)
}

/// Whether every name fits a frame.
pub open spec fn all_fit(names: Seq<Seq<char>>) -> bool {
    forall|i: int| 0 <= i < names.len() ==> (#[trigger] encode_utf8(names[i])).len() <= MAX_PAYLOAD
}

/// The payload that lists `names`.
pub open spec fn listing(names: Seq<Seq<char>>) -> Seq<u8>
    decreases names.len(),
{
    if names.len() == 0 {
        Seq::<u8>::empty()
    } else {
        frame(encode_utf8(names.first())) + listing(names.drop_first())
    }
}

/// The names that a payload lists: the payload must be frames and nothing
/// else, and each frame must carry UTF-8.
pub open spec fn listed(payload: Seq<u8>) -> Option<Seq<Seq<char>>>
    decreases payload.len(),
{
    if payload.len() == 0 {
        Some(Seq::<Seq<char>>::empty())
    } else if !has_frame(payload) || !valid_utf8(first_payload(payload)) {
        None
    } else {
        match listed(after_frame(payload)) {
            Some(rest) => Some(seq![decode_utf8(first_payload(payload))] + rest),
            None => None,
        }
    }
}

/// Listing one more name appends its frame.
pub proof fn lemma_listing_push(names: Seq<Seq<char>>, name: Seq<char>)
    ensures
        listing(names.push(name)) == listing(names) + frame(encode_utf8(name)),
    decreases names.len(),
{
    let more = names.push(name);
    let last = frame(encode_utf8(name));
    if names.len() == 0 {
        assert(more.first() == name);
        assert(more.drop_first() =~= Seq::<Seq<char>>::empty());
        assert(listing(more.drop_first()) =~= Seq::<u8>::empty());
        assert(listing(more) == last + listing(more.drop_first()));
        assert(listing(names) =~= Seq::<u8>::empty());
        assert(last + Seq::<u8>::empty() =~= Seq::<u8>::empty() + last);
    } else {
        let head = frame(encode_utf8(names.first()));
        assert(more.first() == names.first());
        assert(more.drop_first() =~= names.drop_first().push(name));
        lemma_listing_push(names.drop_first(), name);
        assert(listing(more) == head + listing(more.drop_first()));
        assert(listing(names) == head + listing(names.drop_first()));
        assert(head + (listing(names.drop_first()) + last) =~= (head + listing(
            names.drop_first(),
        )) + last);
    }
}

/// Writing a list of names and reading the payload back gives the names
/// that were written, in their order.
pub proof fn lemma_listing_round_trip(names: Seq<Seq<char>>)
    requires
        all_fit(names),
    ensures
        listed(listing(names)) == Some(names),
    decreases names.len(),
{
    if names.len() > 0 {
        let first = encode_utf8(names.first());
        let rest = names.drop_first();
        assert(first.len() <= MAX_PAYLOAD);
        assert(all_fit(rest)) by {
            assert forall|i: int| 0 <= i < rest.len() implies (#[trigger] encode_utf8(
                rest[i],
            )).len() <= MAX_PAYLOAD by {
                assert(rest[i] == names[i + 1]);
            }
        }
        lemma_listing_round_trip(rest);
        lemma_frame_round_trip(first, listing(rest));
        vstd::utf8::encode_utf8_valid_utf8(names.first());
        vstd::utf8::encode_utf8_decode_utf8(names.first());
        assert(listing(names).len() > 0);
        assert(seq![names.first()] + rest =~= names);
    }
}

/// Writes the payload that lists `names`.
///
/// Fails where a name is too long for a frame; no such name can be the name
/// of a file.
pub fn encode_names(names: &Vec<String>) -> (result: Result<Vec<u8>, VeriflowError>)
    ensures
        all_fit(texts(names@)) ==> result is Ok && result->Ok_0@ == listing(texts(names@)),
        !all_fit(texts(names@)) ==> result is Err && result->Err_0 == VeriflowError::Protocol,
{
    let mut payload: Vec<u8> = Vec::new();
    let mut i: usize = 0;
    while i < names.len()
        invariant
            i <= names.len(),
            all_fit(texts(names@).take(i as int)),
            payload@ == listing(texts(names@).take(i as int)),
        decreases names.len() - i,
    {
        let ghost done = texts(names@).take(i as int);
        let ghost name = texts(names@)[i as int];
        assert(texts(names@).take(i + 1) =~= done.push(name));
        match encode_frame(names[i].as_str().as_bytes()) {
            Ok(mut bytes) => {
                payload.append(&mut bytes);
                proof {
                    lemma_listing_push(done, name);
                    assert forall|j: int| 0 <= j < done.push(name).len() implies (
                    #[trigger] encode_utf8(done.push(name)[j])).len() <= MAX_PAYLOAD by {
                        if j < done.len() {
                            assert(done.push(name)[j] == done[j]);
                        }
                    }
                }
            },
            Err(e) => {
                assert(encode_utf8(texts(names@)[i as int]).len() > MAX_PAYLOAD);
                return Err(e);
            },
        }
        i = i + 1;
    }
    assert(texts(names@).take(i as int) =~= texts(names@));
    Ok(payload)
}

/// Reads the names that a payload lists.
///
/// Fails with a serialisation error where the payload is anything but whole
/// frames of UTF-8.
pub fn decode_names(payload: &[u8]) -> (result: Result<Vec<String>, VeriflowError>)
    ensures
        match listed(payload@) {
            Some(names) => result is Ok && texts(result->Ok_0@) == names,
            None => result is Err && result->Err_0 is JSON,
        },
{
    let mut names: Vec<String> = Vec::new();
    let mut at: usize = 0;
    assert(payload@.skip(0) =~= payload@);
    assert(texts(names@) =~= Seq::<Seq<char>>::empty());
    while at < payload.len()
        invariant
            at <= payload.len(),
            match listed(payload@.skip(at as int)) {
                Some(rest) => listed(payload@) == Some(texts(names@) + rest),
                None => listed(payload@) is None,
            },
        decreases payload.len() - at,
    {
        let rest = vstd::slice::slice_subrange(payload, at, payload.len());
        assert(rest@ =~= payload@.skip(at as int));
        match decode_frame(rest) {
            Some((bytes, taken)) => {
                assert(after_frame(rest@) =~= payload@.skip(at + taken));
                match text_from_utf8(bytes) {
                    Some(name) => {
                        proof {
                            vstd::utf8::encode_utf8_valid_utf8(name@);
                            vstd::utf8::encode_utf8_decode_utf8(name@);
                        }
                        let ghost before = texts(names@);
                        names.push(name);
                        assert(texts(names@) =~= before.push(name@));
                        assert forall|more: Seq<Seq<char>>|
                            before + (seq![name@] + more) == #[trigger] (texts(names@) + more) by {
                            assert(before + (seq![name@] + more) =~= texts(names@) + more);
                        }
                    },
                    None => {
                        return Err(VeriflowError::JSON(String::from_str("a listed name is not UTF-8")));
                    },
                }
                at = at + taken;
            },
            None => {
                return Err(VeriflowError::JSON(String::from_str("a listed name is cut short")));
            },
        }
    }
    assert(payload@.skip(at as int).len() == 0);
    assert(texts(names@) + Seq::<Seq<char>>::empty() =~= texts(names@));
    Ok(names)
}

} // verus!
