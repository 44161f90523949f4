//! The bytes of a thumbnail: fetched when they are first asked for, and kept from then on.
use crate::coersion::Step;
use crate::errors::Error;
use crate::network::endpoints::resolved;
use crate::network::http::{plain_get, Request};
use crate::once::{cell_get, cell_set, held};
use crate::{Supernova, SupernovaView};
use once_cell::sync::OnceCell;
use vstd::prelude::*;

verus! {

/// What asking for the bytes of a thumbnail comes to: nothing where there is no
/// thumbnail; the bytes, where they are kept already; and else the request for them,
/// which is made in nobody's name.
pub open spec fn thumb_answer(
    thumb: Option<String>,
    kept: Seq<Seq<u8>>,
    client: SupernovaView,
    answer: Option<Step<Vec<u8>>>,
) -> bool {
    match thumb {
        None => answer is None,
        Some(url) => if kept.len() > 0 {
            answer matches Some(Step::Ready(bytes)) && bytes@ == kept[0]
        } else {
            answer matches Some(step) && step.asks(plain_get(resolved(client.upstream, url@)))
        },
    }
}

/// What is kept after the answer to a request for the bytes came: the bytes that came,
/// unless some were kept already or none came.
pub open spec fn thumb_kept(before: Seq<Seq<u8>>, response: Result<Vec<u8>, Error>) -> Seq<
    Seq<u8>,
> {
    match response {
        Ok(bytes) => if before.len() == 0 {
            seq![bytes@]
        } else {
            before
        },
        Err(_) => before,
    }
}

/// A copy of the bytes.
pub fn copy_bytes(bytes: &Vec<u8>) -> (copy: Vec<u8>)
    ensures
        copy@ == bytes@,
{
    let mut copy: Vec<u8> = Vec::new();
    let mut at: usize = 0;
    while at < bytes.len()
        invariant
            at <= bytes.len(),
            copy@ == bytes@.take(at as int),
        decreases bytes.len() - at,
    {
        copy.push(bytes[at]);
        at += 1;
    }
    assert(bytes@.take(at as int) =~= bytes@);
    copy
}

/// Asks for the bytes of the thumbnail found at `thumb`, of which `cache` keeps a copy
/// once they were fetched.
pub fn thumb_bytes(thumb: &Option<String>, cache: &OnceCell<Vec<u8>>, client: &Supernova) -> (answer:
    Option<Step<Vec<u8>>>)
    ensures
        thumb_answer(*thumb, held(*cache), client@, answer),
{
    match thumb {
        Some(thumb_url) => Some(
            match cell_get(cache) {
                Some(bytes) => Step::Ready(copy_bytes(bytes)),
                None => Step::Fetch(client.thumb_request(thumb_url.as_str())),
            },
        ),
        None => None,
    }
}

/// Takes the answer to a request for the bytes of a thumbnail: keeps a copy of the
/// bytes in `cache`, if it keeps none yet, and hands the answer on.
pub fn put_thumb_bytes(cache: &mut OnceCell<Vec<u8>>, response: Result<Vec<u8>, Error>) -> (outcome:
    Result<Vec<u8>, Error>)
    ensures
        held(*final(cache)) == thumb_kept(held(*old(cache)), response),
        outcome == response,
{
    match &response {
        Ok(bytes) => {
            let _ = cell_set(cache, copy_bytes(bytes));
        },
        Err(_) => {},
    }
    response
}

} // verus!
