//! Assembling the response of a batch: one slot per member, in the members'
//! order, whatever each member's fate.

use vstd::prelude::*;
use crate::json::{json_text_of_str, json_text_valid, parse_json};
use crate::response::{error_document, error_document_of, null_text, RpcResponse};

verus! {

/// The slot of one member: its response body when that is JSON, `null` when
/// it is not, and the error document of its message when it failed.
pub open spec fn batch_slot(outcome: Result<Vec<u8>, String>) -> Seq<u8> {
    match outcome {
        Ok(body) => if json_text_valid(body@) {
            body@
        } else {
            null_text()
        },
        Err(msg) => error_document_of(json_text_of_str(msg@)),
    }
}

/// The slots of all members, index for index.
pub open spec fn batch_slots_of(outcomes: Seq<Result<Vec<u8>, String>>) -> Seq<Seq<u8>> {
    outcomes.map_values(|o: Result<Vec<u8>, String>| batch_slot(o))
}

/// The slots written one after another with commas between them.
pub open spec fn joined(slots: Seq<Seq<u8>>) -> Seq<u8>
    decreases slots.len(),
{
    if slots.len() == 0 {
        Seq::empty()
    } else if slots.len() == 1 {
        slots[0]
    } else {
        joined(slots.drop_last()) + seq![44u8] + slots.last()
    }
}

/// The JSON array of the slots.
pub open spec fn array_text(slots: Seq<Seq<u8>>) -> Seq<u8> {
    seq![91u8] + joined(slots) + seq![93u8]
}

pub open spec fn views_of_bytes(v: Seq<Vec<u8>>) -> Seq<Seq<u8>> {
    v.map_values(|b: Vec<u8>| b@)
}

/// The slot of one member.
pub fn batch_slot_of(outcome: &Result<Vec<u8>, String>) -> (r: Vec<u8>)
    ensures
        r@ == batch_slot(*outcome),
{
    match outcome {
        Ok(body) => {
            if parse_json(body.as_slice()).is_ok() {
                body.clone()
            } else {
                let r = vec![110u8, 117u8, 108u8, 108u8];
                assert(r@ =~= null_text());
                r
            }
        },
        Err(msg) => error_document(msg.as_str()),
    }
}

/// The slots of all members: as many as there are members, slot `i` made
/// from member `i` alone.
pub fn batch_slots(outcomes: &Vec<Result<Vec<u8>, String>>) -> (r: Vec<Vec<u8>>)
    ensures
        views_of_bytes(r@) == batch_slots_of(outcomes@),
        r@.len() == outcomes@.len(),
{
    let mut out: Vec<Vec<u8>> = Vec::new();
    let mut i: usize = 0;
    while i < outcomes.len()
        invariant
            i <= outcomes@.len(),
            out@.len() == i,
            forall|j: int| 0 <= j < i ==> #[trigger] out@[j]@ == batch_slot(outcomes@[j]),
        decreases outcomes@.len() - i,
    {
        let slot = batch_slot_of(&outcomes[i]);
        out.push(slot);
        i = i + 1;
    }
    assert(views_of_bytes(out@) =~= batch_slots_of(outcomes@));
    out
}

/// The JSON array text of the slots.
pub fn array_of_slots(slots: &Vec<Vec<u8>>) -> (r: Vec<u8>)
    ensures
        r@ == array_text(views_of_bytes(slots@)),
{
    let mut body: Vec<u8> = Vec::new();
    let mut i: usize = 0;
    while i < slots.len()
        invariant
            i <= slots@.len(),
            body@ == joined(views_of_bytes(slots@).take(i as int)),
        decreases slots@.len() - i,
    {
        let ghost prev = body@;
        if i > 0 {
            body.push(44u8);
        }
        let mut piece = slots[i].clone();
        body.append(&mut piece);
        proof {
            let all = views_of_bytes(slots@);
            let t = all.take(i as int + 1);
            assert(t.drop_last() =~= all.take(i as int));
            assert(t.last() == slots@[i as int]@);
            if i == 0 {
                assert(body@ =~= t[0]);
            } else {
                assert(body@ =~= joined(t.drop_last()) + seq![44u8] + t.last());
            }
        }
        i = i + 1;
    }
    assert(views_of_bytes(slots@).take(slots@.len() as int) =~= views_of_bytes(slots@));
    let mut out: Vec<u8> = vec![91u8];
    out.append(&mut body);
    out.push(93u8);
    assert(out@ =~= array_text(views_of_bytes(slots@)));
    out
}

/// The response of a batch: always status 200, the body the array of the
/// members' slots in the members' order.
pub fn batch_response(outcomes: &Vec<Result<Vec<u8>, String>>) -> (r: RpcResponse)
    ensures
        r.status == 200,
        r.headers@.len() == 0,
        r.body@ == array_text(batch_slots_of(outcomes@)),
{
    let slots = batch_slots(outcomes);
    let body = array_of_slots(&slots);
    RpcResponse { status: 200, headers: Vec::new(), body }
}

/// A batch of N members answers with N slots, slot `i` belonging to member `i`.
pub proof fn lemma_batch_shape(outcomes: Seq<Result<Vec<u8>, String>>)
    ensures
        batch_slots_of(outcomes).len() == outcomes.len(),
        forall|i: int| 0 <= i < outcomes.len() ==> #[trigger] batch_slots_of(outcomes)[i] == batch_slot(outcomes[i]),
{
}

/// What one member yields does not depend on the other members: two batches
/// that agree on member `i` agree on slot `i`, whichever members failed.
pub proof fn lemma_batch_isolation(a: Seq<Result<Vec<u8>, String>>, b: Seq<Result<Vec<u8>, String>>, i: int)
    requires
        0 <= i < a.len(),
        0 <= i < b.len(),
        a[i] == b[i],
    ensures
        batch_slots_of(a)[i] == batch_slots_of(b)[i],
{
}

} // verus!
