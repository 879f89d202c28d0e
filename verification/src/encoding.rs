//! The attribute encoder and the equivalence resolver.
//!
//! Raw attribute bytes are hashed to field elements, and every attribute
//! index of a credential is classified exactly once: revealed, hidden under a
//! blinding fresh to the proof, or hidden under a blinding shared by its
//! equivalence class.  Membership in an equivalence class overrides whatever
//! else the request asked for that attribute, because the shared blinding is
//! what carries the cross-credential equality.

use vstd::prelude::*;

use crate::primitives::{
    hash_message, make_hidden_message, make_revealed_message, make_shared_message, message_of,
    pm_hidden_of, pm_revealed_of, pm_shared_of, pm_value_of,
};
use bbs::messages::ProofMessage;
use bbs::ProofNonce;

verus! {

/// How one attribute of one credential enters the proof.
#[derive(Clone, Copy, PartialEq, Eq, Structural)]
pub enum MessageClass {
    /// Disclosed to the verifier.
    Revealed,
    /// Hidden under a blinding fresh to this credential's proof.
    Hidden,
    /// Hidden under the blinding shared by the equivalence class with this
    /// index.
    Shared(usize),
}

/// The equivalence class that covers `(cred, attr)`: the index of the last
/// group listing that pair, if any.  Later groups take precedence, so a pair
/// listed twice belongs to the group listed last.
pub open spec fn spec_class_of(
    equivs: Seq<Vec<(usize, usize)>>,
    cred: usize,
    attr: usize,
) -> Option<usize>
    decreases equivs.len(),
{
    if equivs.len() == 0 {
        Option::None
    } else if equivs.last()@.contains((cred, attr)) {
        Option::Some((equivs.len() - 1) as usize)
    } else {
        spec_class_of(equivs.drop_last(), cred, attr)
    }
}

/// An equivalence class index is always a position in the group list.
pub proof fn lemma_class_of_bound(equivs: Seq<Vec<(usize, usize)>>, cred: usize, attr: usize)
    ensures
        spec_class_of(equivs, cred, attr) matches Some(k) ==> (k as int) < equivs.len(),
    decreases equivs.len(),
{
    if equivs.len() > 0 {
        lemma_class_of_bound(equivs.drop_last(), cred, attr);
    }
}

/// The classification of attribute `attr` of credential `cred`: an
/// attribute covered by an equivalence class is hidden under the class's
/// shared blinding, whatever its requested classification; of the uncovered
/// indices, those in the revealed set are disclosed and the rest are hidden
/// under a fresh blinding.
pub open spec fn spec_class(
    revealed: Seq<usize>,
    equivs: Seq<Vec<(usize, usize)>>,
    cred: usize,
    attr: usize,
) -> MessageClass {
    match spec_class_of(equivs, cred, attr) {
        Option::Some(k) => MessageClass::Shared(k),
        Option::None => if revealed.contains(attr) {
            MessageClass::Revealed
        } else {
            MessageClass::Hidden
        },
    }
}

/// Equivalence overrides every other classification: an attribute that an
/// equivalence class covers is encoded under the class's shared blinding —
/// never as a revealed message and never under an independent blinding —
/// whether or not the revealed set lists it.
pub proof fn lemma_equivalence_overrides(
    revealed: Seq<usize>,
    equivs: Seq<Vec<(usize, usize)>>,
    cred: usize,
    attr: usize,
    k: usize,
)
    requires
        spec_class_of(equivs, cred, attr) == Option::<usize>::Some(k),
    ensures
        spec_class(revealed, equivs, cred, attr) == MessageClass::Shared(k),
{
}

fn pair_group_contains(group: &Vec<(usize, usize)>, cred: usize, attr: usize) -> (b: bool)
    ensures
        b == group@.contains((cred, attr)),
{
    let n = group.len();
    let mut i: usize = 0;
    while i < n
        invariant
            n == group@.len(),
            i <= n,
            forall|j: int| 0 <= j < i ==> group@[j] != (cred, attr),
        decreases n - i,
    {
        let p = group[i];
        if p.0 == cred && p.1 == attr {
            assert(group@[i as int] == (cred, attr));
            return true;
        }
        i = i + 1;
    }
    assert(!group@.contains((cred, attr)));
    false
}

fn contains_index(indices: &Vec<usize>, x: usize) -> (b: bool)
    ensures
        b == indices@.contains(x),
{
    let n = indices.len();
    let mut i: usize = 0;
    while i < n
        invariant
            n == indices@.len(),
            i <= n,
            forall|j: int| 0 <= j < i ==> indices@[j] != x,
        decreases n - i,
    {
        if indices[i] == x {
            return true;
        }
        i = i + 1;
    }
    assert(!indices@.contains(x));
    false
}

/// Looks up the equivalence class covering `(cred, attr)`.
pub fn class_of(equivs: &Vec<Vec<(usize, usize)>>, cred: usize, attr: usize) -> (r: Option<usize>)
    ensures
        r == spec_class_of(equivs@, cred, attr),
{
    let mut k = equivs.len();
    assert(equivs@.take(k as int) =~= equivs@);
    while k > 0
        invariant
            k <= equivs@.len(),
            spec_class_of(equivs@, cred, attr) == spec_class_of(
                equivs@.take(k as int),
                cred,
                attr,
            ),
        decreases k,
    {
        let kk = k - 1;
        proof {
            assert(equivs@.take(kk + 1).drop_last() =~= equivs@.take(kk as int));
            assert(equivs@.take(kk + 1).last() == equivs@[kk as int]);
        }
        if pair_group_contains(&equivs[kk], cred, attr) {
            return Some(kk);
        }
        k = kk;
    }
    None
}

/// Classifies every attribute index of one credential, exactly once each.
pub fn classify_messages(
    count: usize,
    revealed: &Vec<usize>,
    equivs: &Vec<Vec<(usize, usize)>>,
    cred: usize,
) -> (r: Vec<MessageClass>)
    ensures
        r@.len() == count,
        forall|j: int| 0 <= j < count ==> r@[j] == spec_class(revealed@, equivs@, cred, j as usize),
        forall|j: int|
            0 <= j < count ==> ((#[trigger] r@[j]) matches MessageClass::Shared(k) ==> (k as int)
                < equivs@.len()),
{
    let mut r: Vec<MessageClass> = Vec::new();
    let mut j: usize = 0;
    while j < count
        invariant
            j <= count,
            r@.len() == j,
            forall|t: int| 0 <= t < j ==> r@[t] == spec_class(revealed@, equivs@, cred, t as usize),
            forall|t: int|
                0 <= t < j ==> ((#[trigger] r@[t]) matches MessageClass::Shared(k) ==> (k as int)
                    < equivs@.len()),
        decreases count - j,
    {
        match class_of(equivs, cred, j) {
            Some(k) => {
                proof {
                    lemma_class_of_bound(equivs@, cred, j);
                }
                r.push(MessageClass::Shared(k));
            }
            None => {
                if contains_index(revealed, j) {
                    r.push(MessageClass::Revealed);
                } else {
                    r.push(MessageClass::Hidden);
                }
            }
        }
        j = j + 1;
    }
    r
}

/// The indices a presentation actually discloses for one credential, in
/// increasing order: the requested revealed indices below the attribute
/// count, minus those an equivalence class hides.
pub open spec fn spec_disclosed(
    count: nat,
    revealed: Seq<usize>,
    equivs: Seq<Vec<(usize, usize)>>,
    cred: usize,
) -> Seq<usize>
    decreases count,
{
    if count == 0 {
        Seq::empty()
    } else {
        let prev = spec_disclosed((count - 1) as nat, revealed, equivs, cred);
        if spec_class(revealed, equivs, cred, (count - 1) as usize) is Revealed {
            prev.push((count - 1) as usize)
        } else {
            prev
        }
    }
}

/// The disclosed indices of a credential are a strictly increasing sequence
/// of positions inside `[0, count)`, and an index appears among them exactly
/// when it is classified as revealed.
pub proof fn lemma_disclosed_indices(
    count: nat,
    revealed: Seq<usize>,
    equivs: Seq<Vec<(usize, usize)>>,
    cred: usize,
)
    requires
        count <= usize::MAX,
    ensures
        forall|t: int|
            0 <= t < spec_disclosed(count, revealed, equivs, cred).len() ==> (
            #[trigger] spec_disclosed(count, revealed, equivs, cred)[t] as nat) < count,
        forall|t1: int, t2: int|
            0 <= t1 < t2 < spec_disclosed(count, revealed, equivs, cred).len()
                ==> spec_disclosed(count, revealed, equivs, cred)[t1] < spec_disclosed(
                count,
                revealed,
                equivs,
                cred,
            )[t2],
        forall|j: usize|
            #[trigger] spec_disclosed(count, revealed, equivs, cred).contains(j) <==> ((j as nat)
                < count && spec_class(revealed, equivs, cred, j) is Revealed),
    decreases count,
{
    if count > 0 {
        lemma_disclosed_indices((count - 1) as nat, revealed, equivs, cred);
        let prev = spec_disclosed((count - 1) as nat, revealed, equivs, cred);
        let cur = spec_disclosed(count, revealed, equivs, cred);
        let last = (count - 1) as usize;
        if spec_class(revealed, equivs, cred, last) is Revealed {
            assert(cur == prev.push(last));
            assert forall|t1: int, t2: int|
                0 <= t1 < t2 < cur.len() implies cur[t1] < cur[t2] by {
                if t2 < prev.len() {
                    assert(cur[t1] == prev[t1] && cur[t2] == prev[t2]);
                } else {
                    assert(cur[t2] == last);
                    assert(cur[t1] == prev[t1]);
                    assert((prev[t1] as nat) < count - 1);
                }
            }
            assert forall|j: usize| #[trigger] cur.contains(j) implies ((j as nat) < count
                && spec_class(revealed, equivs, cred, j) is Revealed) by {
                let t = choose|t: int| 0 <= t < cur.len() && cur[t] == j;
                if t < prev.len() {
                    assert(prev[t] == j);
                    assert(prev.contains(j));
                } else {
                    assert(j == last);
                }
            }
            assert forall|j: usize|
                ((j as nat) < count && spec_class(revealed, equivs, cred, j)
                    is Revealed) implies #[trigger] cur.contains(j) by {
                if (j as nat) < count - 1 {
                    assert(prev.contains(j));
                    let t = choose|t: int| 0 <= t < prev.len() && prev[t] == j;
                    assert(cur[t] == j);
                } else {
                    assert(j == last);
                    assert(cur[cur.len() - 1] == j);
                }
            }
        } else {
            assert(cur == prev);
            assert forall|j: usize| #[trigger] cur.contains(j) implies ((j as nat) < count
                && spec_class(revealed, equivs, cred, j) is Revealed) by {
                assert(prev.contains(j));
            }
            assert forall|j: usize|
                ((j as nat) < count && spec_class(revealed, equivs, cred, j)
                    is Revealed) implies #[trigger] cur.contains(j) by {
                if (j as nat) < count - 1 {
                    assert(prev.contains(j));
                } else {
                    assert(j == last);
                    assert(false);
                }
            }
        }
    }
}

/// Collects the disclosed indices of one credential.
pub fn disclosed_indices(
    count: usize,
    revealed: &Vec<usize>,
    equivs: &Vec<Vec<(usize, usize)>>,
    cred: usize,
) -> (r: Vec<usize>)
    ensures
        r@ == spec_disclosed(count as nat, revealed@, equivs@, cred),
{
    let mut r: Vec<usize> = Vec::new();
    let mut j: usize = 0;
    while j < count
        invariant
            j <= count,
            r@ == spec_disclosed(j as nat, revealed@, equivs@, cred),
        decreases count - j,
    {
        match class_of(equivs, cred, j) {
            Some(_) => {}
            None => {
                if contains_index(revealed, j) {
                    r.push(j);
                }
            }
        }
        j = j + 1;
    }
    r
}

/// The field elements hashed from a list of attribute values, in order.
pub open spec fn hashed_messages(vals: Seq<Vec<u8>>) -> Seq<bbs::SignatureMessage> {
    Seq::new(vals.len(), |j: int| message_of(vals[j]@))
}

/// Hashes every attribute value of a credential to its field element.
pub fn hash_attributes(vals: &Vec<Vec<u8>>) -> (r: Vec<bbs::SignatureMessage>)
    ensures
        r@ == hashed_messages(vals@),
{
    let n = vals.len();
    let mut r: Vec<bbs::SignatureMessage> = Vec::new();
    let mut j: usize = 0;
    while j < n
        invariant
            n == vals@.len(),
            j <= n,
            r@.len() == j,
            forall|t: int| 0 <= t < j ==> r@[t] == message_of(vals@[t]@),
        decreases n - j,
    {
        r.push(hash_message(&vals[j]));
        j = j + 1;
    }
    assert(r@ =~= hashed_messages(vals@));
    r
}

/// The proof message a classification and a field element produce.
pub open spec fn spec_proof_message(
    cls: MessageClass,
    m: bbs::SignatureMessage,
    blindings: Seq<ProofNonce>,
) -> ProofMessage {
    match cls {
        MessageClass::Revealed => pm_revealed_of(m),
        MessageClass::Hidden => pm_hidden_of(m),
        MessageClass::Shared(k) => pm_shared_of(m, blindings[k as int]),
    }
}

/// The fully classified message list of one credential.
pub open spec fn proof_message_seq(
    vals: Seq<Vec<u8>>,
    revealed: Seq<usize>,
    equivs: Seq<Vec<(usize, usize)>>,
    cred: usize,
    blindings: Seq<ProofNonce>,
) -> Seq<ProofMessage> {
    Seq::new(
        vals.len(),
        |j: int| spec_proof_message(
            spec_class(revealed, equivs, cred, j as usize),
            message_of(vals[j]@),
            blindings,
        ),
    )
}

/// Two attributes covered by the same equivalence class commit under the
/// same shared blinding — the mechanism that proves them equal across
/// credentials without disclosing them.
pub proof fn lemma_shared_blinding(
    vals_a: Seq<Vec<u8>>,
    revealed_a: Seq<usize>,
    cred_a: usize,
    attr_a: usize,
    vals_b: Seq<Vec<u8>>,
    revealed_b: Seq<usize>,
    cred_b: usize,
    attr_b: usize,
    equivs: Seq<Vec<(usize, usize)>>,
    blindings: Seq<ProofNonce>,
    k: usize,
)
    requires
        (attr_a as int) < vals_a.len(),
        (attr_b as int) < vals_b.len(),
        spec_class(revealed_a, equivs, cred_a, attr_a) == MessageClass::Shared(k),
        spec_class(revealed_b, equivs, cred_b, attr_b) == MessageClass::Shared(k),
    ensures
        proof_message_seq(vals_a, revealed_a, equivs, cred_a, blindings)[attr_a as int]
            == pm_shared_of(message_of(vals_a[attr_a as int]@), blindings[k as int]),
        proof_message_seq(vals_b, revealed_b, equivs, cred_b, blindings)[attr_b as int]
            == pm_shared_of(message_of(vals_b[attr_b as int]@), blindings[k as int]),
{
}

/// Builds the classified proof-message list handed to the commitment
/// primitive, one entry per attribute.
pub fn build_proof_messages(
    vals: &Vec<Vec<u8>>,
    classes: &Vec<MessageClass>,
    blindings: &Vec<ProofNonce>,
) -> (r: Vec<ProofMessage>)
    requires
        classes@.len() == vals@.len(),
        forall|j: int|
            0 <= j < classes@.len() ==> ((#[trigger] classes@[j]) matches MessageClass::Shared(k)
                ==> (k as int) < blindings@.len()),
    ensures
        r@.len() == vals@.len(),
        forall|j: int|
            0 <= j < r@.len() ==> r@[j] == spec_proof_message(
                classes@[j],
                message_of(vals@[j]@),
                blindings@,
            ),
        forall|j: int| 0 <= j < r@.len() ==> pm_value_of(r@[j]) == message_of(vals@[j]@),
{
    let n = vals.len();
    let mut r: Vec<ProofMessage> = Vec::new();
    let mut j: usize = 0;
    while j < n
        invariant
            n == vals@.len(),
            classes@.len() == vals@.len(),
            forall|t: int|
                0 <= t < classes@.len() ==> ((#[trigger] classes@[t]) matches MessageClass::Shared(
                k) ==> (k as int) < blindings@.len()),
            j <= n,
            r@.len() == j,
            forall|t: int|
                0 <= t < j ==> r@[t] == spec_proof_message(
                    classes@[t],
                    message_of(vals@[t]@),
                    blindings@,
                ),
            forall|t: int| 0 <= t < j ==> pm_value_of(r@[t]) == message_of(vals@[t]@),
        decreases n - j,
    {
        let m = hash_message(&vals[j]);
        match classes[j] {
            MessageClass::Revealed => {
                r.push(make_revealed_message(m));
            }
            MessageClass::Hidden => {
                r.push(make_hidden_message(m));
            }
            MessageClass::Shared(k) => {
                r.push(make_shared_message(m, blindings[k]));
            }
        }
        j = j + 1;
    }
    r
}

} // verus!
