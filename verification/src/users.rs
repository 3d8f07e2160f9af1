//! The subscriber registry and the reconciliation pass that folds pending
//! add/delete operations into it.
//!
//! The registry is a list of subscribers keyed by `uid`. Mutation intent is
//! recorded out of band as pending operations; a reconciliation pass applies
//! them page by page: first all additions of a page (by uid, the last
//! occurrence within the page winning), then all deletions, so a deletion
//! takes precedence over an addition of the same uid within one page.
//!
//! A subscriber is modelled as the pair of its uid bytes and its channel
//! bytes; the registry as the sequence of those pairs, well formed when no
//! uid repeats.

use vstd::prelude::*;
use vstd::pervasive::VecAdditionalExecFns;

verus! {

/// A subscriber: an enrolled user and the channel their reminders go to.
/// Both fields hold the raw bytes of the corresponding store values.
#[derive(Debug)]
pub struct BotUser {
    pub uid: Vec<u8>,
    pub channel_id: Vec<u8>,
}

impl View for BotUser {
    type V = (Seq<u8>, Seq<u8>);

    open spec fn view(&self) -> (Seq<u8>, Seq<u8>) {
        (self.uid@, self.channel_id@)
    }
}

impl DeepView for BotUser {
    type V = (Seq<u8>, Seq<u8>);

    open spec fn deep_view(&self) -> (Seq<u8>, Seq<u8>) {
        self@
    }
}

impl Clone for BotUser {
    fn clone(&self) -> (r: Self)
        ensures
            r@ == self@,
    {
        let r = BotUser { uid: self.uid.clone(), channel_id: self.channel_id.clone() };
        proof {
            assert(r.uid@ =~= self.uid@);
            assert(r.channel_id@ =~= self.channel_id@);
        }
        r
    }
}

/// Byte-for-byte equality of two byte vectors.
pub fn bytes_eq(a: &Vec<u8>, b: &Vec<u8>) -> (r: bool)
    ensures
        r == (a@ == b@),
{
    if a.len() != b.len() {
        return false;
    }
    let mut i: usize = 0;
    while i < a.len()
        invariant
            i <= a.len(),
            a@.len() == b@.len(),
            forall|j: int| 0 <= j < i ==> a@[j] == b@[j],
        decreases a.len() - i,
    {
        if a[i] != b[i] {
            return false;
        }
        i += 1;
    }
    assert(a@ =~= b@);
    true
}

/// Whether some entry of `users` carries the uid `id`.
pub open spec fn spec_contains_id(users: Seq<(Seq<u8>, Seq<u8>)>, id: Seq<u8>) -> bool {
    exists|i: int| 0 <= i < users.len() && users[i].0 == id
}

/// A well-formed registry holds at most one entry per uid.
pub open spec fn spec_wf(users: Seq<(Seq<u8>, Seq<u8>)>) -> bool {
    forall|i: int, j: int| 0 <= i < j < users.len() ==> users[i].0 != users[j].0
}

/// Whether a registry snapshot read back from the store is well formed:
/// no uid twice. Every snapshot this side writes is; the check guards
/// against a corrupted or foreign blob before a pass works on it.
pub fn registry_wf(users: &Vec<BotUser>) -> (r: bool)
    ensures
        r == spec_wf(users.deep_view()),
{
    let ghost all = users.deep_view();
    let mut i: usize = 0;
    while i < users.len()
        invariant
            i <= users.len(),
            all == users.deep_view(),
            forall|p: int, q: int| 0 <= p < q < i ==> all[p].0 != all[q].0,
        decreases users.len() - i,
    {
        let mut j: usize = 0;
        while j < i
            invariant
                j <= i < users.len(),
                all == users.deep_view(),
                forall|p: int| 0 <= p < j ==> all[p].0 != all[i as int].0,
            decreases i - j,
        {
            if bytes_eq(&users[j].uid, &users[i].uid) {
                assert(all[j as int].0 == all[i as int].0);
                return false;
            }
            j += 1;
        }
        i += 1;
    }
    true
}

/// Whether the registry holds an entry for `id`.
pub fn contains_id(users: &Vec<BotUser>, id: &Vec<u8>) -> (r: bool)
    ensures
        r == spec_contains_id(users.deep_view(), id@),
{
    let mut i: usize = 0;
    while i < users.len()
        invariant
            i <= users.len(),
            forall|j: int| 0 <= j < i ==> users.deep_view()[j].0 != id@,
        decreases users.len() - i,
    {
        if bytes_eq(&users[i].uid, id) {
            assert(users.deep_view()[i as int].0 == id@);
            return true;
        }
        i += 1;
    }
    false
}

/// The registry after adding `nu`: if an entry with the same uid exists it is
/// replaced in place, otherwise `nu` is appended. Adding a subscriber that is
/// already present therefore changes nothing but that entry's channel.
pub open spec fn spec_upsert(
    users: Seq<(Seq<u8>, Seq<u8>)>,
    nu: (Seq<u8>, Seq<u8>),
) -> Seq<(Seq<u8>, Seq<u8>)> {
    if spec_contains_id(users, nu.0) {
        users.map(|i: int, u: (Seq<u8>, Seq<u8>)| if u.0 == nu.0 { nu } else { u })
    } else {
        users.push(nu)
    }
}

/// Upserting keeps the registry well formed, and an id is in the result
/// exactly when it was there before or is the one upserted.
pub proof fn lemma_upsert_wf(users: Seq<(Seq<u8>, Seq<u8>)>, nu: (Seq<u8>, Seq<u8>))
    requires
        spec_wf(users),
    ensures
        spec_wf(spec_upsert(users, nu)),
        forall|id: Seq<u8>|
            spec_contains_id(spec_upsert(users, nu), id)
                == (spec_contains_id(users, id) || id == nu.0),
{
    let out = spec_upsert(users, nu);
    if spec_contains_id(users, nu.0) {
        assert forall|id: Seq<u8>|
            spec_contains_id(out, id) == (spec_contains_id(users, id) || id == nu.0) by {
            if spec_contains_id(out, id) {
                let i = choose|i: int| 0 <= i < out.len() && out[i].0 == id;
                assert(users[i].0 == id || id == nu.0);
            }
            if spec_contains_id(users, id) {
                let i = choose|i: int| 0 <= i < users.len() && users[i].0 == id;
                assert(out[i].0 == id);
            }
            if id == nu.0 {
                let i = choose|i: int| 0 <= i < users.len() && users[i].0 == nu.0;
                assert(out[i].0 == id);
            }
        }
    } else {
        assert forall|id: Seq<u8>|
            spec_contains_id(out, id) == (spec_contains_id(users, id) || id == nu.0) by {
            if spec_contains_id(users, id) {
                let i = choose|i: int| 0 <= i < users.len() && users[i].0 == id;
                assert(out[i].0 == id);
            }
            assert(out[users.len() as int].0 == nu.0);
        }
    }
}

/// Add `nu` to the registry, replacing any entry that already carries its uid.
pub fn upsert(users: &mut Vec<BotUser>, nu: &BotUser)
    requires
        spec_wf(old(users).deep_view()),
    ensures
        final(users).deep_view() == spec_upsert(old(users).deep_view(), nu@),
        spec_wf(final(users).deep_view()),
{
    proof {
        lemma_upsert_wf(old(users).deep_view(), nu@);
    }
    let ghost orig = old(users).deep_view();
    let mut i: usize = 0;
    while i < users.len()
        invariant
            i <= users.len(),
            users.deep_view() == orig,
            orig == old(users).deep_view(),
            spec_wf(orig),
            users@.len() == orig.len(),
            forall|j: int| 0 <= j < i ==> orig[j].0 != nu.uid@,
        decreases users.len() - i,
    {
        if bytes_eq(&users[i].uid, &nu.uid) {
            assert(orig[i as int].0 == nu.uid@);
            assert(spec_contains_id(orig, nu@.0));
            users.set(i, nu.clone());
            assert forall|j: int| 0 <= j < users.deep_view().len()
                implies users.deep_view()[j] == spec_upsert(orig, nu@)[j] by {
                if j != i {
                    // Well-formedness rules out a second entry with this uid.
                    assert(orig[j].0 != nu.uid@);
                }
            }
            assert(users.deep_view() =~~= spec_upsert(orig, nu@));
            return;
        }
        i += 1;
    }
    users.push(nu.clone());
    assert(!spec_contains_id(orig, nu@.0));
    assert(users.deep_view() =~= spec_upsert(orig, nu@));
}

/// The registry after applying every addition of a page in order.
pub open spec fn spec_apply_adds(
    users: Seq<(Seq<u8>, Seq<u8>)>,
    adds: Seq<(Seq<u8>, Seq<u8>)>,
) -> Seq<(Seq<u8>, Seq<u8>)>
    decreases adds.len(),
{
    if adds.len() == 0 {
        users
    } else {
        spec_upsert(spec_apply_adds(users, adds.drop_last()), adds.last())
    }
}

/// The registry after removing every entry whose uid is listed in `dels`.
pub open spec fn spec_remove_ids(
    users: Seq<(Seq<u8>, Seq<u8>)>,
    dels: Seq<Seq<u8>>,
) -> Seq<(Seq<u8>, Seq<u8>)> {
    users.filter(|u: (Seq<u8>, Seq<u8>)| !dels.contains(u.0))
}

/// One page of the reconciliation pass: all additions first, then all
/// deletions, so a deletion wins over an addition of the same uid.
pub open spec fn spec_apply_page(
    users: Seq<(Seq<u8>, Seq<u8>)>,
    adds: Seq<(Seq<u8>, Seq<u8>)>,
    dels: Seq<Seq<u8>>,
) -> Seq<(Seq<u8>, Seq<u8>)> {
    spec_remove_ids(spec_apply_adds(users, adds), dels)
}

/// Applying a page's additions keeps the registry well formed, and an id is
/// in the result exactly when it was there before or some addition carries it.
pub proof fn lemma_apply_adds_props(users: Seq<(Seq<u8>, Seq<u8>)>, adds: Seq<(Seq<u8>, Seq<u8>)>)
    requires
        spec_wf(users),
    ensures
        spec_wf(spec_apply_adds(users, adds)),
        forall|id: Seq<u8>|
            spec_contains_id(spec_apply_adds(users, adds), id)
                == (spec_contains_id(users, id) || spec_contains_id(adds, id)),
    decreases adds.len(),
{
    if adds.len() == 0 {
        assert forall|id: Seq<u8>| !spec_contains_id(adds, id) by {}
    } else {
        let prefix = adds.drop_last();
        lemma_apply_adds_props(users, prefix);
        lemma_upsert_wf(spec_apply_adds(users, prefix), adds.last());
        assert forall|id: Seq<u8>|
            spec_contains_id(spec_apply_adds(users, adds), id)
                == (spec_contains_id(users, id) || spec_contains_id(adds, id)) by {
            if spec_contains_id(adds, id) {
                let i = choose|i: int| 0 <= i < adds.len() && adds[i].0 == id;
                if i < adds.len() - 1 {
                    assert(prefix[i].0 == id);
                    assert(spec_contains_id(prefix, id));
                }
            }
            if spec_contains_id(prefix, id) {
                let i = choose|i: int| 0 <= i < prefix.len() && prefix[i].0 == id;
                assert(adds[i].0 == id);
            }
            if adds.last().0 == id {
                assert(adds[adds.len() - 1].0 == id);
            }
        }
    }
}

/// Removing ids keeps the registry well formed, and an id is in the result
/// exactly when it was there before and is not listed for deletion.
pub proof fn lemma_remove_ids_props(users: Seq<(Seq<u8>, Seq<u8>)>, dels: Seq<Seq<u8>>)
    requires
        spec_wf(users),
    ensures
        spec_wf(spec_remove_ids(users, dels)),
        forall|id: Seq<u8>|
            spec_contains_id(spec_remove_ids(users, dels), id)
                == (spec_contains_id(users, id) && !dels.contains(id)),
    decreases users.len(),
{
    reveal(Seq::filter);
    let pred = |u: (Seq<u8>, Seq<u8>)| !dels.contains(u.0);
    let out = spec_remove_ids(users, dels);
    if users.len() == 0 {
        assert(out =~= Seq::<(Seq<u8>, Seq<u8>)>::empty());
    } else {
        let prefix = users.drop_last();
        let last = users.last();
        lemma_remove_ids_props(prefix, dels);
        let sub = spec_remove_ids(prefix, dels);
        assert forall|id: Seq<u8>|
            spec_contains_id(out, id) == (spec_contains_id(users, id) && !dels.contains(id)) by {
            if pred(last) {
                assert(out == sub.push(last));
                if spec_contains_id(out, id) {
                    let i = choose|i: int| 0 <= i < out.len() && out[i].0 == id;
                    if i < sub.len() {
                        assert(spec_contains_id(sub, id));
                        assert(spec_contains_id(prefix, id));
                        let k = choose|k: int| 0 <= k < prefix.len() && prefix[k].0 == id;
                        assert(users[k].0 == id);
                    } else {
                        assert(users[users.len() - 1].0 == id);
                    }
                }
                if spec_contains_id(users, id) && !dels.contains(id) {
                    let i = choose|i: int| 0 <= i < users.len() && users[i].0 == id;
                    if i < users.len() - 1 {
                        assert(prefix[i].0 == id);
                        let k = choose|k: int| 0 <= k < sub.len() && sub[k].0 == id;
                        assert(out[k].0 == id);
                    } else {
                        assert(out[out.len() - 1].0 == id);
                    }
                }
            } else {
                assert(out == sub);
                if spec_contains_id(out, id) {
                    assert(spec_contains_id(prefix, id));
                    let k = choose|k: int| 0 <= k < prefix.len() && prefix[k].0 == id;
                    assert(users[k].0 == id);
                }
                if spec_contains_id(users, id) && !dels.contains(id) {
                    let i = choose|i: int| 0 <= i < users.len() && users[i].0 == id;
                    if i < users.len() - 1 {
                        assert(prefix[i].0 == id);
                    } else {
                        assert(!pred(last) && last.0 == id);
                        assert(dels.contains(id));
                    }
                }
            }
        }
        if pred(last) {
            assert(out == sub.push(last));
            assert forall|i: int, j: int| 0 <= i < j < out.len() implies out[i].0 != out[j].0 by {
                if j < sub.len() {
                } else {
                    if spec_contains_id(sub, last.0) {
                        assert(spec_contains_id(prefix, last.0));
                        let k = choose|k: int| 0 <= k < prefix.len() && prefix[k].0 == last.0;
                        assert(users[k].0 == users[users.len() - 1].0);
                        assert(false);
                    }
                    assert(out[i].0 != out[j].0);
                }
            }
        }
    }
}

/// An id is in the registry after one reconciliation page exactly when it was
/// there before or was added in the page, and is not deleted in the page;
/// in particular a deletion wins over an addition of the same uid.
pub proof fn lemma_apply_page_membership(
    users: Seq<(Seq<u8>, Seq<u8>)>,
    adds: Seq<(Seq<u8>, Seq<u8>)>,
    dels: Seq<Seq<u8>>,
)
    requires
        spec_wf(users),
    ensures
        spec_wf(spec_apply_page(users, adds, dels)),
        forall|id: Seq<u8>|
            spec_contains_id(spec_apply_page(users, adds, dels), id)
                == ((spec_contains_id(users, id) || spec_contains_id(adds, id))
                    && !dels.contains(id)),
{
    lemma_apply_adds_props(users, adds);
    lemma_remove_ids_props(spec_apply_adds(users, adds), dels);
}

/// Apply every addition of a page to the registry, in order.
pub fn apply_adds(users: &mut Vec<BotUser>, adds: &Vec<BotUser>)
    requires
        spec_wf(old(users).deep_view()),
    ensures
        final(users).deep_view() == spec_apply_adds(old(users).deep_view(), adds.deep_view()),
        spec_wf(final(users).deep_view()),
{
    let ghost orig = old(users).deep_view();
    let ghost all = adds.deep_view();
    let mut i: usize = 0;
    while i < adds.len()
        invariant
            i <= adds.len(),
            all == adds.deep_view(),
            orig == old(users).deep_view(),
            users.deep_view() == spec_apply_adds(orig, all.take(i as int)),
            spec_wf(users.deep_view()),
        decreases adds.len() - i,
    {
        upsert(users, &adds[i]);
        proof {
            let t = all.take(i + 1int);
            assert(t.drop_last() =~= all.take(i as int));
            assert(t.last() == adds.deep_view()[i as int]);
        }
        i += 1;
    }
    proof {
        assert(all.take(adds.len() as int) =~= all);
    }
}

/// Whether `ids` holds a vector equal to `id`.
pub fn ids_contain(ids: &Vec<Vec<u8>>, id: &Vec<u8>) -> (r: bool)
    ensures
        r == ids.deep_view().contains(id@),
{
    let mut i: usize = 0;
    while i < ids.len()
        invariant
            i <= ids.len(),
            forall|j: int| 0 <= j < i ==> ids.deep_view()[j] != id@,
        decreases ids.len() - i,
    {
        let hit = bytes_eq(&ids[i], id);
        assert(ids.deep_view()[i as int] == ids@[i as int]@);
        if hit {
            return true;
        }
        i += 1;
    }
    assert forall|j: int| 0 <= j < ids.deep_view().len() implies ids.deep_view()[j] != id@ by {}
    false
}

/// Remove every registry entry whose uid is listed in `dels`.
pub fn remove_ids(users: &Vec<BotUser>, dels: &Vec<Vec<u8>>) -> (r: Vec<BotUser>)
    ensures
        r.deep_view() == spec_remove_ids(users.deep_view(), dels.deep_view()),
{
    let ghost pred = |u: (Seq<u8>, Seq<u8>)| !dels.deep_view().contains(u.0);
    let mut r: Vec<BotUser> = Vec::new();
    let mut i: usize = 0;
    proof {
        reveal(Seq::filter);
        assert(users.deep_view().take(0).filter(pred) =~= Seq::<(Seq<u8>, Seq<u8>)>::empty());
    }
    while i < users.len()
        invariant
            i <= users.len(),
            pred == (|u: (Seq<u8>, Seq<u8>)| !dels.deep_view().contains(u.0)),
            r.deep_view() == users.deep_view().take(i as int).filter(pred),
        decreases users.len() - i,
    {
        let keep = !ids_contain(dels, &users[i].uid);
        proof {
            reveal(Seq::filter);
            let t = users.deep_view().take(i + 1int);
            assert(t.drop_last() =~= users.deep_view().take(i as int));
            assert(t.last() == users.deep_view()[i as int]);
        }
        if keep {
            r.push(users[i].clone());
            assert(r.deep_view() =~= users.deep_view().take(i + 1int).filter(pred));
        }
        i += 1;
    }
    proof {
        assert(users.deep_view().take(users.len() as int) =~= users.deep_view());
    }
    r
}

/// One page of pending operations, as read from the store listing: the
/// subscribers to add and the uids to delete.
pub struct Page {
    pub adds: Vec<BotUser>,
    pub dels: Vec<Vec<u8>>,
}

impl View for Page {
    type V = (Seq<(Seq<u8>, Seq<u8>)>, Seq<Seq<u8>>);

    open spec fn view(&self) -> (Seq<(Seq<u8>, Seq<u8>)>, Seq<Seq<u8>>) {
        (self.adds.deep_view(), self.dels.deep_view())
    }
}

/// Fold one page of pending operations into the registry: additions first,
/// deletions second, so a deletion of a uid wins over its addition.
pub fn apply_page(users: &mut Vec<BotUser>, page: &Page)
    requires
        spec_wf(old(users).deep_view()),
    ensures
        final(users).deep_view() == spec_apply_page(old(users).deep_view(), page@.0, page@.1),
        spec_wf(final(users).deep_view()),
{
    apply_adds(users, &page.adds);
    proof {
        lemma_remove_ids_props(users.deep_view(), page.dels.deep_view());
    }
    let filtered = remove_ids(users, &page.dels);
    *users = filtered;
}

/// A single pending operation, as decoded from one pending key.
pub enum PendingOp {
    Add(BotUser),
    Delete(Vec<u8>),
}

/// The model of a pending operation: either a subscriber to add or a uid to
/// delete.
pub enum PendingOpView {
    Add((Seq<u8>, Seq<u8>)),
    Delete(Seq<u8>),
}

impl View for PendingOp {
    type V = PendingOpView;

    open spec fn view(&self) -> PendingOpView {
        match self {
            PendingOp::Add(u) => PendingOpView::Add(u@),
            PendingOp::Delete(id) => PendingOpView::Delete(id@),
        }
    }
}

/// The registry after one pending operation alone.
pub open spec fn spec_apply_op(
    users: Seq<(Seq<u8>, Seq<u8>)>,
    op: PendingOpView,
) -> Seq<(Seq<u8>, Seq<u8>)> {
    match op {
        PendingOpView::Add(u) => spec_upsert(users, u),
        PendingOpView::Delete(id) => spec_remove_ids(users, seq![id]),
    }
}

/// Upserting the same subscriber a second time changes nothing: the entry it
/// would replace already equals it.
pub proof fn lemma_upsert_idempotent(users: Seq<(Seq<u8>, Seq<u8>)>, nu: (Seq<u8>, Seq<u8>))
    ensures
        spec_upsert(spec_upsert(users, nu), nu) == spec_upsert(users, nu),
{
    let v = spec_upsert(users, nu);
    if spec_contains_id(users, nu.0) {
        let i = choose|i: int| 0 <= i < users.len() && users[i].0 == nu.0;
        assert(v[i] == nu);
        assert(spec_contains_id(v, nu.0));
        assert forall|j: int| 0 <= j < v.len()
            implies (if v[j].0 == nu.0 { nu } else { v[j] }) == v[j] by {
            if v[j].0 == nu.0 && users[j].0 != nu.0 {
                assert(v[j] == users[j]);
                assert(false);
            }
        }
        assert(spec_upsert(v, nu) =~= v);
    } else {
        assert(v[users.len() as int] == nu);
        assert(spec_contains_id(v, nu.0));
        assert forall|j: int| 0 <= j < v.len()
            implies (if v[j].0 == nu.0 { nu } else { v[j] }) == v[j] by {
            if j < users.len() && v[j].0 == nu.0 {
                assert(spec_contains_id(users, nu.0));
            }
        }
        assert(spec_upsert(v, nu) =~= v);
    }
}

/// Removing the same set of uids a second time changes nothing: every entry
/// that survived the first removal survives the second.
pub proof fn lemma_remove_ids_idempotent(users: Seq<(Seq<u8>, Seq<u8>)>, dels: Seq<Seq<u8>>)
    ensures
        spec_remove_ids(spec_remove_ids(users, dels), dels) == spec_remove_ids(users, dels),
    decreases users.len(),
{
    reveal(Seq::filter);
    let pred = |u: (Seq<u8>, Seq<u8>)| !dels.contains(u.0);
    if users.len() == 0 {
        assert(users.filter(pred) =~= users);
    } else {
        let prefix = users.drop_last();
        let last = users.last();
        lemma_remove_ids_idempotent(prefix, dels);
        let sub = spec_remove_ids(prefix, dels);
        if pred(last) {
            let out = sub.push(last);
            assert(users.filter(pred) == out);
            assert(out.drop_last() =~= sub);
            assert(out.last() == last);
            assert(out.filter(pred) == sub.filter(pred).push(last));
        } else {
            assert(users.filter(pred) == sub);
        }
    }
}

/// Applying the same pending operation twice leaves the registry exactly as
/// it stood after applying it once, so a retried operation is harmless.
pub proof fn lemma_apply_op_idempotent(users: Seq<(Seq<u8>, Seq<u8>)>, op: PendingOpView)
    ensures
        spec_apply_op(spec_apply_op(users, op), op) == spec_apply_op(users, op),
{
    match op {
        PendingOpView::Add(u) => lemma_upsert_idempotent(users, u),
        PendingOpView::Delete(id) => lemma_remove_ids_idempotent(users, seq![id]),
    }
}

/// Apply a single pending operation to the registry.
pub fn apply_op(users: &mut Vec<BotUser>, op: &PendingOp)
    requires
        spec_wf(old(users).deep_view()),
    ensures
        final(users).deep_view() == spec_apply_op(old(users).deep_view(), op@),
        spec_wf(final(users).deep_view()),
{
    match op {
        PendingOp::Add(u) => upsert(users, u),
        PendingOp::Delete(id) => {
            proof {
                lemma_remove_ids_props(users.deep_view(), seq![id@]);
            }
            let mut dels: Vec<Vec<u8>> = Vec::new();
            let idc = id.clone();
            assert(idc@ =~= id@);
            dels.push(idc);
            assert(dels.deep_view() =~~= seq![id@]);
            let filtered = remove_ids(users, &dels);
            *users = filtered;
        }
    }
}

impl DeepView for Page {
    type V = (Seq<(Seq<u8>, Seq<u8>)>, Seq<Seq<u8>>);

    open spec fn deep_view(&self) -> (Seq<(Seq<u8>, Seq<u8>)>, Seq<Seq<u8>>) {
        self@
    }
}

/// The registry after a whole reconciliation pass: its pages folded in, in
/// the order the store listed them.
pub open spec fn spec_reconcile(
    users: Seq<(Seq<u8>, Seq<u8>)>,
    pages: Seq<(Seq<(Seq<u8>, Seq<u8>)>, Seq<Seq<u8>>)>,
) -> Seq<(Seq<u8>, Seq<u8>)>
    decreases pages.len(),
{
    if pages.len() == 0 {
        users
    } else {
        spec_apply_page(
            spec_reconcile(users, pages.drop_last()),
            pages.last().0,
            pages.last().1,
        )
    }
}

/// Whether a page speaks of `id` at all, as an addition or a deletion.
pub open spec fn spec_page_mentions(
    page: (Seq<(Seq<u8>, Seq<u8>)>, Seq<Seq<u8>>),
    id: Seq<u8>,
) -> bool {
    spec_contains_id(page.0, id) || page.1.contains(id)
}

/// Whether `id` is enrolled once a pass over `pages` completes, starting from
/// `initial` enrollment: the last page that mentions `id` decides, an
/// addition enrolling it unless the same page also deletes it; if no page
/// mentions it, the initial state stands.
pub open spec fn spec_enrolled_after(
    initial: bool,
    pages: Seq<(Seq<(Seq<u8>, Seq<u8>)>, Seq<Seq<u8>>)>,
    id: Seq<u8>,
) -> bool
    decreases pages.len(),
{
    if pages.len() == 0 {
        initial
    } else if spec_page_mentions(pages.last(), id) {
        spec_contains_id(pages.last().0, id) && !pages.last().1.contains(id)
    } else {
        spec_enrolled_after(initial, pages.drop_last(), id)
    }
}

/// After a full reconciliation pass the registry contains exactly the ids
/// whose most recently applied operation within the pass was an addition,
/// a deletion taking precedence over an addition within the same page.
pub proof fn lemma_reconcile_membership(
    users: Seq<(Seq<u8>, Seq<u8>)>,
    pages: Seq<(Seq<(Seq<u8>, Seq<u8>)>, Seq<Seq<u8>>)>,
    id: Seq<u8>,
)
    requires
        spec_wf(users),
    ensures
        spec_wf(spec_reconcile(users, pages)),
        spec_contains_id(spec_reconcile(users, pages), id)
            == spec_enrolled_after(spec_contains_id(users, id), pages, id),
    decreases pages.len(),
{
    if pages.len() > 0 {
        lemma_reconcile_membership(users, pages.drop_last(), id);
        lemma_apply_page_membership(
            spec_reconcile(users, pages.drop_last()),
            pages.last().0,
            pages.last().1,
        );
    }
}

/// Re-applying a whole page — a pass retried over pending keys that were
/// already folded in but not yet deleted — enrolls and unenrolls nobody:
/// the same ids are in the registry after the second application.
pub proof fn lemma_apply_page_idempotent(
    users: Seq<(Seq<u8>, Seq<u8>)>,
    adds: Seq<(Seq<u8>, Seq<u8>)>,
    dels: Seq<Seq<u8>>,
)
    requires
        spec_wf(users),
    ensures
        forall|id: Seq<u8>|
            spec_contains_id(
                #[trigger] spec_apply_page(spec_apply_page(users, adds, dels), adds, dels),
                id,
            ) == spec_contains_id(spec_apply_page(users, adds, dels), id),
{
    lemma_apply_page_membership(users, adds, dels);
    lemma_apply_page_membership(spec_apply_page(users, adds, dels), adds, dels);
}

/// A uid deleted in a page is absent once the page is applied, even when the
/// same page also adds it: unenrollment wins over enrollment in one pass.
pub proof fn lemma_delete_precedence(
    users: Seq<(Seq<u8>, Seq<u8>)>,
    adds: Seq<(Seq<u8>, Seq<u8>)>,
    dels: Seq<Seq<u8>>,
    id: Seq<u8>,
)
    requires
        spec_wf(users),
        dels.contains(id),
    ensures
        !spec_contains_id(spec_apply_page(users, adds, dels), id),
{
    lemma_apply_page_membership(users, adds, dels);
}

/// Run a whole reconciliation pass over the registry, page by page.
pub fn reconcile(users: &mut Vec<BotUser>, pages: &Vec<Page>)
    requires
        spec_wf(old(users).deep_view()),
    ensures
        final(users).deep_view() == spec_reconcile(old(users).deep_view(), pages.deep_view()),
        spec_wf(final(users).deep_view()),
{
    let ghost orig = old(users).deep_view();
    let ghost all = pages.deep_view();
    let mut i: usize = 0;
    while i < pages.len()
        invariant
            i <= pages.len(),
            all == pages.deep_view(),
            orig == old(users).deep_view(),
            users.deep_view() == spec_reconcile(orig, all.take(i as int)),
            spec_wf(users.deep_view()),
        decreases pages.len() - i,
    {
        apply_page(users, &pages[i]);
        proof {
            let t = all.take(i + 1int);
            assert(t.drop_last() =~= all.take(i as int));
            assert(t.last() == pages.deep_view()[i as int]);
            assert(pages.deep_view()[i as int] == pages@[i as int]@);
        }
        i += 1;
    }
    proof {
        assert(all.take(pages.len() as int) =~= all);
    }
}

} // verus!
