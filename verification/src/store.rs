//! The ACL store: an id-indexed collection of policy records with insert,
//! lookup, delete, update and the filtered listings the decision engine and
//! the management surface read.

use vstd::prelude::*;

verus! {

use crate::models::{AclAction, AclDecision, DbAcl, NewAclJson};
use crate::strutil::{normalize_path, spec_normalize_path};

/// Failure of a store operation.
#[derive(Clone, Copy, Debug, PartialEq, Eq, Structural)]
pub enum StoreError {
    /// No record carries the requested id.
    NotFound,
    /// Every id has been handed out; nothing more can be inserted.
    Full,
}

/// The first record carrying `id`, scanning front to back.
pub open spec fn find_by_id(acls: Seq<DbAcl>, id: i32) -> Option<DbAcl>
    decreases acls.len(),
{
    if acls.len() == 0 {
        None
    } else if acls[0].id == id {
        Some(acls[0])
    } else {
        find_by_id(acls.drop_first(), id)
    }
}

/// If position `k` holds the first record with `id`, the lookup returns it.
pub proof fn lemma_find_by_id_hit(acls: Seq<DbAcl>, id: i32, k: int)
    requires
        0 <= k < acls.len(),
        acls[k].id == id,
        forall|j: int| 0 <= j < k ==> acls[j].id != id,
    ensures
        find_by_id(acls, id) == Some(acls[k]),
    decreases k,
{
    if k > 0 {
        assert(acls.drop_first()[k - 1] == acls[k]);
        assert(forall|j: int| 0 <= j < k - 1 ==> acls.drop_first()[j].id != id);
        lemma_find_by_id_hit(acls.drop_first(), id, k - 1);
    }
}

/// If no record carries `id`, the lookup misses.
pub proof fn lemma_find_by_id_miss(acls: Seq<DbAcl>, id: i32)
    requires
        forall|j: int| 0 <= j < acls.len() ==> acls[j].id != id,
    ensures
        find_by_id(acls, id) is None,
    decreases acls.len(),
{
    if acls.len() > 0 {
        assert(forall|j: int|
            0 <= j < acls.drop_first().len() ==> acls.drop_first()[j].id != id);
        lemma_find_by_id_miss(acls.drop_first(), id);
    }
}

/// Filtering a prefix one element further either appends that element or
/// leaves the filtered sequence unchanged.
pub proof fn lemma_filter_take_step<A>(s: Seq<A>, pred: spec_fn(A) -> bool, i: int)
    requires
        0 <= i < s.len(),
    ensures
        s.take(i + 1).filter(pred) == if pred(s[i]) {
            s.take(i).filter(pred).push(s[i])
        } else {
            s.take(i).filter(pred)
        },
{
    reveal(Seq::filter);
    assert(s.take(i + 1).drop_last() =~= s.take(i));
    assert(s.take(i + 1).last() == s[i]);
}

/// Every element of a filtered sequence occurs in the sequence it was
/// filtered from.
pub proof fn lemma_filter_elements<A>(s: Seq<A>, pred: spec_fn(A) -> bool)
    ensures
        forall|k: int|
            0 <= k < s.filter(pred).len() ==> s.contains(#[trigger] s.filter(pred)[k]),
    decreases s.len(),
{
    reveal(Seq::filter);
    if s.len() > 0 {
        let pre = s.drop_last();
        lemma_filter_elements(pre, pred);
        assert forall|k: int|
            0 <= k < s.filter(pred).len() implies s.contains(#[trigger] s.filter(pred)[k]) by {
            if pred(s.last()) && k == s.filter(pred).len() - 1 {
                assert(s.filter(pred)[k] == s.last());
                assert(s[s.len() - 1] == s.last());
            } else {
                assert(s.filter(pred)[k] == pre.filter(pred)[k]);
                assert(pre.contains(pre.filter(pred)[k]));
                let j = choose|j: int| 0 <= j < pre.len() && pre[j] == pre.filter(pred)[k];
                assert(s[j] == pre.filter(pred)[k]);
            }
        }
    }
}

/// Filtering keeps record ids pairwise distinct.
pub proof fn lemma_filter_distinct_ids(s: Seq<DbAcl>, pred: spec_fn(DbAcl) -> bool)
    requires
        forall|i: int, j: int|
            #![trigger s[i].id, s[j].id]
            0 <= i < j < s.len() ==> s[i].id != s[j].id,
    ensures
        forall|i: int, j: int|
            #![trigger s.filter(pred)[i].id, s.filter(pred)[j].id]
            0 <= i < j < s.filter(pred).len() ==> s.filter(pred)[i].id != s.filter(pred)[j].id,
    decreases s.len(),
{
    reveal(Seq::filter);
    if s.len() > 0 {
        let pre = s.drop_last();
        assert(forall|i: int, j: int|
            #![trigger pre[i].id, pre[j].id]
            0 <= i < j < pre.len() ==> pre[i].id != pre[j].id) by {
            assert(forall|i: int| 0 <= i < pre.len() ==> pre[i] == s[i]);
        }
        lemma_filter_distinct_ids(pre, pred);
        lemma_filter_elements(pre, pred);
        let out = s.filter(pred);
        assert forall|i: int, j: int|
            0 <= i < j < out.len() implies #[trigger] out[i].id != #[trigger] out[j].id by {
            if pred(s.last()) && j == out.len() - 1 {
                assert(out[j] == s.last());
                assert(out[i] == pre.filter(pred)[i]);
                assert(pre.contains(pre.filter(pred)[i]));
                let jj = choose|jj: int| 0 <= jj < pre.len() && pre[jj] == pre.filter(pred)[i];
                assert(s[jj] == out[i]);
                assert(s[jj].id != s[s.len() - 1].id);
            } else {
                assert(out[i] == pre.filter(pred)[i]);
                assert(out[j] == pre.filter(pred)[j]);
            }
        }
    }
}

/// Law: every path persisted in a well-formed store begins with `/`.
pub proof fn lemma_stored_paths_rooted(s: &AclStore)
    requires
        s.wf(),
    ensures
        forall|i: int|
            0 <= i < s@.len() ==> (#[trigger] s@[i]).path@.len() > 0 && s@[i].path@[0] == '/',
{
}

/// Law: every persisted action and decision is drawn from its closed
/// enumeration.
pub proof fn lemma_stored_enums_valid(s: &AclStore)
    requires
        s.wf(),
    ensures
        forall|i: int|
            0 <= i < s@.len() ==> crate::models::valid_action_str((#[trigger] s@[i]).action@)
                && crate::models::valid_decision_str(s@[i].decision@),
{
}

/// Law (insert round trip): a record appended under an id no existing
/// record carries — as `insert_acl` and `save_acl` leave the store — is
/// retrieved by that id, field for field.
pub proof fn lemma_insert_then_get(pre: Seq<DbAcl>, post: Seq<DbAcl>)
    requires
        post.len() == pre.len() + 1,
        post.drop_last() == pre,
        forall|i: int| 0 <= i < pre.len() ==> (#[trigger] pre[i]).id != post.last().id,
    ensures
        find_by_id(post, post.last().id) == Some(post.last()),
{
    assert(forall|j: int| 0 <= j < post.len() - 1 ==> post[j] == pre[j]);
    lemma_find_by_id_hit(post, post.last().id, post.len() - 1);
}

/// Law (delete round trip): after the records carrying an id are removed —
/// as `delete_acl_from_db_by_id` leaves the store — a lookup of that id
/// misses.
pub proof fn lemma_delete_then_get(pre: Seq<DbAcl>, id: i32)
    ensures
        find_by_id(pre.filter(keep_other_pred(id)), id) is None,
{
    let kept = pre.filter(keep_other_pred(id));
    assert forall|j: int| 0 <= j < kept.len() implies (#[trigger] kept[j]).id != id by {
        pre.lemma_filter_pred(keep_other_pred(id), j);
    }
    lemma_find_by_id_miss(kept, id);
}

/// Law (update round trip): where ids are unique and an update rewrites the
/// record at position `k` in place — as `update_acl_in_db_by_id` leaves the
/// store — a lookup of that id returns exactly the rewritten record, and
/// returned exactly the prior record before.
pub proof fn lemma_update_then_get(pre: Seq<DbAcl>, post: Seq<DbAcl>, id: i32, k: int)
    requires
        post.len() == pre.len(),
        forall|i: int| 0 <= i < pre.len() && (#[trigger] pre[i]).id != id ==> post[i] == pre[i],
        forall|i: int| 0 <= i < pre.len() && (#[trigger] pre[i]).id == id ==> post[i].id == id,
        forall|i: int, j: int|
            #![trigger pre[i].id, pre[j].id]
            0 <= i < j < pre.len() ==> pre[i].id != pre[j].id,
        0 <= k < pre.len(),
        pre[k].id == id,
    ensures
        find_by_id(pre, id) == Some(pre[k]),
        find_by_id(post, id) == Some(post[k]),
{
    assert forall|j: int| 0 <= j < k implies pre[j].id != id by {
        assert(pre[j].id != pre[k].id);
    }
    assert forall|j: int| 0 <= j < k implies post[j].id != id by {
        assert(pre[j].id != pre[k].id);
        assert(post[j] == pre[j]);
    }
    lemma_find_by_id_hit(pre, id, k);
    lemma_find_by_id_hit(post, id, k);
}

/// Predicate for records of one subject.
pub open spec fn subject_pred(sub: Seq<char>) -> spec_fn(DbAcl) -> bool {
    |a: DbAcl| a.subject@ == sub
}

/// Predicate for records of one subject acting for one user.
pub open spec fn subject_user_pred(sub: Seq<char>, usr: Seq<char>) -> spec_fn(DbAcl) -> bool {
    |a: DbAcl| a.subject@ == sub && a.user@ == usr
}

/// Predicate for records of one subject carrying one decision.
pub open spec fn subject_decision_pred(sub: Seq<char>, dec: Seq<char>) -> spec_fn(DbAcl) -> bool {
    |a: DbAcl| a.subject@ == sub && a.decision@ == dec
}

/// Predicate for records that survive deleting `id`.
pub open spec fn keep_other_pred(id: i32) -> spec_fn(DbAcl) -> bool {
    |a: DbAcl| a.id != id
}

/// The current system time rendered as an ISO-8601 UTC timestamp.
///
/// Relies on `chrono::DateTime::<Utc>::from(SystemTime)` and
/// `DateTime::format` with `%+`, chrono's ISO-8601 format specifier. The
/// value depends on the clock, so nothing is promised of it.
#[verifier::external_body]
fn iso8601_now() -> String {
    let dt: chrono::DateTime<chrono::Utc> = std::time::SystemTime::now().into();
    format!("{}", dt.format("%+"))
}

/// The in-memory, id-indexed collection of policy records backing the agent.
pub struct AclStore {
    acls: Vec<DbAcl>,
    next_id: i32,
}

impl View for AclStore {
    type V = Seq<DbAcl>;

    closed spec fn view(&self) -> Seq<DbAcl> {
        self.acls@
    }
}

impl AclStore {
    /// The next id the store will assign.
    pub closed spec fn spec_next_id(&self) -> int {
        self.next_id as int
    }

    /// Store invariant: every record is well formed, ids are pairwise
    /// distinct, and all of them lie below the next id to assign.
    pub open spec fn wf(&self) -> bool {
        &&& forall|i: int| 0 <= i < self@.len() ==> (#[trigger] self@[i]).wf_record()
        &&& forall|i: int| 0 <= i < self@.len() ==> (#[trigger] self@[i]).id < self.spec_next_id()
        &&& forall|i: int, j: int|
            #![trigger self@[i].id, self@[j].id]
            0 <= i < j < self@.len() ==> self@[i].id != self@[j].id
        &&& 1 <= self.spec_next_id() <= i32::MAX
    }

    /// A fresh, empty store.
    pub fn new() -> (s: AclStore)
        ensures
            s@ =~= Seq::<DbAcl>::empty(),
            s.wf(),
            s.spec_next_id() == 1,
    {
        AclStore { acls: Vec::new(), next_id: 1 }
    }

    /// Insert a record with every server-side field supplied, the timestamp
    /// included; the stored path is normalized to begin with `/`.
    pub fn insert_acl(
        &mut self,
        subject: &str,
        action: &AclAction,
        path: &str,
        user: &str,
        decision: &AclDecision,
        create_by: &str,
        create_time: &str,
    ) -> (r: Result<i32, StoreError>)
        requires
            old(self).wf(),
        ensures
            final(self).wf(),
            r is Err <==> old(self).spec_next_id() == i32::MAX,
            r is Err ==> *final(self) == *old(self) && r == Err::<i32, StoreError>(
                StoreError::Full,
            ),
            r matches Ok(id) ==> {
                &&& id == old(self).spec_next_id()
                &&& final(self).spec_next_id() == old(self).spec_next_id() + 1
                &&& final(self)@.len() == old(self)@.len() + 1
                &&& final(self)@.drop_last() =~= old(self)@
                &&& final(self)@.last().id == id
                &&& final(self)@.last().subject@ == subject@
                &&& final(self)@.last().action@ == action.spec_str()
                &&& final(self)@.last().path@ == spec_normalize_path(path@)
                &&& final(self)@.last().user@ == user@
                &&& final(self)@.last().decision@ == decision.spec_str()
                &&& final(self)@.last().create_by@ == create_by@
                &&& final(self)@.last().create_time@ == create_time@
            },
    {
        if self.next_id == i32::MAX {
            return Err(StoreError::Full);
        }
        let id = self.next_id;
        let rec = DbAcl {
            id,
            subject: subject.to_owned(),
            action: action.to_text(),
            path: normalize_path(path),
            user: user.to_owned(),
            create_by: create_by.to_owned(),
            create_time: create_time.to_owned(),
            decision: decision.to_text(),
        };
        self.acls.push(rec);
        self.next_id = self.next_id + 1;
        proof {
            assert(self@.drop_last() =~= old(self)@);
            assert forall|i: int| 0 <= i < self@.len() implies (#[trigger] self@[i]).wf_record()
                && self@[i].id < self.spec_next_id() by {
                if i < self@.len() - 1 {
                    assert(self@[i] == old(self)@[i]);
                }
            }
            assert forall|i: int, j: int|
                #![trigger self@[i].id, self@[j].id]
                0 <= i < j < self@.len() implies self@[i].id != self@[j].id by {
                if j < self@.len() - 1 {
                    assert(self@[i] == old(self)@[i]);
                    assert(self@[j] == old(self)@[j]);
                } else {
                    assert(self@[i] == old(self)@[i]);
                    assert(old(self)@[i].id < old(self).spec_next_id());
                }
            }
        }
        Ok(id)
    }

    /// Insert a record, stamping it with the current time; the timestamp is
    /// chosen by the server and nothing more is said of it.
    pub fn save_acl(
        &mut self,
        subject: &str,
        action: &AclAction,
        path: &str,
        user: &str,
        decision: &AclDecision,
        create_by: &str,
    ) -> (r: Result<i32, StoreError>)
        requires
            old(self).wf(),
        ensures
            final(self).wf(),
            r is Err <==> old(self).spec_next_id() == i32::MAX,
            r is Err ==> *final(self) == *old(self) && r == Err::<i32, StoreError>(
                StoreError::Full,
            ),
            r matches Ok(id) ==> {
                &&& id == old(self).spec_next_id()
                &&& final(self).spec_next_id() == old(self).spec_next_id() + 1
                &&& final(self)@.len() == old(self)@.len() + 1
                &&& final(self)@.drop_last() =~= old(self)@
                &&& final(self)@.last().id == id
                &&& final(self)@.last().subject@ == subject@
                &&& final(self)@.last().action@ == action.spec_str()
                &&& final(self)@.last().path@ == spec_normalize_path(path@)
                &&& final(self)@.last().user@ == user@
                &&& final(self)@.last().decision@ == decision.spec_str()
                &&& final(self)@.last().create_by@ == create_by@
            },
    {
        let now = iso8601_now();
        self.insert_acl(subject, action, path, user, decision, create_by, now.as_str())
    }

    /// Every record, in store order.
    pub fn retrieve_all_acls(&self) -> (r: Vec<DbAcl>)
        ensures
            r@ =~= self@,
    {
        let mut out: Vec<DbAcl> = Vec::new();
        let mut i: usize = 0;
        while i < self.acls.len()
            invariant
                i <= self.acls.len(),
                out@ =~= self.acls@.take(i as int),
            decreases self.acls.len() - i,
        {
            out.push(self.acls[i].duplicate());
            proof {
                assert(self.acls@.take(i + 1) =~= self.acls@.take(i as int).push(
                    self.acls@[i as int],
                ));
            }
            i = i + 1;
        }
        proof {
            assert(self.acls@.take(self.acls@.len() as int) =~= self.acls@);
        }
        out
    }

    /// The records of one subject, in store order.
    pub fn retrieve_acls_for_subject(&self, sub: &str) -> (r: Vec<DbAcl>)
        ensures
            r@ == self@.filter(subject_pred(sub@)),
    {
        let mut out: Vec<DbAcl> = Vec::new();
        let mut i: usize = 0;
        while i < self.acls.len()
            invariant
                i <= self.acls.len(),
                out@ == self.acls@.take(i as int).filter(subject_pred(sub@)),
            decreases self.acls.len() - i,
        {
            if crate::strutil::str_eq(self.acls[i].subject.as_str(), sub) {
                out.push(self.acls[i].duplicate());
            }
            proof {
                lemma_filter_take_step(self.acls@, subject_pred(sub@), i as int);
            }
            i = i + 1;
        }
        proof {
            assert(self.acls@.take(self.acls@.len() as int) =~= self.acls@);
        }
        out
    }

    /// The records of one subject acting for one user, in store order.
    pub fn retrieve_acls_for_subject_user(&self, sub: &str, usr: &str) -> (r: Vec<DbAcl>)
        ensures
            r@ == self@.filter(subject_user_pred(sub@, usr@)),
    {
        let mut out: Vec<DbAcl> = Vec::new();
        let mut i: usize = 0;
        while i < self.acls.len()
            invariant
                i <= self.acls.len(),
                out@ == self.acls@.take(i as int).filter(subject_user_pred(sub@, usr@)),
            decreases self.acls.len() - i,
        {
            if crate::strutil::str_eq(self.acls[i].subject.as_str(), sub)
                && crate::strutil::str_eq(self.acls[i].user.as_str(), usr) {
                out.push(self.acls[i].duplicate());
            }
            proof {
                lemma_filter_take_step(self.acls@, subject_user_pred(sub@, usr@), i as int);
            }
            i = i + 1;
        }
        proof {
            assert(self.acls@.take(self.acls@.len() as int) =~= self.acls@);
        }
        out
    }

    /// The records of one subject carrying one decision, in store order; the
    /// two reads the decision engine makes.
    pub fn retrieve_acls_for_subject_decision(&self, sub: &str, dec: &AclDecision) -> (r: Vec<
        DbAcl,
    >)
        ensures
            r@ == self@.filter(subject_decision_pred(sub@, dec.spec_str())),
    {
        let dec_str = dec.to_text();
        let mut out: Vec<DbAcl> = Vec::new();
        let mut i: usize = 0;
        while i < self.acls.len()
            invariant
                i <= self.acls.len(),
                dec_str@ == dec.spec_str(),
                out@ == self.acls@.take(i as int).filter(
                    subject_decision_pred(sub@, dec.spec_str()),
                ),
            decreases self.acls.len() - i,
        {
            if crate::strutil::str_eq(self.acls[i].subject.as_str(), sub)
                && crate::strutil::str_eq(self.acls[i].decision.as_str(), dec_str.as_str()) {
                out.push(self.acls[i].duplicate());
            }
            proof {
                lemma_filter_take_step(
                    self.acls@,
                    subject_decision_pred(sub@, dec.spec_str()),
                    i as int,
                );
            }
            i = i + 1;
        }
        proof {
            assert(self.acls@.take(self.acls@.len() as int) =~= self.acls@);
        }
        out
    }

    /// The record carrying `id`, or `NotFound`.
    pub fn retrieve_acl_by_id(&self, id: i32) -> (r: Result<DbAcl, StoreError>)
        ensures
            r is Ok <==> find_by_id(self@, id) is Some,
            r matches Ok(a) ==> find_by_id(self@, id) == Some(a),
            r is Err ==> r == Err::<DbAcl, StoreError>(StoreError::NotFound),
    {
        let mut i: usize = 0;
        while i < self.acls.len()
            invariant
                i <= self.acls.len(),
                forall|j: int| 0 <= j < i ==> self.acls@[j].id != id,
            decreases self.acls.len() - i,
        {
            if self.acls[i].id == id {
                proof {
                    lemma_find_by_id_hit(self.acls@, id, i as int);
                }
                return Ok(self.acls[i].duplicate());
            }
            i = i + 1;
        }
        proof {
            lemma_find_by_id_miss(self.acls@, id);
        }
        Err(StoreError::NotFound)
    }

    /// Remove the record carrying `id`; the count of removed records is
    /// returned (`0` or `1`, ids being unique).
    pub fn delete_acl_from_db_by_id(&mut self, acl_id: i32) -> (r: usize)
        requires
            old(self).wf(),
        ensures
            final(self).wf(),
            final(self)@ == old(self)@.filter(keep_other_pred(acl_id)),
            final(self).spec_next_id() == old(self).spec_next_id(),
            r == old(self)@.len() - final(self)@.len(),
    {
        let mut kept: Vec<DbAcl> = Vec::new();
        let mut i: usize = 0;
        while i < self.acls.len()
            invariant
                i <= self.acls.len(),
                kept@ == self.acls@.take(i as int).filter(keep_other_pred(acl_id)),
            decreases self.acls.len() - i,
        {
            if self.acls[i].id != acl_id {
                kept.push(self.acls[i].duplicate());
            }
            proof {
                lemma_filter_take_step(self.acls@, keep_other_pred(acl_id), i as int);
            }
            i = i + 1;
        }
        proof {
            assert(self.acls@.take(self.acls@.len() as int) =~= self.acls@);
            assert(forall|i: int, j: int|
                #![trigger self.acls@[i].id, self.acls@[j].id]
                0 <= i < j < self.acls@.len() ==> self.acls@[i].id != self.acls@[j].id) by {
                assert(forall|i: int| 0 <= i < self@.len() ==> self@[i] == self.acls@[i]);
            }
            lemma_filter_elements(self.acls@, keep_other_pred(acl_id));
            lemma_filter_distinct_ids(self.acls@, keep_other_pred(acl_id));
            self.acls@.lemma_filter_len(keep_other_pred(acl_id));
        }
        let removed = self.acls.len() - kept.len();
        let ghost orig = self.acls@;
        self.acls = kept;
        proof {
            let f = orig.filter(keep_other_pred(acl_id));
            assert forall|i: int| 0 <= i < self@.len() implies (#[trigger] self@[i]).wf_record()
                && self@[i].id < self.spec_next_id() by {
                assert(orig.contains(f[i]));
                let j = choose|j: int| 0 <= j < orig.len() && orig[j] == f[i];
                assert(old(self)@[j].wf_record());
                assert(old(self)@[j].id < old(self).spec_next_id());
            }
        }
        removed
    }

    /// Write the caller-supplied fields over the record carrying `id`; its
    /// id and creation time stay, the audit field is rewritten to the
    /// mutating caller. The count of rewritten records is returned.
    pub fn update_acl_in_db_by_id(
        &mut self,
        acl_id: i32,
        new_acl: &NewAclJson,
        new_subject: &str,
    ) -> (r: usize)
        requires
            old(self).wf(),
        ensures
            final(self).wf(),
            final(self)@.len() == old(self)@.len(),
            final(self).spec_next_id() == old(self).spec_next_id(),
            forall|i: int|
                0 <= i < old(self)@.len() && old(self)@[i].id != acl_id ==> final(self)@[i]
                    == old(self)@[i],
            forall|i: int|
                0 <= i < old(self)@.len() && old(self)@[i].id == acl_id ==> {
                    &&& (#[trigger] final(self)@[i]).id == acl_id
                    &&& final(self)@[i].subject@ == new_acl.subject@
                    &&& final(self)@[i].action@ == new_acl.action.spec_str()
                    &&& final(self)@[i].path@ == spec_normalize_path(new_acl.path@)
                    &&& final(self)@[i].user@ == new_acl.user@
                    &&& final(self)@[i].decision@ == new_acl.decision.spec_str()
                    &&& final(self)@[i].create_by@ == new_subject@
                    &&& final(self)@[i].create_time == old(self)@[i].create_time
                },
            (r == 1 <==> exists|i: int| 0 <= i < old(self)@.len() && (#[trigger] old(
                self,
            )@[i]).id == acl_id),
            (r == 0 <==> forall|i: int|
                0 <= i < old(self)@.len() ==> (#[trigger] old(self)@[i]).id != acl_id),
            r <= 1,
    {
        let ghost orig = self.acls@;
        let mut rewritten: Vec<DbAcl> = Vec::new();
        let mut count: usize = 0;
        let mut i: usize = 0;
        while i < self.acls.len()
            invariant
                self.wf(),
                self.acls@ == orig,
                i <= self.acls.len(),
                rewritten@.len() == i as int,
                count <= i,
                forall|j: int| 0 <= j < i && orig[j].id != acl_id ==> rewritten@[j] == orig[j],
                forall|j: int|
                    0 <= j < i && orig[j].id == acl_id ==> {
                        &&& (#[trigger] rewritten@[j]).id == acl_id
                        &&& rewritten@[j].subject@ == new_acl.subject@
                        &&& rewritten@[j].action@ == new_acl.action.spec_str()
                        &&& rewritten@[j].path@ == spec_normalize_path(new_acl.path@)
                        &&& rewritten@[j].user@ == new_acl.user@
                        &&& rewritten@[j].decision@ == new_acl.decision.spec_str()
                        &&& rewritten@[j].create_by@ == new_subject@
                        &&& rewritten@[j].create_time == orig[j].create_time
                    },
                (count == 1 <==> exists|j: int| 0 <= j < i && (#[trigger] orig[j]).id == acl_id),
                (count == 0 <==> forall|j: int| 0 <= j < i ==> (#[trigger] orig[j]).id != acl_id),
                count <= 1,
            decreases self.acls.len() - i,
        {
            if self.acls[i].id == acl_id {
                proof {
                    assert forall|j: int| 0 <= j < i implies (#[trigger] orig[j]).id != acl_id by {
                        assert(self@[j].id != self@[i as int].id);
                    }
                }
                let updated = DbAcl {
                    id: acl_id,
                    subject: new_acl.subject.clone(),
                    action: new_acl.action.to_text(),
                    path: normalize_path(new_acl.path.as_str()),
                    user: new_acl.user.clone(),
                    create_by: new_subject.to_owned(),
                    create_time: self.acls[i].create_time.clone(),
                    decision: new_acl.decision.to_text(),
                };
                rewritten.push(updated);
                count = count + 1;
            } else {
                rewritten.push(self.acls[i].duplicate());
            }
            i = i + 1;
        }
        proof {
            assert forall|j: int|
                0 <= j < orig.len() implies rewritten@[j].id == (#[trigger] orig[j]).id by {
                if orig[j].id != acl_id {
                    assert(rewritten@[j] == orig[j]);
                }
            }
        }
        self.acls = rewritten;
        proof {
            reveal_strlit("/");
            assert(spec_normalize_path(new_acl.path@).len() > 0);
            assert(spec_normalize_path(new_acl.path@)[0] == '/');
            assert forall|j: int| 0 <= j < self@.len() implies (#[trigger] self@[j]).wf_record()
                && self@[j].id < self.spec_next_id() by {
                assert(orig[j].wf_record());
                assert(orig[j].id < old(self).spec_next_id());
                if orig[j].id != acl_id {
                    assert(self@[j] == orig[j]);
                }
            }
            assert forall|i: int, j: int|
                #![trigger self@[i].id, self@[j].id]
                0 <= i < j < self@.len() implies self@[i].id != self@[j].id by {
                assert(self@[i].id == orig[i].id);
                assert(self@[j].id == orig[j].id);
                assert(orig[i].id != orig[j].id);
            }
        }
        count
    }
}

} // verus!
