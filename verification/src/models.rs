//! The ACL data model: the closed action and decision enumerations, the
//! persisted record shape, and the record shapes used when creating records.

use vstd::prelude::*;

verus! {

use crate::strutil::str_eq;

/// Whether a persisted action string is one of the closed enumeration.
pub open spec fn valid_action_str(s: Seq<char>) -> bool {
    s == "Read"@ || s == "Execute"@ || s == "Write"@
}

/// Whether a persisted decision string is one of the closed enumeration.
pub open spec fn valid_decision_str(s: Seq<char>) -> bool {
    s == "Allow"@ || s == "Deny"@
}

/// The action order `Read < Execute < Write`, on persisted action strings:
/// `action_leq(a, b)` holds when `a` names an action no higher than `b`.
/// A string outside the enumeration is ranked like `Write`, as the record
/// methods treat it; well-formed stores never hold one.
pub open spec fn action_leq(a: Seq<char>, b: Seq<char>) -> bool {
    if a == "Read"@ {
        true
    } else if a == "Execute"@ {
        b == "Execute"@ || b == "Write"@
    } else {
        b == "Write"@
    }
}

/// The five enumeration literals are pairwise distinct strings; spelled out
/// once so proofs about the closed enumerations do not re-reveal them.
pub proof fn lemma_acl_literals_distinct()
    ensures
        "Read"@ != "Execute"@,
        "Read"@ != "Write"@,
        "Execute"@ != "Write"@,
        "Allow"@ != "Deny"@,
{
    reveal_strlit("Read");
    reveal_strlit("Execute");
    reveal_strlit("Write");
    reveal_strlit("Allow");
    reveal_strlit("Deny");
    assert("Read"@.len() == 4);
    assert("Execute"@.len() == 7);
    assert("Write"@.len() == 5);
    assert("Allow"@.len() == 5);
    assert("Deny"@.len() == 4);
    assert("Write"@[0] == 'W');
    assert("Allow"@[0] == 'A');
    assert("Read"@[0] == 'R');
    assert("Deny"@[0] == 'D');
}

/// One of the ordered enumeration of actions a policy rule covers.
#[derive(Clone, Copy, Debug, PartialEq, Eq, Structural)]
pub enum AclAction {
    Read,
    Execute,
    Write,
}

impl AclAction {
    /// The canonical string form, as persisted in a record.
    pub open spec fn spec_str(self) -> Seq<char> {
        match self {
            AclAction::Read => "Read"@,
            AclAction::Execute => "Execute"@,
            AclAction::Write => "Write"@,
        }
    }

    /// Render the canonical string form.
    pub fn to_text(&self) -> (s: String)
        ensures
            s@ == self.spec_str(),
            valid_action_str(s@),
    {
        match self {
            AclAction::Read => String::from_str("Read"),
            AclAction::Execute => String::from_str("Execute"),
            AclAction::Write => String::from_str("Write"),
        }
    }

    /// Parse a string against the closed enumeration; anything else is
    /// rejected with `None`.
    pub fn parse(s: &str) -> (r: Option<AclAction>)
        ensures
            r is Some <==> valid_action_str(s@),
            r matches Some(a) ==> a.spec_str() == s@,
    {
        if str_eq(s, "Read") {
            Some(AclAction::Read)
        } else if str_eq(s, "Execute") {
            Some(AclAction::Execute)
        } else if str_eq(s, "Write") {
            Some(AclAction::Write)
        } else {
            None
        }
    }
}

/// One of the closed enumeration of decisions a policy rule carries.
#[derive(Clone, Copy, Debug, PartialEq, Eq, Structural)]
pub enum AclDecision {
    Allow,
    Deny,
}

impl AclDecision {
    /// The canonical string form, as persisted in a record.
    pub open spec fn spec_str(self) -> Seq<char> {
        match self {
            AclDecision::Allow => "Allow"@,
            AclDecision::Deny => "Deny"@,
        }
    }

    /// Render the canonical string form.
    pub fn to_text(&self) -> (s: String)
        ensures
            s@ == self.spec_str(),
            valid_decision_str(s@),
    {
        match self {
            AclDecision::Allow => String::from_str("Allow"),
            AclDecision::Deny => String::from_str("Deny"),
        }
    }

    /// Parse a string against the closed enumeration; anything else is
    /// rejected with `None`.
    pub fn parse(s: &str) -> (r: Option<AclDecision>)
        ensures
            r is Some <==> valid_decision_str(s@),
            r matches Some(d) ==> d.spec_str() == s@,
    {
        if str_eq(s, "Allow") {
            Some(AclDecision::Allow)
        } else if str_eq(s, "Deny") {
            Some(AclDecision::Deny)
        } else {
            None
        }
    }
}

/// A persisted policy record, id included.
#[derive(Debug, PartialEq)]
pub struct DbAcl {
    pub id: i32,
    pub subject: String,
    pub action: String,
    pub path: String,
    pub user: String,
    pub create_by: String,
    pub create_time: String,
    pub decision: String,
}

impl DbAcl {
    /// The invariant every persisted record satisfies: the path is rooted
    /// and the action and decision are drawn from their closed enumerations.
    pub open spec fn wf_record(self) -> bool {
        &&& self.path@.len() > 0
        &&& self.path@[0] == '/'
        &&& valid_action_str(self.action@)
        &&& valid_decision_str(self.decision@)
    }

    /// Whether this record's action is no higher than `action` in the order
    /// `Read < Execute < Write`.
    pub fn is_leq_action(&self, action: &str) -> (r: bool)
        ensures
            r == action_leq(self.action@, action@),
    {
        if str_eq(self.action.as_str(), "Read") {
            true
        } else if str_eq(self.action.as_str(), "Execute") {
            str_eq(action, "Execute") || str_eq(action, "Write")
        } else {
            str_eq(action, "Write")
        }
    }

    /// A field-for-field copy of the record.
    pub fn duplicate(&self) -> (r: DbAcl)
        ensures
            r == *self,
    {
        DbAcl {
            id: self.id,
            subject: self.subject.clone(),
            action: self.action.clone(),
            path: self.path.clone(),
            user: self.user.clone(),
            create_by: self.create_by.clone(),
            create_time: self.create_time.clone(),
            decision: self.decision.clone(),
        }
    }
}

/// A record to insert, all server-side fields already resolved; the id is
/// assigned by the store.
#[derive(Debug)]
pub struct NewAcl<'a> {
    pub subject: &'a str,
    pub action: &'a str,
    pub path: &'a str,
    pub user: &'a str,
    pub create_by: &'a str,
    pub create_time: &'a str,
    pub decision: &'a str,
}

/// A caller-supplied description of a rule to create or to write over an
/// existing record; the action and decision are already parsed against
/// their closed enumerations.
#[derive(Debug)]
pub struct NewAclJson {
    pub subject: String,
    pub action: AclAction,
    pub decision: AclDecision,
    pub path: String,
    pub user: String,
}

} // verus!
