//! Family members: a contact directory.
use vstd::prelude::*;

use crate::error::{AppError, AppErrorView};
use crate::text::{clone_opt_string, str_eq};

verus! {

/// The role of a member in the household.
#[derive(Clone, Copy, Debug, PartialEq, Eq, Structural)]
pub enum MemberRole {
    Owner,
    Member,
}

impl MemberRole {
    pub open spec fn text(self) -> Seq<char> {
        match self {
            MemberRole::Owner => "owner"@,
            MemberRole::Member => "member"@,
        }
    }

    pub open spec fn parse_spec(s: Seq<char>) -> Option<MemberRole> {
        if s == "owner"@ {
            Some(MemberRole::Owner)
        } else if s == "member"@ {
            Some(MemberRole::Member)
        } else {
            None
        }
    }

    /// The name it is stored and shown under.
    pub fn to_string(&self) -> (r: String)
        ensures
            r@ == self.text(),
    {
        match self {
            MemberRole::Owner => "owner".to_owned(),
            MemberRole::Member => "member".to_owned(),
        }
    }

    /// The value with the given name; any other text is a parse error.
    pub fn from_str(s: &str) -> (r: Result<MemberRole, AppError>)
        ensures
            match r {
                Ok(t) => MemberRole::parse_spec(s@) == Some(t),
                Err(e) => MemberRole::parse_spec(s@) is None && e@ == AppErrorView::Parse(
                    "Unknown member role: "@ + s@,
                ),
            },
    {
        if str_eq(s, "owner") {
            Ok(MemberRole::Owner)
        } else if str_eq(s, "member") {
            Ok(MemberRole::Member)
        } else {
            Err(AppError::Parse("Unknown member role: ".to_owned().concat(s)))
        }
    }

    /// Parsing the name of a role gives that role back.
    pub proof fn lemma_text_roundtrip(t: MemberRole)
        ensures
            MemberRole::parse_spec(t.text()) == Some(t),
    {
        reveal_strlit("owner");
        reveal_strlit("member");
        assert("owner"@[0] == 'o' && "member"@[0] == 'm');
    }
}

/// A member's gender.
#[derive(Clone, Copy, Debug, PartialEq, Eq, Structural)]
pub enum Gender {
    Male,
    Female,
    Other,
}

impl Gender {
    pub open spec fn text(self) -> Seq<char> {
        match self {
            Gender::Male => "male"@,
            Gender::Female => "female"@,
            Gender::Other => "other"@,
        }
    }

    pub open spec fn parse_spec(s: Seq<char>) -> Option<Gender> {
        if s == "male"@ {
            Some(Gender::Male)
        } else if s == "female"@ {
            Some(Gender::Female)
        } else if s == "other"@ {
            Some(Gender::Other)
        } else {
            None
        }
    }

    /// The name it is stored and shown under.
    pub fn to_string(&self) -> (r: String)
        ensures
            r@ == self.text(),
    {
        match self {
            Gender::Male => "male".to_owned(),
            Gender::Female => "female".to_owned(),
            Gender::Other => "other".to_owned(),
        }
    }

    /// The value with the given name; any other text is a parse error.
    pub fn from_str(s: &str) -> (r: Result<Gender, AppError>)
        ensures
            match r {
                Ok(t) => Gender::parse_spec(s@) == Some(t),
                Err(e) => Gender::parse_spec(s@) is None && e@ == AppErrorView::Parse(
                    "Unknown gender: "@ + s@,
                ),
            },
    {
        if str_eq(s, "male") {
            Ok(Gender::Male)
        } else if str_eq(s, "female") {
            Ok(Gender::Female)
        } else if str_eq(s, "other") {
            Ok(Gender::Other)
        } else {
            Err(AppError::Parse("Unknown gender: ".to_owned().concat(s)))
        }
    }

    /// Parsing the name of a gender gives that gender back.
    pub proof fn lemma_text_roundtrip(t: Gender)
        ensures
            Gender::parse_spec(t.text()) == Some(t),
    {
        reveal_strlit("male");
        reveal_strlit("female");
        reveal_strlit("other");
        assert("male"@[0] == 'm' && "female"@[0] == 'f' && "other"@[0] == 'o');
    }
}

/// A member of the household.
#[derive(Clone, Debug, PartialEq)]
pub struct Member {
    pub id: String,
    pub family_id: Option<String>,
    pub full_name: String,
    pub birth_date: Option<i64>,
    pub gender: Option<Gender>,
    pub phone: Option<String>,
    pub id_number: Option<String>,
    pub id_issue_date: Option<i64>,
    pub id_issue_place: Option<String>,
    pub address: Option<String>,
    pub role: MemberRole,
    pub avatar_emoji: Option<String>,
    pub note: Option<String>,
    pub created_at: i64,
}

impl Member {
    /// The emoji shown for the member: their own, or a default silhouette.
    pub fn avatar(&self) -> (r: String)
        ensures
            match self.avatar_emoji {
                Some(e) => r@ == e@,
                None => r@ == "\u{1F464}"@,
            },
    {
        match &self.avatar_emoji {
            Some(e) => e.clone(),
            None => "\u{1F464}".to_owned(),
        }
    }

    /// A field-by-field copy.
    pub fn duplicate(&self) -> (r: Member)
        ensures
            r == *self,
    {
        Member {
            id: self.id.clone(),
            family_id: clone_opt_string(&self.family_id),
            full_name: self.full_name.clone(),
            birth_date: self.birth_date,
            gender: self.gender,
            phone: clone_opt_string(&self.phone),
            id_number: clone_opt_string(&self.id_number),
            id_issue_date: self.id_issue_date,
            id_issue_place: clone_opt_string(&self.id_issue_place),
            address: clone_opt_string(&self.address),
            role: self.role,
            avatar_emoji: clone_opt_string(&self.avatar_emoji),
            note: clone_opt_string(&self.note),
            created_at: self.created_at,
        }
    }
}

/// The fields of a member about to be created.
#[derive(Clone, Debug, PartialEq)]
pub struct NewMember {
    pub family_id: Option<String>,
    pub full_name: String,
    pub birth_date: Option<i64>,
    pub gender: Option<Gender>,
    pub phone: Option<String>,
    pub id_number: Option<String>,
    pub id_issue_date: Option<i64>,
    pub id_issue_place: Option<String>,
    pub address: Option<String>,
    pub role: MemberRole,
    pub avatar_emoji: Option<String>,
    pub note: Option<String>,
}

} // verus!
