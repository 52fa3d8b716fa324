//! The member form, the family form, and small helpers of the member screens.
use vstd::prelude::*;

use vstd::string::StringSliceAdditionalSpecFns;
use vstd::utf8::{decode_utf8, encode_utf8_decode_utf8, is_char_boundary};

use crate::models::family::{Family, NewFamily};
use crate::models::member::{Gender, Member, MemberRole, NewMember};
use crate::screens::transaction_form::optional_text;
use crate::display::{date_str_to_ts, ymd_of_text};
use crate::text::{clone_opt_string, opt_text, trim, trimmed_text};

verus! {

/// An optional field trimmed: nothing when blank.
pub open spec fn trimmed_optional(s: Seq<char>) -> Option<Seq<char>> {
    if trimmed_text(s).len() == 0 {
        None
    } else {
        Some(trimmed_text(s))
    }
}

fn trimmed_field(s: &String) -> (r: Option<String>)
    ensures
        opt_text(r) == trimmed_optional(s@),
{
    let t = trim(s.as_str());
    if t.as_str().is_empty() {
        None
    } else {
        Some(t)
    }
}

fn optional_field(s: &String) -> (r: Option<String>)
    ensures
        opt_text(r) == optional_text(s@),
{
    if s.as_str().is_empty() {
        None
    } else {
        Some(s.clone())
    }
}

/// The fields of the member form, as typed; the dates as `YYYY-MM-DD`.
#[derive(Clone, Debug)]
pub struct MemberForm {
    pub full_name: String,
    pub family_id: Option<String>,
    pub role: MemberRole,
    pub gender: Option<Gender>,
    pub avatar_emoji: String,
    pub phone: String,
    pub address: String,
    pub birth_date: String,
    pub id_number: String,
    pub id_issue_date: String,
    pub id_issue_place: String,
    pub note: String,
}

/// The member the form describes.
pub open spec fn member_fields(n: NewMember, f: MemberForm) -> bool {
    &&& n.family_id == f.family_id
    &&& n.full_name@ == trimmed_text(f.full_name@)
    &&& (ymd_of_text(f.birth_date@) is None ==> n.birth_date is None)
    &&& n.gender == f.gender
    &&& opt_text(n.phone) == trimmed_optional(f.phone@)
    &&& opt_text(n.id_number) == trimmed_optional(f.id_number@)
    &&& (ymd_of_text(f.id_issue_date@) is None ==> n.id_issue_date is None)
    &&& opt_text(n.id_issue_place) == trimmed_optional(f.id_issue_place@)
    &&& opt_text(n.address) == trimmed_optional(f.address@)
    &&& n.role == f.role
    &&& opt_text(n.avatar_emoji) == trimmed_optional(f.avatar_emoji@)
    &&& opt_text(n.note) == trimmed_optional(f.note@)
}

/// What a submitted member form saves.
#[derive(Debug, PartialEq)]
pub enum MemberFormOutcome {
    /// The member being edited, with the form's fields.
    Update(Member),
    /// A member to create.
    Create(NewMember),
}

impl MemberForm {
    /// The member the form describes: "Full name is required" when the name
    /// is blank; text fields are trimmed, and left out when blank; a date
    /// that is not `YYYY-MM-DD` is left out, a date that is becomes its local
    /// noon.
    pub fn to_member(&self) -> (r: Result<NewMember, String>)
        ensures
            trimmed_text(self.full_name@).len() == 0 ==> (r matches Err(m) && m@
                == "Full name is required"@),
            trimmed_text(self.full_name@).len() > 0 ==> (r matches Ok(n) && member_fields(n, *self)),
    {
        proof {
            reveal_strlit("Full name is required");
        }
        let name = trim(self.full_name.as_str());
        if name.as_str().is_empty() {
            return Err("Full name is required".to_owned());
        }
        Ok(
            NewMember {
                family_id: clone_opt_string(&self.family_id),
                full_name: name,
                birth_date: date_str_to_ts(self.birth_date.as_str()),
                gender: self.gender,
                phone: trimmed_field(&self.phone),
                id_number: trimmed_field(&self.id_number),
                id_issue_date: date_str_to_ts(self.id_issue_date.as_str()),
                id_issue_place: trimmed_field(&self.id_issue_place),
                address: trimmed_field(&self.address),
                role: self.role,
                avatar_emoji: trimmed_field(&self.avatar_emoji),
                note: trimmed_field(&self.note),
            },
        )
    }

    /// What submitting the form saves: the edited member with every field of
    /// the form (its id and creation time kept), or a new member.
    pub fn submit(&self, editing: Option<&Member>) -> (r: Result<MemberFormOutcome, String>)
        ensures
            trimmed_text(self.full_name@).len() == 0 ==> (r matches Err(m) && m@
                == "Full name is required"@),
            trimmed_text(self.full_name@).len() > 0 ==> match editing {
                Some(old) => r matches Ok(MemberFormOutcome::Update(m)) && {
                    &&& m.id == old.id
                    &&& m.created_at == old.created_at
                    &&& member_fields(
                        NewMember {
                            family_id: m.family_id,
                            full_name: m.full_name,
                            birth_date: m.birth_date,
                            gender: m.gender,
                            phone: m.phone,
                            id_number: m.id_number,
                            id_issue_date: m.id_issue_date,
                            id_issue_place: m.id_issue_place,
                            address: m.address,
                            role: m.role,
                            avatar_emoji: m.avatar_emoji,
                            note: m.note,
                        },
                        *self,
                    )
                },
                None => r matches Ok(MemberFormOutcome::Create(n)) && member_fields(n, *self),
            },
    {
        let n = match self.to_member() {
            Ok(n) => n,
            Err(e) => return Err(e),
        };
        match editing {
            Some(old) => Ok(
                MemberFormOutcome::Update(
                    Member {
                        id: old.id.clone(),
                        family_id: n.family_id,
                        full_name: n.full_name,
                        birth_date: n.birth_date,
                        gender: n.gender,
                        phone: n.phone,
                        id_number: n.id_number,
                        id_issue_date: n.id_issue_date,
                        id_issue_place: n.id_issue_place,
                        address: n.address,
                        role: n.role,
                        avatar_emoji: n.avatar_emoji,
                        note: n.note,
                        created_at: old.created_at,
                    },
                ),
            ),
            None => Ok(MemberFormOutcome::Create(n)),
        }
    }

    /// The avatar shown while editing: the one typed, or a default face.
    pub fn avatar_preview(&self) -> (r: String)
        ensures
            self.avatar_emoji@.len() == 0 ==> r@ == "\u{1F9D1}"@,
            self.avatar_emoji@.len() > 0 ==> r@ == self.avatar_emoji@,
    {
        if self.avatar_emoji.as_str().is_empty() {
            "\u{1F9D1}".to_owned()
        } else {
            self.avatar_emoji.clone()
        }
    }
}

/// The fields of the family form, as typed.
#[derive(Clone, Debug)]
pub struct FamilyForm {
    pub name: String,
    pub common_address: String,
    pub note: String,
}

/// What a submitted family form saves.
#[derive(Debug, PartialEq)]
pub enum FamilyFormOutcome {
    /// The family being edited, with the form's fields.
    Update(Family),
    /// A family to create.
    Create(NewFamily),
}

impl FamilyForm {
    /// What submitting the form saves; nothing when the name is blank. The
    /// name is trimmed; the address and note are left out when empty.
    pub fn submit(&self, editing: Option<&Family>) -> (r: Option<FamilyFormOutcome>)
        ensures
            trimmed_text(self.name@).len() == 0 ==> r is None,
            trimmed_text(self.name@).len() > 0 ==> match editing {
                Some(old) => r matches Some(FamilyFormOutcome::Update(f)) && {
                    &&& f.id == old.id
                    &&& f.name@ == trimmed_text(self.name@)
                    &&& opt_text(f.common_address) == optional_text(self.common_address@)
                    &&& opt_text(f.note) == optional_text(self.note@)
                    &&& f.created_at == old.created_at
                },
                None => r matches Some(FamilyFormOutcome::Create(n)) && {
                    &&& n.name@ == trimmed_text(self.name@)
                    &&& opt_text(n.common_address) == optional_text(self.common_address@)
                    &&& opt_text(n.note) == optional_text(self.note@)
                },
            },
    {
        let name = trim(self.name.as_str());
        if name.as_str().is_empty() {
            return None;
        }
        let common_address = optional_field(&self.common_address);
        let note = optional_field(&self.note);
        match editing {
            Some(old) => Some(
                FamilyFormOutcome::Update(
                    Family { id: old.id.clone(), name, common_address, note, created_at: old.created_at },
                ),
            ),
            None => Some(FamilyFormOutcome::Create(NewFamily { name, common_address, note })),
        }
    }
}

/// The script that copies `text` to the clipboard from a member's page.
pub fn clipboard_script(text: &str) -> (r: String)
    ensures
        r@ == "navigator.clipboard.writeText('"@ + text@ + "').catch(()=>{})"@,
{
    "navigator.clipboard.writeText('".to_owned().concat(text).concat("').catch(()=>{})")
}

/// A text shortened for a list row: when it is longer than `max` bytes, its
/// first `max` bytes followed by `…` (the cut must fall between two
/// characters).
pub fn preview(text: &str, max: usize) -> (r: String)
    requires
        text.len() > max ==> is_char_boundary(text.spec_bytes(), max as int),
    ensures
        text.len() <= max ==> r@ == text@,
        text.len() > max ==> r@ == decode_utf8(text.spec_bytes().subrange(0, max as int)) + "\u{2026}"@,
{
    if text.len() > max {
        let (head, _) = text.split_at(max);
        proof {
            encode_utf8_decode_utf8(head@);
        }
        head.to_owned().concat("\u{2026}")
    } else {
        text.to_owned()
    }
}

} // verus!
