//! Contact entity snapshots and the declarative query filter over them.
use vstd::prelude::*;

verus! {

#[derive(Debug, Copy, Clone, PartialEq, Eq, Structural)]
pub enum ContactGender {
    Unknown,
    Male,
    Female,
}

#[derive(Debug, Copy, Clone, PartialEq, Eq, Structural)]
pub enum ContactType {
    Unknown,
    Individual,
    Official,
    Corporation,
}

pub open spec fn spec_contact_gender_from_code(code: i32) -> Option<ContactGender> {
    if code == 0 {
        Some(ContactGender::Unknown)
    } else if code == 1 {
        Some(ContactGender::Male)
    } else if code == 2 {
        Some(ContactGender::Female)
    } else {
        None
    }
}

/// Decodes the wire representation of a contact gender.
pub fn contact_gender_from_code(code: i32) -> (r: Option<ContactGender>)
    ensures
        r == spec_contact_gender_from_code(code),
{
    if code == 0 {
        Some(ContactGender::Unknown)
    } else if code == 1 {
        Some(ContactGender::Male)
    } else if code == 2 {
        Some(ContactGender::Female)
    } else {
        None
    }
}

pub open spec fn spec_contact_type_from_code(code: i32) -> Option<ContactType> {
    if code == 0 {
        Some(ContactType::Unknown)
    } else if code == 1 {
        Some(ContactType::Individual)
    } else if code == 2 {
        Some(ContactType::Official)
    } else if code == 3 {
        Some(ContactType::Corporation)
    } else {
        None
    }
}

/// Decodes the wire representation of a contact type.
pub fn contact_type_from_code(code: i32) -> (r: Option<ContactType>)
    ensures
        r == spec_contact_type_from_code(code),
{
    if code == 0 {
        Some(ContactType::Unknown)
    } else if code == 1 {
        Some(ContactType::Individual)
    } else if code == 2 {
        Some(ContactType::Official)
    } else if code == 3 {
        Some(ContactType::Corporation)
    } else {
        None
    }
}

/// Immutable snapshot of a contact's server-side state, keyed by contact id.
#[derive(Debug, Clone, PartialEq)]
pub struct ContactPayload {
    pub id: String,
    pub gender: ContactGender,
    pub contact_type: ContactType,
    pub name: String,
    pub avatar: String,
    pub address: String,
    pub alias: String,
    pub city: String,
    pub friend: bool,
    pub province: String,
    pub signature: String,
    pub star: bool,
    pub weixin: String,
    pub corporation: String,
    pub title: String,
    pub description: String,
    pub coworker: bool,
    pub phone: Vec<String>,
}

impl ContactPayload {
    /// Assembles a snapshot from the plain fields of a raw transport
    /// response. The gender and type codes must be valid wire codes.
    pub fn from_parts(
        id: String,
        gender: i32,
        contact_type: i32,
        name: String,
        avatar: String,
        address: String,
        alias: String,
        city: String,
        friend: bool,
        province: String,
        signature: String,
        star: bool,
        weixin: String,
        corporation: String,
        title: String,
        description: String,
        coworker: bool,
        phone: Vec<String>,
    ) -> (r: ContactPayload)
        requires
            spec_contact_gender_from_code(gender) is Some,
            spec_contact_type_from_code(contact_type) is Some,
        ensures
            r.id == id,
            Some(r.gender) == spec_contact_gender_from_code(gender),
            Some(r.contact_type) == spec_contact_type_from_code(contact_type),
            r.name == name,
            r.avatar == avatar,
            r.address == address,
            r.alias == alias,
            r.city == city,
            r.friend == friend,
            r.province == province,
            r.signature == signature,
            r.star == star,
            r.weixin == weixin,
            r.corporation == corporation,
            r.title == title,
            r.description == description,
            r.coworker == coworker,
            r.phone == phone,
    {
        let g = contact_gender_from_code(gender);
        let t = contact_type_from_code(contact_type);
        ContactPayload {
            id,
            gender: g.unwrap(),
            contact_type: t.unwrap(),
            name,
            avatar,
            address,
            alias,
            city,
            friend,
            province,
            signature,
            star,
            weixin,
            corporation,
            title,
            description,
            coworker,
            phone,
        }
    }
}

/// Declarative contact query: every populated field must match (string
/// equality), the `_regex` fields by pattern match; absent fields impose no
/// constraint.
#[derive(Debug, Clone, PartialEq)]
pub struct ContactQueryFilter {
    pub alias: Option<String>,
    pub alias_regex: Option<String>,
    pub id: Option<String>,
    pub name: Option<String>,
    pub name_regex: Option<String>,
    pub weixin: Option<String>,
}

impl ContactQueryFilter {
    /// The filter with no constraints at all: it matches every payload.
    pub open spec fn spec_empty() -> ContactQueryFilter {
        ContactQueryFilter {
            alias: None,
            alias_regex: None,
            id: None,
            name: None,
            name_regex: None,
            weixin: None,
        }
    }
}

impl Default for ContactQueryFilter {
    fn default() -> (r: Self)
        ensures
            r == ContactQueryFilter::spec_empty(),
    {
        ContactQueryFilter {
            alias: None,
            alias_regex: None,
            id: None,
            name: None,
            name_regex: None,
            weixin: None,
        }
    }
}

} // verus!
