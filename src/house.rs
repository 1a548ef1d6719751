//! The house records: collection entries and the versioned house document.

use vstd::prelude::*;
use vstd::string::StringExecFns;
use crate::token::new_token;

verus! {

/// An entry of the house collection: who created it and who may use it.
#[derive(Debug, Clone)]
pub struct House {
    pub id: String,
    pub name: String,
    pub creator: String,
    pub members: Vec<HouseMember>,
}

/// What a client submits to create a house.
#[derive(Debug, Clone)]
pub struct CreateHouseForm {
    pub name: String,
}

/// A user that a house's creator has admitted.
#[derive(Debug, Clone)]
pub struct HouseMember {
    pub user_id: String,
    pub username: String,
}

/// What a client submits to replace a house's members.
#[derive(Debug, Clone)]
pub struct SetHouseMembersForm {
    pub usernames: Vec<String>,
}

/// The versioned document of one house: its tree of areas, and the token
/// of the revision it is.
#[derive(Debug)]
pub struct HouseDetail {
    pub version: String,
    pub name: String,
    pub items: Vec<HouseArea>,
}

/// A room, cupboard or item: a node of the house's tree, whose children
/// keep their display order.
#[derive(Debug)]
pub struct HouseArea {
    pub id: String,
    pub name: String,
    pub content: String,
    pub images: Vec<String>,
    pub items: Vec<HouseArea>,
}

impl House {
    /// A new house with a fresh identifier and no members.
    pub fn new(name: &str, creator: &str) -> (r: House)
        ensures
            r.name@ == name@,
            r.creator@ == creator@,
            r.members@.len() == 0,
    {
        House {
            id: new_token(),
            name: String::from_str(name),
            creator: String::from_str(creator),
            members: Vec::new(),
        }
    }
}

impl HouseDetail {
    /// An empty document at a fresh version.
    pub fn new() -> (r: HouseDetail)
        ensures
            r.name@.len() == 0,
            r.items@.len() == 0,
    {
        HouseDetail { version: new_token(), name: String::new(), items: Vec::new() }
    }
}

} // verus!
