//! The house collection: lookup, access rules, creation, deletion and
//! membership.

use vstd::prelude::*;
use crate::error::AppError;
use crate::house::{CreateHouseForm, House, HouseDetail, HouseMember};
use crate::text::text_eq;
use crate::token::new_token;
use crate::user::User;

verus! {

/// Whether `user_id` is among the members of `h`.
pub open spec fn is_member(h: House, user_id: Seq<char>) -> bool {
    exists|j: int| 0 <= j < h.members@.len() && (#[trigger] h.members@[j]).user_id@ == user_id
}

/// Whether `user_id` may see and edit `h`: its creator or one of its members.
pub open spec fn can_access(h: House, user_id: Seq<char>) -> bool {
    h.creator@ == user_id || is_member(h, user_id)
}

/// `i` is the first house of `houses` whose identifier is `id`.
pub open spec fn first_with_id(houses: Seq<House>, id: Seq<char>, i: int) -> bool {
    &&& 0 <= i < houses.len()
    &&& houses[i].id@ == id
    &&& forall|j: int| 0 <= j < i ==> (#[trigger] houses[j]).id@ != id
}

pub open spec fn has_house(houses: Seq<House>, id: Seq<char>) -> bool {
    exists|i: int| 0 <= i < houses.len() && (#[trigger] houses[i]).id@ == id
}

/// `i` is the first user of `users` whose login name is `name`.
pub open spec fn first_named(users: Seq<User>, name: Seq<char>, i: int) -> bool {
    &&& 0 <= i < users.len()
    &&& users[i].username@ == name
    &&& forall|j: int| 0 <= j < i ==> (#[trigger] users[j]).username@ != name
}

/// The member entry that a login name resolves to, if some user has it.
pub open spec fn member_for(users: Seq<User>, name: Seq<char>) -> Option<HouseMember> {
    if exists|i: int| first_named(users, name, i) {
        let i = choose|i: int| first_named(users, name, i);
        Some(HouseMember { user_id: users[i].id, username: users[i].username })
    } else {
        None
    }
}

/// The members that a list of login names resolves to, in the list's
/// order; names that no user has are left out.
pub open spec fn resolve_members(users: Seq<User>, names: Seq<String>) -> Seq<HouseMember> {
    names.filter_map(|n: String| member_for(users, n@))
}

/// The houses that `user_id` may see, in their stored order.
pub open spec fn visible_houses(houses: Seq<House>, user_id: Seq<char>) -> Seq<House> {
    houses.filter(|h: House| can_access(h, user_id))
}

pub proof fn lemma_first_named_unique(users: Seq<User>, name: Seq<char>, i: int, k: int)
    requires
        first_named(users, name, i),
        first_named(users, name, k),
    ensures
        i == k,
{
    if i < k {
        assert(users[i].username@ != name);
    } else if k < i {
        assert(users[k].username@ != name);
    }
}

/// The first house whose identifier is `id`, if any.
pub fn find_house(houses: &Vec<House>, id: &str) -> (r: Option<usize>)
    ensures
        match r {
            Some(i) => first_with_id(houses@, id@, i as int),
            None => !has_house(houses@, id@),
        },
{
    let mut i: usize = 0;
    while i < houses.len()
        invariant
            i <= houses.len(),
            forall|j: int| 0 <= j < i ==> (#[trigger] houses@[j]).id@ != id@,
        decreases houses.len() - i,
    {
        if text_eq(houses[i].id.as_str(), id) {
            return Some(i);
        }
        i = i + 1;
    }
    None
}

/// The first user whose login name is `name`, if any.
pub fn find_user_named(users: &Vec<User>, name: &str) -> (r: Option<usize>)
    ensures
        match r {
            Some(i) => first_named(users@, name@, i as int),
            None => forall|j: int| 0 <= j < users@.len() ==> (#[trigger] users@[j]).username@ != name@,
        },
{
    let mut i: usize = 0;
    while i < users.len()
        invariant
            i <= users.len(),
            forall|j: int| 0 <= j < i ==> (#[trigger] users@[j]).username@ != name@,
        decreases users.len() - i,
    {
        if text_eq(users[i].username.as_str(), name) {
            return Some(i);
        }
        i = i + 1;
    }
    None
}

/// Whether `user_id` is among the members of `h`.
pub fn has_member(h: &House, user_id: &str) -> (r: bool)
    ensures
        r == is_member(*h, user_id@),
{
    let mut j: usize = 0;
    while j < h.members.len()
        invariant
            j <= h.members.len(),
            forall|k: int| 0 <= k < j ==> (#[trigger] h.members@[k]).user_id@ != user_id@,
        decreases h.members.len() - j,
    {
        if text_eq(h.members[j].user_id.as_str(), user_id) {
            return true;
        }
        j = j + 1;
    }
    false
}

/// Whether `user_id` may see and edit `h`.
pub fn may_access(h: &House, user_id: &str) -> (r: bool)
    ensures
        r == can_access(*h, user_id@),
{
    text_eq(h.creator.as_str(), user_id) || has_member(h, user_id)
}

/// The position of house `house_id`, where `user_id` may see and edit it.
/// Fails with `HouseNotFound` where no house has that identifier, and with
/// `PermissionDenied` where the user is neither its creator nor a member.
pub fn check_house_access(houses: &Vec<House>, house_id: &str, user_id: &str) -> (r: Result<
    usize,
    AppError,
>)
    ensures
        r matches Ok(i) ==> first_with_id(houses@, house_id@, i as int),
        !has_house(houses@, house_id@) ==> r == Err::<usize, AppError>(AppError::HouseNotFound),
        forall|i: int|
            first_with_id(houses@, house_id@, i) ==> if can_access(houses@[i], user_id@) {
                r == Ok::<usize, AppError>(i as usize)
            } else {
                r == Err::<usize, AppError>(AppError::PermissionDenied)
            },
{
    match find_house(houses, house_id) {
        None => Err(AppError::HouseNotFound),
        Some(i) => {
            proof {
                assert forall|k: int| first_with_id(houses@, house_id@, k) implies k == i by {
                    if k < i {
                        assert(houses@[k].id@ != house_id@);
                    } else if i < k {
                        assert(houses@[i as int].id@ != house_id@);
                    }
                }
            }
            if may_access(&houses[i], user_id) {
                Ok(i)
            } else {
                Err(AppError::PermissionDenied)
            }
        },
    }
}

/// The position of house `house_id`, where `user_id` created it. Fails with
/// `HouseNotFound` where no house has that identifier, and with
/// `PermissionDenied` where the user did not create it.
pub fn check_house_owner(houses: &Vec<House>, house_id: &str, user_id: &str) -> (r: Result<
    usize,
    AppError,
>)
    ensures
        r matches Ok(i) ==> first_with_id(houses@, house_id@, i as int),
        !has_house(houses@, house_id@) ==> r == Err::<usize, AppError>(AppError::HouseNotFound),
        forall|i: int|
            first_with_id(houses@, house_id@, i) ==> if houses@[i].creator@ == user_id@ {
                r == Ok::<usize, AppError>(i as usize)
            } else {
                r == Err::<usize, AppError>(AppError::PermissionDenied)
            },
{
    match find_house(houses, house_id) {
        None => Err(AppError::HouseNotFound),
        Some(i) => {
            proof {
                assert forall|k: int| first_with_id(houses@, house_id@, k) implies k == i by {
                    if k < i {
                        assert(houses@[k].id@ != house_id@);
                    } else if i < k {
                        assert(houses@[i as int].id@ != house_id@);
                    }
                }
            }
            if text_eq(houses[i].creator.as_str(), user_id) {
                Ok(i)
            } else {
                Err(AppError::PermissionDenied)
            }
        },
    }
}

/// Removes house `house_id` from the collection, where `user_id` created
/// it. On failure (as `check_house_owner` says) the collection is unchanged.
pub fn delete_house(houses: &mut Vec<House>, house_id: &str, user_id: &str) -> (r: Result<
    (),
    AppError,
>)
    ensures
        !has_house(old(houses)@, house_id@) ==> r == Err::<(), AppError>(AppError::HouseNotFound),
        forall|i: int|
            first_with_id(old(houses)@, house_id@, i) ==> if old(houses)@[i].creator@ == user_id@ {
                r == Ok::<(), AppError>(())
            } else {
                r == Err::<(), AppError>(AppError::PermissionDenied)
            },
        r is Ok ==> exists|i: int|
            first_with_id(old(houses)@, house_id@, i) && final(houses)@ == old(houses)@.remove(i),
        r is Err ==> final(houses)@ == old(houses)@,
{
    match check_house_owner(houses, house_id, user_id) {
        Err(e) => Err(e),
        Ok(i) => {
            houses.remove(i);
            Ok(())
        },
    }
}

/// The member entries that `names` resolve to among `users`, in the order
/// of `names`; a name that no user has is left out.
pub fn members_for(users: &Vec<User>, names: &Vec<String>) -> (r: Vec<HouseMember>)
    ensures
        r@ == resolve_members(users@, names@),
{
    let mut r: Vec<HouseMember> = Vec::new();
    let mut i: usize = 0;
    while i < names.len()
        invariant
            i <= names.len(),
            r@ == resolve_members(users@, names@.subrange(0, i as int)),
        decreases names.len() - i,
    {
        let ghost prefix = names@.subrange(0, i as int + 1);
        assert(prefix.drop_last() =~= names@.subrange(0, i as int));
        assert(prefix.last() == names@[i as int]);
        match find_user_named(users, names[i].as_str()) {
            Some(k) => {
                proof {
                    let name = names@[i as int]@;
                    assert(first_named(users@, name, k as int));
                    let c = choose|c: int| first_named(users@, name, c);
                    lemma_first_named_unique(users@, name, c, k as int);
                }
                let m = HouseMember {
                    user_id: users[k].id.clone(),
                    username: users[k].username.clone(),
                };
                r.push(m);
            },
            None => {},
        }
        i = i + 1;
        assert(r@ == resolve_members(users@, prefix));
    }
    assert(names@.subrange(0, i as int) =~= names@);
    r
}

/// Replaces the members of house `house_id` by the users that `usernames`
/// name, where `user_id` created the house. On failure (as
/// `check_house_owner` says) the collection is unchanged.
pub fn set_house_members(
    houses: &mut Vec<House>,
    house_id: &str,
    user_id: &str,
    users: &Vec<User>,
    usernames: &Vec<String>,
) -> (r: Result<(), AppError>)
    ensures
        !has_house(old(houses)@, house_id@) ==> r == Err::<(), AppError>(AppError::HouseNotFound),
        forall|i: int|
            first_with_id(old(houses)@, house_id@, i) ==> if old(houses)@[i].creator@ == user_id@ {
                &&& r == Ok::<(), AppError>(())
                &&& final(houses)@.len() == old(houses)@.len()
                &&& forall|j: int|
                    0 <= j < old(houses)@.len() && j != i ==> final(houses)@[j] == old(
                        houses,
                    )@[j]
                &&& final(houses)@[i].id == old(houses)@[i].id
                &&& final(houses)@[i].name == old(houses)@[i].name
                &&& final(houses)@[i].creator == old(houses)@[i].creator
                &&& final(houses)@[i].members@ == resolve_members(users@, usernames@)
            } else {
                r == Err::<(), AppError>(AppError::PermissionDenied)
            },
        r is Err ==> final(houses)@ == old(houses)@,
{
    match check_house_owner(houses, house_id, user_id) {
        Err(e) => Err(e),
        Ok(i) => {
            let members = members_for(users, usernames);
            let h = House {
                id: houses[i].id.clone(),
                name: houses[i].name.clone(),
                creator: houses[i].creator.clone(),
                members,
            };
            houses.set(i, h);
            Ok(())
        },
    }
}

/// Appends a house named by `form`, created by `user`, with the identifier
/// `house_id`, and returns its empty document at version `version`.
pub fn add_house(
    houses: &mut Vec<House>,
    form: &CreateHouseForm,
    user: &User,
    house_id: String,
    version: String,
) -> (r: HouseDetail)
    ensures
        final(houses)@.len() == old(houses)@.len() + 1,
        final(houses)@.drop_last() == old(houses)@,
        final(houses)@.last().id == house_id,
        final(houses)@.last().name == form.name,
        final(houses)@.last().creator == user.id,
        final(houses)@.last().members@.len() == 0,
        r.version == version,
        r.name == form.name,
        r.items@.len() == 0,
{
    houses.push(
        House {
            id: house_id,
            name: form.name.clone(),
            creator: user.id.clone(),
            members: Vec::new(),
        },
    );
    assert(houses@.drop_last() =~= old(houses)@);
    HouseDetail { version, name: form.name.clone(), items: Vec::new() }
}

/// Appends a new house named by `form` and created by `user`, with a fresh
/// identifier, and returns that identifier with the house's empty document
/// at a fresh version.
pub fn create_house(houses: &mut Vec<House>, form: &CreateHouseForm, user: &User) -> (r: (
    String,
    HouseDetail,
))
    ensures
        final(houses)@.len() == old(houses)@.len() + 1,
        final(houses)@.drop_last() == old(houses)@,
        final(houses)@.last().id == r.0,
        final(houses)@.last().name == form.name,
        final(houses)@.last().creator == user.id,
        final(houses)@.last().members@.len() == 0,
        r.1.name == form.name,
        r.1.items@.len() == 0,
{
    let house_id = new_token();
    let version = new_token();
    let detail = add_house(houses, form, user, house_id.clone(), version);
    (house_id, detail)
}

/// The houses that `user_id` may see (as creator or member), in their
/// stored order.
pub fn my_houses(houses: Vec<House>, user_id: &str) -> (r: Vec<House>)
    ensures
        r@ == visible_houses(houses@, user_id@),
{
    let ghost all = houses@;
    let total: usize = houses.len();
    let mut rest = houses;
    let mut r: Vec<House> = Vec::new();
    let mut k: usize = 0;
    while rest.len() > 0
        invariant
            k + rest@.len() == total,
            total == all.len(),
            rest@ == all.subrange(k as int, all.len() as int),
            r@ == visible_houses(all.subrange(0, k as int), user_id@),
        decreases rest.len(),
    {
        let h = rest.remove(0);
        let ghost prefix = all.subrange(0, k as int + 1);
        assert(prefix.drop_last() =~= all.subrange(0, k as int));
        assert(prefix.last() == h);
        proof {
            reveal(Seq::filter);
        }
        if may_access(&h, user_id) {
            r.push(h);
        }
        k = k + 1;
        assert(rest@ =~= all.subrange(k as int, all.len() as int));
        assert(r@ == visible_houses(prefix, user_id@));
    }
    assert(all.subrange(0, k as int) =~= all);
    r
}

} // verus!
