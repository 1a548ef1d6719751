//! Optimistic concurrency on house documents: an update names the version
//! it was read at, and succeeds only where that is still the stored one.

use vstd::prelude::*;
use crate::error::AppError;
use crate::house::HouseDetail;
use crate::text::text_eq;
use crate::token::new_token;

verus! {

/// The compare-and-swap on a versioned document: where `current` is at
/// version `expected`, its replacement is `replacement` at version
/// `new_version`; otherwise the update is refused with `VersionMismatch`.
pub open spec fn versioned_update(
    current: HouseDetail,
    expected: Seq<char>,
    replacement: HouseDetail,
    new_version: String,
) -> Result<HouseDetail, AppError> {
    if current.version@ == expected {
        Ok(HouseDetail { version: new_version, name: replacement.name, items: replacement.items })
    } else {
        Err(AppError::VersionMismatch)
    }
}

/// A client's edit of a house's tree: `submitted` carries the version it
/// was read at and the new tree; the house keeps its name.
pub open spec fn items_update(current: HouseDetail, submitted: HouseDetail, new_version: String) -> Result<
    HouseDetail,
    AppError,
> {
    versioned_update(
        current,
        submitted.version@,
        HouseDetail { version: submitted.version, name: current.name, items: submitted.items },
        new_version,
    )
}

/// Compares the version of `current` with `expected_version` and, where
/// they are equal, returns `replacement` at version `new_version`.
pub fn update_versioned(
    current: &HouseDetail,
    expected_version: &str,
    replacement: HouseDetail,
    new_version: String,
) -> (r: Result<HouseDetail, AppError>)
    ensures
        r == versioned_update(*current, expected_version@, replacement, new_version),
{
    if !text_eq(current.version.as_str(), expected_version) {
        return Err(AppError::VersionMismatch);
    }
    let HouseDetail { version: _, name, items } = replacement;
    Ok(HouseDetail { version: new_version, name, items })
}

/// Applies a client's edit of a house's tree to the stored document
/// `current`, at version `new_version`.
pub fn replace_items(current: HouseDetail, submitted: HouseDetail, new_version: String) -> (r: Result<
    HouseDetail,
    AppError,
>)
    ensures
        r == items_update(current, submitted, new_version),
{
    let HouseDetail { version: cur_version, name: cur_name, items: _ } = current;
    let HouseDetail { version: sub_version, name: _, items: sub_items } = submitted;
    if !text_eq(cur_version.as_str(), sub_version.as_str()) {
        return Err(AppError::VersionMismatch);
    }
    Ok(HouseDetail { version: new_version, name: cur_name, items: sub_items })
}

/// Applies a client's edit of a house's tree to the stored document
/// `current` at a fresh version. Fails with `VersionMismatch` where the
/// edit was read at another version than the stored one.
pub fn update_house_detail(current: HouseDetail, submitted: HouseDetail) -> (r: Result<
    HouseDetail,
    AppError,
>)
    ensures
        current.version@ != submitted.version@ ==> r == Err::<HouseDetail, AppError>(
            AppError::VersionMismatch,
        ),
        current.version@ == submitted.version@ ==> (r matches Ok(d) && d.name == current.name
            && d.items == submitted.items),
{
    let v = new_token();
    replace_items(current, submitted, v)
}

/// Compare-and-swap on a versioned document: an update that presents the
/// document's version `v1` succeeds and moves it to the new version; a
/// second update that presents `v1` again is refused, so it can write
/// nothing over the first one. The new version must differ from `v1`.
pub proof fn lemma_version_cas(
    current: HouseDetail,
    v1: Seq<char>,
    first: HouseDetail,
    v2: String,
    second: HouseDetail,
    v3: String,
)
    requires
        current.version@ == v1,
        v2@ != v1,
    ensures
        versioned_update(current, v1, first, v2) matches Ok(d) && d.version == v2 && d.name
            == first.name && d.items == first.items && versioned_update(d, v1, second, v3)
            == Err::<HouseDetail, AppError>(AppError::VersionMismatch),
{
}

/// The same for a client's edit of a house's tree: an edit read at the
/// stored version succeeds and keeps the house's name; a second edit read
/// at that same, now stale, version is refused.
pub proof fn lemma_items_cas(
    current: HouseDetail,
    first: HouseDetail,
    v2: String,
    second: HouseDetail,
    v3: String,
)
    requires
        first.version@ == current.version@,
        second.version@ == current.version@,
        v2@ != current.version@,
    ensures
        items_update(current, first, v2) matches Ok(d) && d.version == v2 && d.name == current.name
            && d.items == first.items && items_update(d, second, v3) == Err::<HouseDetail, AppError>(
            AppError::VersionMismatch,
        ),
{
}

} // verus!
