//! The asset selector: given a release's ordered asset list and the
//! canonical platform tag, pick one asset by an ordered fallback policy —
//! exact platform-tag match, then OS-only match, then a generic-binary
//! heuristic, then the first asset — failing only on an empty list.

use vstd::prelude::*;
use vstd::string::*;
use crate::errors::InstallError;
use crate::strutil::{
    spec_contains,
    spec_ends_with,
    str_contains,
    contains_char,
    ends_with,
};

verus! {

/// One downloadable artifact of a release: its file name and download
/// URL, as far as the release document carries them.
#[derive(Clone)]
pub struct Asset {
    pub name: Option<String>,
    pub url: Option<String>,
}

/// The asset's name embeds the canonical platform tag.
pub open spec fn spec_tag_match(a: Asset, tag: Seq<char>) -> bool {
    a.name matches Some(n) && spec_contains(n@, tag)
}

/// The asset's name embeds the bare OS name.
pub open spec fn spec_os_match(a: Asset, os: Seq<char>) -> bool {
    a.name matches Some(n) && spec_contains(n@, os)
}

/// The asset's name looks like a bare binary: it has no dot, or ends in
/// ".exe" or ".bin".
pub open spec fn spec_generic_match(a: Asset) -> bool {
    a.name matches Some(n) && (!n@.contains('.') || spec_ends_with(n@, ".exe"@)
        || spec_ends_with(n@, ".bin"@))
}

/// `i` is the position of the first asset satisfying `p`.
pub open spec fn spec_first_where(assets: Seq<Asset>, p: spec_fn(Asset) -> bool, i: int) -> bool {
    0 <= i < assets.len() && p(assets[i]) && forall|j: int| 0 <= j < i ==> !p(assets[j])
}

/// Some asset satisfies `p`.
pub open spec fn spec_any(assets: Seq<Asset>, p: spec_fn(Asset) -> bool) -> bool {
    exists|j: int| 0 <= j < assets.len() && p(assets[j])
}

/// `i` is the position the ordered fallback policy selects: the first
/// platform-tag match if any asset has one; otherwise the first OS-only
/// match; otherwise the first generic-binary match; otherwise position 0
/// of a non-empty list.
pub open spec fn spec_selected(assets: Seq<Asset>, tag: Seq<char>, os: Seq<char>, i: int) -> bool {
    if spec_any(assets, |a: Asset| spec_tag_match(a, tag)) {
        spec_first_where(assets, |a: Asset| spec_tag_match(a, tag), i)
    } else if spec_any(assets, |a: Asset| spec_os_match(a, os)) {
        spec_first_where(assets, |a: Asset| spec_os_match(a, os), i)
    } else if spec_any(assets, |a: Asset| spec_generic_match(a)) {
        spec_first_where(assets, |a: Asset| spec_generic_match(a), i)
    } else {
        assets.len() > 0 && i == 0
    }
}

/// The selection policy picks at most one position.
pub proof fn lemma_selected_unique(assets: Seq<Asset>, tag: Seq<char>, os: Seq<char>, i: int, j: int)
    requires
        spec_selected(assets, tag, os, i),
        spec_selected(assets, tag, os, j),
    ensures
        i == j,
{
}

/// A non-empty list always has a selected position.
pub proof fn lemma_selected_exists(assets: Seq<Asset>, tag: Seq<char>, os: Seq<char>)
    requires
        assets.len() > 0,
    ensures
        exists|i: int| spec_selected(assets, tag, os, i),
{
    if spec_any(assets, |a: Asset| spec_tag_match(a, tag)) {
        let i = lemma_exists_first(assets, |a: Asset| spec_tag_match(a, tag));
        assert(spec_selected(assets, tag, os, i));
    } else if spec_any(assets, |a: Asset| spec_os_match(a, os)) {
        let i = lemma_exists_first(assets, |a: Asset| spec_os_match(a, os));
        assert(spec_selected(assets, tag, os, i));
    } else if spec_any(assets, |a: Asset| spec_generic_match(a)) {
        let i = lemma_exists_first(assets, |a: Asset| spec_generic_match(a));
        assert(spec_selected(assets, tag, os, i));
    } else {
        assert(spec_selected(assets, tag, os, 0));
    }
}

/// If some asset satisfies `p`, a first one does.
pub proof fn lemma_exists_first(assets: Seq<Asset>, p: spec_fn(Asset) -> bool) -> (i: int)
    requires
        spec_any(assets, p),
    ensures
        spec_first_where(assets, p, i),
    decreases assets.len(),
{
    if p(assets[0]) {
        assert(spec_first_where(assets, p, 0));
        0
    } else {
        let t = assets.skip(1);
        assert(forall|j: int| 0 <= j < t.len() ==> t[j] == assets[j + 1]);
        let w = choose|j: int| 0 <= j < assets.len() && p(assets[j]);
        assert(0 <= w - 1 < t.len() && p(t[w - 1]));
        let k = lemma_exists_first(t, p);
        assert(p(assets[k + 1]));
        assert forall|j: int| 0 <= j < k + 1 implies !p(assets[j]) by {
            if j > 0 {
                assert(t[j - 1] == assets[j]);
                assert(!p(t[j - 1]));
            }
        }
        k + 1
    }
}

/// The whole ordered fallback policy, tier by tier: a platform-tag match
/// anywhere makes the selected asset the first platform-tag match; with
/// none, an OS-only match anywhere makes it the first OS-only match; with
/// none of either, a generic-binary match anywhere makes it the first of
/// those; and with nothing matching at all it is the first asset.
pub proof fn lemma_select_tier_order(assets: Seq<Asset>, tag: Seq<char>, os: Seq<char>, i: int)
    requires
        spec_selected(assets, tag, os, i),
    ensures
        spec_any(assets, |a: Asset| spec_tag_match(a, tag)) ==> spec_first_where(
            assets,
            |a: Asset| spec_tag_match(a, tag),
            i,
        ),
        !spec_any(assets, |a: Asset| spec_tag_match(a, tag)) && spec_any(
            assets,
            |a: Asset| spec_os_match(a, os),
        ) ==> spec_first_where(assets, |a: Asset| spec_os_match(a, os), i),
        !spec_any(assets, |a: Asset| spec_tag_match(a, tag)) && !spec_any(
            assets,
            |a: Asset| spec_os_match(a, os),
        ) && spec_any(assets, |a: Asset| spec_generic_match(a)) ==> spec_first_where(
            assets,
            |a: Asset| spec_generic_match(a),
            i,
        ),
        !spec_any(assets, |a: Asset| spec_tag_match(a, tag)) && !spec_any(
            assets,
            |a: Asset| spec_os_match(a, os),
        ) && !spec_any(assets, |a: Asset| spec_generic_match(a)) ==> i == 0,
{
}

/// The ordered fallback policy outranks tiers strictly: a platform-tag
/// match anywhere in the list forces the selected asset to be the first
/// platform-tag match, whatever else matches earlier on lower tiers.
pub proof fn lemma_select_prefers_tag(
    assets: Seq<Asset>,
    tag: Seq<char>,
    os: Seq<char>,
    w: int,
    i: int,
)
    requires
        0 <= w < assets.len(),
        spec_tag_match(assets[w], tag),
        spec_selected(assets, tag, os, i),
    ensures
        spec_tag_match(assets[i], tag),
        forall|j: int| 0 <= j < i ==> !spec_tag_match(assets[j], tag),
{
    assert(spec_any(assets, |a: Asset| spec_tag_match(a, tag)));
}

/// When no asset matches any rule, the policy selects the first element
/// of a non-empty list; it never errors on non-empty input.
pub proof fn lemma_select_defaults_to_first(assets: Seq<Asset>, tag: Seq<char>, os: Seq<char>)
    requires
        assets.len() > 0,
        forall|j: int| 0 <= j < assets.len() ==> !spec_tag_match(assets[j], tag),
        forall|j: int| 0 <= j < assets.len() ==> !spec_os_match(assets[j], os),
        forall|j: int| 0 <= j < assets.len() ==> !spec_generic_match(assets[j]),
    ensures
        spec_selected(assets, tag, os, 0),
        forall|i: int| spec_selected(assets, tag, os, i) ==> i == 0,
{
    assert(!spec_any(assets, |a: Asset| spec_tag_match(a, tag)));
    assert(!spec_any(assets, |a: Asset| spec_os_match(a, os)));
    assert(!spec_any(assets, |a: Asset| spec_generic_match(a)));
}

/// Does the asset's name embed `tag`?
fn asset_name_contains(a: &Asset, tag: &str) -> (r: bool)
    ensures
        r == (a.name matches Some(n) && spec_contains(n@, tag@)),
{
    match &a.name {
        Some(n) => str_contains(n.as_str(), tag),
        None => false,
    }
}

/// Does the asset's name look like a bare binary?
fn asset_is_generic(a: &Asset) -> (r: bool)
    ensures
        r == spec_generic_match(*a),
{
    match &a.name {
        Some(n) => {
            let has_dot = contains_char(n.as_str(), '.');
            if !has_dot {
                true
            } else if ends_with(n.as_str(), ".exe") {
                true
            } else {
                ends_with(n.as_str(), ".bin")
            }
        },
        None => false,
    }
}

/// Select the asset to install from a release's asset list, given the
/// canonical platform tag and the bare OS name: the position of the
/// first platform-tag match, else the first OS-only match, else the
/// first generic-binary match, else the first asset. Fails with
/// `NoMatchingAsset` exactly when the list is empty.
pub fn find_platform_asset(assets: &Vec<Asset>, platform: &str, os: &str) -> (r: Result<
    usize,
    InstallError,
>)
    ensures
        r matches Ok(i) ==> spec_selected(assets@, platform@, os@, i as int),
        r is Err <==> assets@.len() == 0,
        r matches Err(e) ==> e == InstallError::NoMatchingAsset,
{
    let n = assets.len();
    let mut k: usize = 0;
    while k < n
        invariant
            k <= n,
            n == assets@.len(),
            forall|j: int| 0 <= j < k ==> !spec_tag_match(assets@[j], platform@),
        decreases n - k,
    {
        if asset_name_contains(&assets[k], platform) {
            proof {
                assert(spec_any(assets@, |a: Asset| spec_tag_match(a, platform@)));
                assert(spec_first_where(
                    assets@,
                    |a: Asset| spec_tag_match(a, platform@),
                    k as int,
                ));
            }
            return Ok(k);
        }
        k += 1;
    }
    proof {
        assert(!spec_any(assets@, |a: Asset| spec_tag_match(a, platform@)));
    }
    let mut k: usize = 0;
    while k < n
        invariant
            k <= n,
            n == assets@.len(),
            !spec_any(assets@, |a: Asset| spec_tag_match(a, platform@)),
            forall|j: int| 0 <= j < k ==> !spec_os_match(assets@[j], os@),
        decreases n - k,
    {
        if asset_name_contains(&assets[k], os) {
            proof {
                assert(spec_any(assets@, |a: Asset| spec_os_match(a, os@)));
                assert(spec_first_where(assets@, |a: Asset| spec_os_match(a, os@), k as int));
            }
            return Ok(k);
        }
        k += 1;
    }
    proof {
        assert(!spec_any(assets@, |a: Asset| spec_os_match(a, os@)));
    }
    let mut k: usize = 0;
    while k < n
        invariant
            k <= n,
            n == assets@.len(),
            !spec_any(assets@, |a: Asset| spec_tag_match(a, platform@)),
            !spec_any(assets@, |a: Asset| spec_os_match(a, os@)),
            forall|j: int| 0 <= j < k ==> !spec_generic_match(assets@[j]),
        decreases n - k,
    {
        if asset_is_generic(&assets[k]) {
            proof {
                assert(spec_any(assets@, |a: Asset| spec_generic_match(a)));
                assert(spec_first_where(assets@, |a: Asset| spec_generic_match(a), k as int));
            }
            return Ok(k);
        }
        k += 1;
    }
    proof {
        assert(!spec_any(assets@, |a: Asset| spec_generic_match(a)));
    }
    if n > 0 {
        Ok(0)
    } else {
        Err(InstallError::NoMatchingAsset)
    }
}

} // verus!
