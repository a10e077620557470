//! A published release and the files attached to it.

use vstd::prelude::*;

verus! {

/// A file attached to a release.
#[derive(Debug, PartialEq, Eq)]
pub struct Asset {
    /// The file's name.
    pub name: String,
    /// Where the file can be downloaded from.
    pub download_url: String,
}

/// What an [`Asset`] holds, as plain text.
pub struct AssetView {
    pub name: Seq<char>,
    pub download_url: Seq<char>,
}

impl View for Asset {
    type V = AssetView;

    open spec fn view(&self) -> AssetView {
        AssetView { name: self.name@, download_url: self.download_url@ }
    }
}

/// A release: its version and its assets, in the order they were listed.
#[derive(Debug, PartialEq, Eq)]
pub struct Release {
    /// The release's version, as its tag spells it.
    pub version: String,
    /// The files attached to the release.
    pub assets: Vec<Asset>,
}

/// What a [`Release`] holds, as plain text.
pub struct ReleaseView {
    pub version: Seq<char>,
    pub assets: Seq<AssetView>,
}

impl View for Release {
    type V = ReleaseView;

    open spec fn view(&self) -> ReleaseView {
        ReleaseView {
            version: self.version@,
            assets: Seq::new(self.assets@.len(), |i: int| self.assets@[i]@),
        }
    }
}

/// The index of the first asset at or after `from` whose name is exactly
/// `name`, if there is one.
pub open spec fn position_from(assets: Seq<AssetView>, name: Seq<char>, from: int) -> Option<int>
    decreases assets.len() - from,
{
    if from < 0 || from >= assets.len() {
        None
    } else if assets[from].name == name {
        Some(from)
    } else {
        position_from(assets, name, from + 1)
    }
}

/// The index of the first asset whose name is exactly `name`, if there is
/// one.
pub open spec fn position(assets: Seq<AssetView>, name: Seq<char>) -> Option<int> {
    position_from(assets, name, 0)
}

/// The first asset whose name is exactly `name`, if there is one.
pub open spec fn find_asset(assets: Seq<AssetView>, name: Seq<char>) -> Option<AssetView> {
    match position(assets, name) {
        Some(i) => Some(assets[i]),
        None => None,
    }
}

/// A search from `from` finds the first index at or after `from` that holds
/// the name, and finds nothing exactly when no such index exists.
pub proof fn lemma_position_from(assets: Seq<AssetView>, name: Seq<char>, from: int)
    requires
        0 <= from,
    ensures
        (match position_from(assets, name, from) {
            Some(i) => {
                &&& from <= i < assets.len()
                &&& assets[i].name == name
                &&& forall|j: int| from <= j < i ==> assets[j].name != name
            },
            None => forall|j: int| from <= j < assets.len() ==> assets[j].name != name,
        }),
    decreases assets.len() - from,
{
    if from < assets.len() && assets[from].name != name {
        lemma_position_from(assets, name, from + 1);
    }
}

/// `position` finds the first asset that bears the name, and finds nothing
/// exactly when no asset bears it.
pub proof fn lemma_position(assets: Seq<AssetView>, name: Seq<char>)
    ensures
        (match position(assets, name) {
            Some(i) => {
                &&& 0 <= i < assets.len()
                &&& assets[i].name == name
                &&& forall|j: int| 0 <= j < i ==> assets[j].name != name
            },
            None => forall|j: int| 0 <= j < assets.len() ==> assets[j].name != name,
        }),
{
    lemma_position_from(assets, name, 0);
}

/// The asset that `find_asset` yields is listed in the release and bears
/// the name; it yields nothing exactly when no listed asset bears the name.
pub proof fn lemma_find_asset(assets: Seq<AssetView>, name: Seq<char>)
    ensures
        (match find_asset(assets, name) {
            Some(asset) => assets.contains(asset) && asset.name == name,
            None => forall|j: int| 0 <= j < assets.len() ==> assets[j].name != name,
        }),
{
    lemma_position(assets, name);
}

impl Release {
    /// Looks for the asset called `name`. Names are compared exactly; where
    /// several assets share the name, the first listed is taken.
    pub fn find_asset(&self, name: &String) -> (found: Option<&Asset>)
        ensures
            (match found {
                Some(asset) => find_asset(self@.assets, name@) == Some(asset@),
                None => find_asset(self@.assets, name@) is None,
            }),
    {
        let mut i: usize = 0;
        while i < self.assets.len()
            invariant
                0 <= i <= self.assets@.len(),
                position(self@.assets, name@) == position_from(self@.assets, name@, i as int),
            decreases self.assets@.len() - i,
        {
            if self.assets[i].name == *name {
                return Some(&self.assets[i]);
            }
            i += 1;
        }
        None
    }
}

} // verus!
