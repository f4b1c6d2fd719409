//! The metadata of a game version: its client downloads, the libraries it
//! needs and the index of its assets.

use crate::job::copy_opt;
use crate::text::{contains, contains_text, join_path, path_join};
use vstd::prelude::*;

verus! {

/// The kind of a version.
#[allow(non_camel_case_types)]
#[derive(Debug, Clone, Copy, PartialEq, Eq, Structural)]
pub enum VersionType {
    RELEASE,
    SNAPSHOT,
    OldBeta,
    OldAlpha,
}

/// One downloadable file of the metadata.
#[derive(Debug)]
pub struct Download {
    pub path: Option<String>,
    pub url: String,
    pub sha1: String,
}

impl Clone for Download {
    fn clone(&self) -> (r: Self)
        ensures
            r == *self,
    {
        Download { path: copy_opt(&self.path), url: self.url.clone(), sha1: self.sha1.clone() }
    }
}

/// The client downloads of a version.
#[derive(Debug)]
pub struct Downloads {
    pub client: Download,
    pub client_mappings: Download,
}

impl Clone for Downloads {
    fn clone(&self) -> (r: Self)
        ensures
            r == *self,
    {
        Downloads { client: self.client.clone(), client_mappings: self.client_mappings.clone() }
    }
}

#[derive(Debug)]
pub struct LibraryDownload {
    pub artifact: Download,
}

impl Clone for LibraryDownload {
    fn clone(&self) -> (r: Self)
        ensures
            r == *self,
    {
        LibraryDownload { artifact: self.artifact.clone() }
    }
}

#[derive(Debug)]
pub struct Os {
    pub name: String,
}

impl Clone for Os {
    fn clone(&self) -> (r: Self)
        ensures
            r == *self,
    {
        Os { name: self.name.clone() }
    }
}

/// A condition on the operating system under which a library applies.
#[derive(Debug)]
pub struct LibraryRule {
    pub os: Option<Os>,
}

impl Clone for LibraryRule {
    fn clone(&self) -> (r: Self)
        ensures
            r == *self,
    {
        match &self.os {
            Some(os) => LibraryRule { os: Some(os.clone()) },
            None => LibraryRule { os: None },
        }
    }
}

fn copy_rules(v: &Vec<LibraryRule>) -> (r: Vec<LibraryRule>)
    ensures
        r@ == v@,
{
    let mut r: Vec<LibraryRule> = Vec::new();
    let mut i: usize = 0;
    while i < v.len()
        invariant
            i <= v.len(),
            r@ == v@.subrange(0, i as int),
        decreases v.len() - i,
    {
        r.push(v[i].clone());
        i = i + 1;
        assert(r@ =~= v@.subrange(0, i as int));
    }
    assert(v@.subrange(0, v@.len() as int) =~= v@);
    r
}

/// The name that the rules of a library give the operating system `os`.
pub open spec fn rule_os_name(os: Seq<char>) -> Seq<char> {
    if os == "macos"@ {
        "osx"@
    } else {
        os
    }
}

/// Whether `rule` names the operating system `os`.
pub open spec fn rule_names(rule: LibraryRule, os: Seq<char>) -> bool {
    rule.os matches Some(o) && o.name@ == os
}

/// Whether some rule of `rules` names the operating system `os`.
pub open spec fn rules_name_os(rules: Seq<LibraryRule>, os: Seq<char>) -> bool {
    exists|i: int| 0 <= i < rules.len() && rule_names(#[trigger] rules[i], os)
}

/// A library of a version.
#[derive(Debug)]
pub struct Library {
    pub downloads: LibraryDownload,
    pub name: String,
    pub rules: Option<Vec<LibraryRule>>,
}

/// `a` and `b` are the same library: same downloads, name and rules.
pub open spec fn same_library(a: Library, b: Library) -> bool {
    &&& a.downloads == b.downloads
    &&& a.name == b.name
    &&& match (a.rules, b.rules) {
        (Some(x), Some(y)) => x@ == y@,
        (None, None) => true,
        _ => false,
    }
}

impl Clone for Library {
    fn clone(&self) -> (r: Self)
        ensures
            same_library(r, *self),
    {
        let rules = match &self.rules {
            Some(v) => Some(copy_rules(v)),
            None => None,
        };
        Library { downloads: self.downloads.clone(), name: self.name.clone(), rules }
    }
}

impl Library {
    /// The library's path under the libraries directory, when it has one.
    pub open spec fn has_path(&self) -> bool {
        self.downloads.artifact.path is Some
    }

    pub open spec fn path_of(&self) -> Seq<char> {
        self.downloads.artifact.path.unwrap()@
    }

    /// Whether the library applies to the operating system `os`.
    pub open spec fn applies_to_os(&self, os: Seq<char>) -> bool {
        match self.rules {
            Some(rules) => rules_name_os(rules@, rule_os_name(os)),
            None => contains_text(self.name@, ":natives-"@ + os),
        }
    }

    pub fn name(&self) -> (r: &str)
        ensures
            r@ == self.name@,
    {
        self.name.as_str()
    }

    pub fn get_download_url(&self) -> (r: String)
        ensures
            r == self.downloads.artifact.url,
    {
        self.downloads.artifact.url.clone()
    }

    pub fn get_path(&self) -> (r: String)
        requires
            self.has_path(),
        ensures
            r@ == self.path_of(),
    {
        match &self.downloads.artifact.path {
            Some(p) => p.clone(),
            None => String::new(),
        }
    }

    pub fn get_sha1(&self) -> (r: String)
        ensures
            r == self.downloads.artifact.sha1,
    {
        self.downloads.artifact.sha1.clone()
    }

    /// A library of native code: its name holds `:natives`.
    pub fn is_native(&self) -> (r: bool)
        ensures
            r == contains_text(self.name@, ":natives"@),
    {
        contains(self.name.as_str(), ":natives")
    }

    /// Whether the library applies to the operating system `current_os`
    /// (as Rust names it): with rules, when one names it (macOS is `osx`
    /// there); without, when the name carries `:natives-` and that system.
    pub fn filter_native_by_os(&self, current_os: &str) -> (r: bool)
        ensures
            r == self.applies_to_os(current_os@),
    {
        match self.rules.as_ref() {
            Some(rules) => {
                let cur = current_os.to_owned();
                let macos = String::from_str("macos");
                let os = if cur == macos {
                    String::from_str("osx")
                } else {
                    cur
                };
                let mut i: usize = 0;
                while i < rules.len()
                    invariant
                        i <= rules.len(),
                        self.rules == Some(*rules),
                        os@ == rule_os_name(current_os@),
                        forall|j: int|
                            0 <= j < i ==> !rule_names(#[trigger] rules@[j], os@),
                    decreases rules.len() - i,
                {
                    match &rules[i].os {
                        Some(o) => {
                            if o.name == os {
                                assert(rule_names(rules@[i as int], rule_os_name(current_os@)));
                                return true;
                            }
                        },
                        None => {},
                    }
                    i = i + 1;
                }
                false
            },
            None => {
                let pat = String::from_str(":natives-").concat(current_os);
                contains(self.name.as_str(), pat.as_str())
            },
        }
    }
}

/// Where the asset index of a version is found.
#[derive(Debug)]
pub struct AssetIndex {
    pub id: String,
    pub url: String,
    pub sha1: String,
}

impl Clone for AssetIndex {
    fn clone(&self) -> (r: Self)
        ensures
            r == *self,
    {
        AssetIndex { id: self.id.clone(), url: self.url.clone(), sha1: self.sha1.clone() }
    }
}

/// One asset: a blob named by its content hash.
#[derive(Debug)]
pub struct Asset {
    pub hash: String,
}

impl Clone for Asset {
    fn clone(&self) -> (r: Self)
        ensures
            r == *self,
    {
        Asset { hash: self.hash.clone() }
    }
}

/// The directory entry of an asset: the first two characters of its hash,
/// a `/`, then the hash.
pub open spec fn asset_dir(hash: Seq<char>) -> Seq<char> {
    path_join(hash.subrange(0, 2), hash)
}

/// The asset index: each asset under its name, in the order of the index.
#[derive(Debug)]
pub struct AssetsJson {
    pub objects: Vec<(String, Asset)>,
}

impl AssetsJson {
    /// Every asset's hash has at least two characters.
    pub open spec fn hashes_named(&self) -> bool {
        forall|i: int| 0 <= i < self.objects@.len() ==> (#[trigger] self.objects@[i]).1.hash@.len() >= 2
    }

    /// The directory entry of each asset, in the order of the index.
    pub fn get_assets_directories(&self) -> (r: Vec<String>)
        requires
            self.hashes_named(),
        ensures
            r@.len() == self.objects@.len(),
            forall|i: int| 0 <= i < r@.len() ==> (#[trigger] r@[i])@ == asset_dir(self.objects@[i].1.hash@),
    {
        let mut r: Vec<String> = Vec::new();
        let mut i: usize = 0;
        while i < self.objects.len()
            invariant
                i <= self.objects@.len(),
                self.hashes_named(),
                r@.len() == i,
                forall|j: int| 0 <= j < i ==> (#[trigger] r@[j])@ == asset_dir(self.objects@[j].1.hash@),
            decreases self.objects.len() - i,
        {
            let hash = &self.objects[i].1.hash;
            assert(hash@.len() >= 2);
            let prefix = hash.as_str().substring_char(0, 2);
            r.push(join_path(prefix, hash.as_str()));
            i = i + 1;
        }
        r
    }
}

/// Conditions on the user and the launch under which an argument applies.
#[derive(Debug)]
pub struct Features {
    pub is_demo_user: Option<bool>,
    pub has_custom_resolution: Option<bool>,
    pub has_quick_plays_support: Option<bool>,
    pub is_quick_play_singleplayer: Option<bool>,
    pub is_quick_play_multiplayer: Option<bool>,
    pub is_quick_play_realms: Option<bool>,
}

/// A rule of a launch argument.
#[derive(Debug)]
pub struct Rule {
    pub action: String,
    pub features: Option<Features>,
}

/// The metadata of one version.
#[derive(Debug)]
pub struct VersionJson {
    pub id: String,
    pub downloads: Downloads,
    pub libraries: Vec<Library>,
    pub main_class: String,
    pub asset_index: AssetIndex,
    pub version_type: VersionType,
}

/// Every library of `libs` has a path.
pub open spec fn all_have_paths(libs: Seq<Library>) -> bool {
    forall|i: int| 0 <= i < libs.len() ==> (#[trigger] libs[i]).has_path()
}

/// A copy of a list of libraries.
pub fn copy_libraries(v: &Vec<Library>) -> (r: Vec<Library>)
    ensures
        r@.len() == v@.len(),
        forall|i: int| 0 <= i < v@.len() ==> same_library(#[trigger] r@[i], v@[i]),
{
    let mut r: Vec<Library> = Vec::new();
    let mut i: usize = 0;
    while i < v.len()
        invariant
            i <= v.len(),
            r@.len() == i,
            forall|j: int| 0 <= j < i ==> same_library(#[trigger] r@[j], v@[j]),
        decreases v.len() - i,
    {
        r.push(v[i].clone());
        i = i + 1;
    }
    r
}

impl VersionJson {
    pub fn get_client_url(&self) -> (r: String)
        ensures
            r == self.downloads.client.url,
    {
        self.downloads.client.url.clone()
    }

    pub fn get_client_mappings_url(&self) -> (r: String)
        ensures
            r == self.downloads.client_mappings.url,
    {
        self.downloads.client_mappings.url.clone()
    }

    pub fn get_libraries(&self) -> (r: Vec<Library>)
        ensures
            r@.len() == self.libraries@.len(),
            forall|i: int| 0 <= i < r@.len() ==> same_library(#[trigger] r@[i], self.libraries@[i]),
    {
        copy_libraries(&self.libraries)
    }

    /// Where each library lies under `minecraft_path`, in the order of the
    /// list.
    pub fn get_libraries_path(&self, minecraft_path: &str) -> (r: Vec<String>)
        requires
            all_have_paths(self.libraries@),
        ensures
            r@.len() == self.libraries@.len(),
            forall|i: int|
                0 <= i < r@.len() ==> (#[trigger] r@[i])@ == path_join(
                    path_join(minecraft_path@, "libraries"@),
                    self.libraries@[i].path_of(),
                ),
    {
        let dir = join_path(minecraft_path, "libraries");
        let mut r: Vec<String> = Vec::new();
        let mut i: usize = 0;
        while i < self.libraries.len()
            invariant
                i <= self.libraries@.len(),
                all_have_paths(self.libraries@),
                dir@ == path_join(minecraft_path@, "libraries"@),
                r@.len() == i,
                forall|j: int|
                    0 <= j < i ==> (#[trigger] r@[j])@ == path_join(dir@, self.libraries@[j].path_of()),
            decreases self.libraries.len() - i,
        {
            assert(self.libraries@[i as int].has_path());
            let p = self.libraries[i].get_path();
            r.push(join_path(dir.as_str(), p.as_str()));
            i = i + 1;
        }
        r
    }

    pub fn get_asset_index(&self) -> (r: AssetIndex)
        ensures
            r == self.asset_index,
    {
        self.asset_index.clone()
    }

    /// Where the asset index of this version lies under `minecraft_path`:
    /// `assets/indexes/<id>.json`.
    pub fn asset_index_path(&self, minecraft_path: &str) -> (r: String)
        ensures
            r@ == path_join(
                path_join(path_join(minecraft_path@, "assets"@), "indexes"@),
                self.asset_index.id@ + ".json"@,
            ),
    {
        let dir = join_path(join_path(minecraft_path, "assets").as_str(), "indexes");
        let file = self.asset_index.id.clone().concat(".json");
        join_path(dir.as_str(), file.as_str())
    }

    pub fn get_type(&self) -> (r: VersionType)
        ensures
            r == self.version_type,
    {
        self.version_type
    }

    pub fn get_main_class(&self) -> (r: String)
        ensures
            r == self.main_class,
    {
        self.main_class.clone()
    }

    pub fn id(&self) -> (r: String)
        ensures
            r == self.id,
    {
        self.id.clone()
    }
}

} // verus!
