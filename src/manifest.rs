//! The list of versions that the launcher can install.

use crate::config::LauncherSettings;
use crate::version::StandardVersion;
use crate::version_json::VersionType;
use vstd::prelude::*;

verus! {

/// The latest release and snapshot.
#[derive(Debug)]
pub struct LatestVersion {
    pub release: String,
    pub snapshot: String,
}

/// One version of the manifest.
#[derive(Debug)]
pub struct VersionInfo {
    pub id: String,
    pub url: String,
    pub version_type: VersionType,
}

impl Clone for VersionInfo {
    fn clone(&self) -> (r: Self)
        ensures
            r == *self,
    {
        VersionInfo { id: self.id.clone(), url: self.url.clone(), version_type: self.version_type }
    }
}

/// A version that the manifest does not list.
#[derive(Debug)]
pub enum ManifestError {
    NotFound(String),
}

/// The manifest of versions.
#[derive(Debug)]
pub struct Manifest {
    pub latest: LatestVersion,
    pub versions: Vec<VersionInfo>,
}

impl Manifest {
    /// The first version of the manifest whose id is `version`.
    pub fn get_version_by_id(&self, version: &str) -> (r: Result<VersionInfo, ManifestError>)
        ensures
            r matches Ok(v) ==> exists|i: int|
                0 <= i < self.versions@.len() && self.versions@[i] == v && v.id@ == version@
                    && forall|j: int| 0 <= j < i ==> self.versions@[j].id@ != version@,
            r is Err <==> forall|i: int| 0 <= i < self.versions@.len() ==> self.versions@[i].id@ != version@,
            r matches Err(ManifestError::NotFound(v)) ==> v@ == version@,
    {
        let key = version.to_owned();
        let mut i: usize = 0;
        while i < self.versions.len()
            invariant
                i <= self.versions@.len(),
                key@ == version@,
                forall|j: int| 0 <= j < i ==> self.versions@[j].id@ != version@,
            decreases self.versions.len() - i,
        {
            if self.versions[i].id == key {
                return Ok(self.versions[i].clone());
            }
            i = i + 1;
        }
        Err(ManifestError::NotFound(key))
    }

    pub fn get_all_version_ref(&self) -> (r: &Vec<VersionInfo>)
        ensures
            r == &self.versions,
    {
        &self.versions
    }
}

/// Whether the settings let versions of kind `t` be listed: releases always,
/// the other kinds when the settings allow them.
pub open spec fn allowed(t: VersionType, s: LauncherSettings) -> bool {
    match t {
        VersionType::RELEASE => true,
        VersionType::SNAPSHOT => s.allowSnapshot,
        VersionType::OldBeta => s.allowBeta,
        VersionType::OldAlpha => s.allowAlpha,
    }
}

/// Chooses which versions of the manifest to list.
pub struct VersionManager;

impl VersionManager {
    /// The versions of `manifest` that `settings` allow, in the order of the
    /// manifest, none of them installed yet; none at all without settings.
    pub fn versions_by_manifest(manifest: &Manifest, settings: &Option<LauncherSettings>) -> (r: Vec<
        StandardVersion,
    >)
        ensures
            settings is None ==> r@.len() == 0,
            settings matches Some(s) ==> r@.len() <= manifest.versions@.len(),
            settings matches Some(s) ==> {
                let picked = manifest.versions@.filter(|v: VersionInfo| allowed(v.version_type, *s));
                &&& r@.len() == picked.len()
                &&& forall|i: int|
                    0 <= i < r@.len() ==> (#[trigger] r@[i])@.name == picked[i].id@ && r@[i]@.url
                        == picked[i].url@ && r@[i]@.version_type == picked[i].version_type
                        && r@[i]@.state == crate::version::VersionState::INSTALLED(false)
            },
    {
        let mut r: Vec<StandardVersion> = Vec::new();
        match settings {
            None => r,
            Some(s) => {
                let ghost vs = manifest.versions@;
                let ghost f = |v: VersionInfo| allowed(v.version_type, *s);
                let mut i: usize = 0;
                while i < manifest.versions.len()
                    invariant
                        i <= vs.len(),
                        vs == manifest.versions@,
                        f == (|v: VersionInfo| allowed(v.version_type, *s)),
                        r@.len() == vs.subrange(0, i as int).filter(f).len(),
                        forall|k: int|
                            0 <= k < r@.len() ==> (#[trigger] r@[k])@.name == vs.subrange(
                                0,
                                i as int,
                            ).filter(f)[k].id@ && r@[k]@.url == vs.subrange(0, i as int).filter(
                                f,
                            )[k].url@ && r@[k]@.version_type == vs.subrange(0, i as int).filter(
                                f,
                            )[k].version_type && r@[k]@.state
                                == crate::version::VersionState::INSTALLED(false),
                    decreases vs.len() - i,
                {
                    let v = &manifest.versions[i];
                    let keep = match v.version_type {
                        VersionType::RELEASE => true,
                        VersionType::SNAPSHOT => s.allowSnapshot,
                        VersionType::OldBeta => s.allowBeta,
                        VersionType::OldAlpha => s.allowAlpha,
                    };
                    proof {
                        reveal(Seq::filter);
                        assert(vs.subrange(0, i + 1).drop_last() =~= vs.subrange(0, i as int));
                        assert(vs.subrange(0, i + 1).last() == vs[i as int]);
                        assert(keep == f(vs[i as int]));
                    }
                    if keep {
                        r.push(StandardVersion::from_info(v));
                    }
                    i = i + 1;
                }
                proof {
                    assert(vs.subrange(0, vs.len() as int) =~= vs);
                    vs.lemma_filter_len(f);
                }
                r
            },
        }
    }
}

} // verus!
