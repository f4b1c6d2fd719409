//! The jobs of an install: the prerequisite files of a version, then every
//! library and asset; and the checks of an installed version.

use crate::job::{FileData, FileDataView};
use crate::text::{join_path, path_join};
use crate::version::{StandardVersion, StandardVersionView, VersionState};
use crate::version_json::{asset_dir, all_have_paths, AssetsJson, Library, VersionJson};
use vstd::prelude::*;

verus! {

/// `<minecraft_path>/versions/<name>/<name><ext>`.
pub open spec fn version_file(minecraft_path: Seq<char>, name: Seq<char>, ext: Seq<char>) -> Seq<
    char,
> {
    path_join(path_join(path_join(minecraft_path, "versions"@), name), name + ext)
}

/// The job of one library: from its artifact URL to its path under
/// `libraries`, checked against its hash.
pub open spec fn library_job(lib: Library, minecraft_path: Seq<char>) -> FileDataView {
    FileDataView {
        path: path_join(path_join(minecraft_path, "libraries"@), lib.path_of()),
        url: lib.downloads.artifact.url@,
        sha1: Some(lib.downloads.artifact.sha1@),
    }
}

/// The job of one asset: from the resources server to `assets/objects`,
/// both under the asset's directory entry.
pub open spec fn asset_job(hash: Seq<char>, minecraft_path: Seq<char>) -> FileDataView {
    FileDataView {
        path: path_join(path_join(path_join(minecraft_path, "assets"@), "objects"@), asset_dir(hash)),
        url: "https://resources.download.minecraft.net/"@ + asset_dir(hash),
        sha1: None,
    }
}

/// Builds the path of a file of a version's directory.
pub fn version_file_path(minecraft_path: &str, name: &str, ext: &str) -> (r: String)
    ensures
        r@ == version_file(minecraft_path@, name@, ext@),
{
    let dir = join_path(join_path(minecraft_path, "versions").as_str(), name);
    let file = String::from_str(name).concat(ext);
    join_path(dir.as_str(), file.as_str())
}

/// Turns libraries into jobs.
pub struct LibraryDownloader;

impl LibraryDownloader {
    /// One job per library, in the order of the list.
    pub fn library_files(libraries: &Vec<Library>, minecraft_path: &str) -> (r: Vec<FileData>)
        requires
            all_have_paths(libraries@),
        ensures
            r@.len() == libraries@.len(),
            forall|i: int|
                0 <= i < r@.len() ==> (#[trigger] r@[i])@ == library_job(libraries@[i], minecraft_path@),
    {
        let dir = join_path(minecraft_path, "libraries");
        let mut files: Vec<FileData> = Vec::new();
        let mut i: usize = 0;
        while i < libraries.len()
            invariant
                i <= libraries@.len(),
                all_have_paths(libraries@),
                dir@ == path_join(minecraft_path@, "libraries"@),
                files@.len() == i,
                forall|j: int|
                    0 <= j < i ==> (#[trigger] files@[j])@ == library_job(libraries@[j], minecraft_path@),
            decreases libraries.len() - i,
        {
            let lib = &libraries[i];
            assert(libraries@[i as int].has_path());
            let path = join_path(dir.as_str(), lib.get_path().as_str());
            files.push(FileData::new(path, lib.get_download_url(), Some(lib.get_sha1())));
            i = i + 1;
        }
        files
    }
}

/// Turns the asset index into jobs.
pub struct AssetDownloader;

impl AssetDownloader {
    /// One job per asset, in the order of the index.
    pub fn asset_files(assets: &AssetsJson, minecraft_path: &str) -> (r: Vec<FileData>)
        requires
            assets.hashes_named(),
        ensures
            r@.len() == assets.objects@.len(),
            forall|i: int|
                0 <= i < r@.len() ==> (#[trigger] r@[i])@ == asset_job(
                    assets.objects@[i].1.hash@,
                    minecraft_path@,
                ),
    {
        let dirs = assets.get_assets_directories();
        let objects = join_path(join_path(minecraft_path, "assets").as_str(), "objects");
        let mut files: Vec<FileData> = Vec::new();
        let mut i: usize = 0;
        while i < dirs.len()
            invariant
                i <= dirs@.len(),
                dirs@.len() == assets.objects@.len(),
                forall|j: int|
                    0 <= j < dirs@.len() ==> (#[trigger] dirs@[j])@ == asset_dir(
                        assets.objects@[j].1.hash@,
                    ),
                objects@ == path_join(path_join(minecraft_path@, "assets"@), "objects"@),
                files@.len() == i,
                forall|j: int|
                    0 <= j < i ==> (#[trigger] files@[j])@ == asset_job(
                        assets.objects@[j].1.hash@,
                        minecraft_path@,
                    ),
            decreases dirs.len() - i,
        {
            let dir = &dirs[i];
            let url = String::from_str("https://resources.download.minecraft.net/").concat(
                dir.as_str(),
            );
            let path = join_path(objects.as_str(), dir.as_str());
            files.push(FileData::new(path, url, None));
            i = i + 1;
        }
        files
    }
}

/// Builds the job lists of an install.
pub struct VersionDownloader;

impl VersionDownloader {
    /// The prerequisite files of a version, which must be on disk before the
    /// rest of its jobs can be known: its metadata, its asset index, its
    /// client and the client's mappings, in that order, none with a hash.
    pub fn initial_files(version: &StandardVersion, version_json: &VersionJson, minecraft_path: &str) -> (r: Vec<
        FileData,
    >)
        ensures
            r@.len() == 4,
            r@[0]@ == (FileDataView {
                path: version_file(minecraft_path@, version@.name, ".json"@),
                url: version@.url,
                sha1: None,
            }),
            r@[1]@ == (FileDataView {
                path: path_join(
                    path_join(path_join(minecraft_path@, "assets"@), "indexes"@),
                    version_json.asset_index.id@ + ".json"@,
                ),
                url: version_json.asset_index.url@,
                sha1: None,
            }),
            r@[2]@ == (FileDataView {
                path: version_file(minecraft_path@, version@.name, ".jar"@),
                url: version_json.downloads.client.url@,
                sha1: None,
            }),
            r@[3]@ == (FileDataView {
                path: version_file(minecraft_path@, version@.name, ".txt"@),
                url: version_json.downloads.client_mappings.url@,
                sha1: None,
            }),
    {
        let name = version.name();
        let mut files: Vec<FileData> = Vec::new();
        files.push(
            FileData::new(
                version_file_path(minecraft_path, name.as_str(), ".json"),
                version.json_url(),
                None,
            ),
        );
        files.push(
            FileData::new(
                version_json.asset_index_path(minecraft_path),
                version_json.asset_index.url.clone(),
                None,
            ),
        );
        files.push(
            FileData::new(
                version_file_path(minecraft_path, name.as_str(), ".jar"),
                version_json.get_client_url(),
                None,
            ),
        );
        files.push(
            FileData::new(
                version_file_path(minecraft_path, name.as_str(), ".txt"),
                version_json.get_client_mappings_url(),
                None,
            ),
        );
        files
    }

    /// The main batch of a version: every library, then every asset.
    pub fn batch_files(version_json: &VersionJson, assets: &AssetsJson, minecraft_path: &str) -> (r: Vec<
        FileData,
    >)
        requires
            all_have_paths(version_json.libraries@),
            assets.hashes_named(),
        ensures
            r@.len() == version_json.libraries@.len() + assets.objects@.len(),
            forall|i: int|
                0 <= i < version_json.libraries@.len() ==> (#[trigger] r@[i])@ == library_job(
                    version_json.libraries@[i],
                    minecraft_path@,
                ),
            forall|i: int|
                0 <= i < assets.objects@.len() ==> (#[trigger] r@[version_json.libraries@.len() + i])@
                    == asset_job(assets.objects@[i].1.hash@, minecraft_path@),
    {
        let mut files = LibraryDownloader::library_files(&version_json.libraries, minecraft_path);
        let mut rest = AssetDownloader::asset_files(assets, minecraft_path);
        let ghost libs = files@;
        let ghost others = rest@;
        files.append(&mut rest);
        proof {
            assert(files@ == libs + others);
            assert forall|i: int| 0 <= i < assets.objects@.len() implies (#[trigger] files@[
                version_json.libraries@.len() + i])@ == asset_job(
                assets.objects@[i].1.hash@,
                minecraft_path@,
            ) by {
                assert(files@[libs.len() + i] == others[i]);
            }
        }
        files
    }
}

/// Checks of installed versions.
pub struct VersionVerifier;

impl VersionVerifier {
    /// Where the metadata of `version` lies; a version is installed when
    /// this file exists.
    pub fn installed_marker(version: &StandardVersion, minecraft_path: &str) -> (r: String)
        ensures
            r@ == version_file(minecraft_path@, version@.name, ".json"@),
    {
        version_file_path(minecraft_path, version.name().as_str(), ".json")
    }

    /// Records whether `version` is installed, given whether its metadata
    /// file exists.
    pub fn is_installed(version: &mut StandardVersion, marker_exists: bool) -> (r: bool)
        ensures
            r == marker_exists,
            final(version)@ == (StandardVersionView {
                state: VersionState::INSTALLED(marker_exists),
                ..old(version)@
            }),
    {
        version.set_state(VersionState::INSTALLED(marker_exists));
        marker_exists
    }

    /// An installation is complete when every file of its main batch is
    /// present; `present` says, for each such file, whether it is.
    pub fn verify_installation(present: &Vec<bool>) -> (r: bool)
        ensures
            r == forall|i: int| 0 <= i < present@.len() ==> present@[i],
    {
        let mut i: usize = 0;
        while i < present.len()
            invariant
                i <= present@.len(),
                forall|j: int| 0 <= j < i ==> present@[j],
            decreases present.len() - i,
        {
            if !present[i] {
                return false;
            }
            i = i + 1;
        }
        true
    }
}

} // verus!
