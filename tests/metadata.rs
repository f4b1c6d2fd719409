use rustacean_launcher::config::{LauncherConfig, LauncherProfiles, LauncherSettings, Profile, SelectedUser, Ui};
use rustacean_launcher::install::{version_file_path, AssetDownloader, LibraryDownloader, VersionDownloader, VersionVerifier};
use rustacean_launcher::manifest::{LatestVersion, Manifest, ManifestError, VersionInfo, VersionManager};
use rustacean_launcher::text::{contains, join_path};
use rustacean_launcher::version::{StandardVersion, VersionBuildError, VersionBuilder, VersionState};
use rustacean_launcher::version_json::{
    Asset, AssetIndex, AssetsJson, Download, Downloads, Library, LibraryDownload, LibraryRule, Os, VersionJson, VersionType,
};

fn download(path: Option<&str>, url: &str, sha1: &str) -> Download {
    Download { path: path.map(|p| p.to_string()), url: url.to_string(), sha1: sha1.to_string() }
}

fn library(name: &str, path: &str, rules: Option<Vec<&str>>) -> Library {
    Library {
        downloads: LibraryDownload { artifact: download(Some(path), &format!("https://libs.example.org/{}", path), "0123") },
        name: name.to_string(),
        rules: rules.map(|r| r.into_iter().map(|os| LibraryRule { os: Some(Os { name: os.to_string() }) }).collect()),
    }
}

fn version_json() -> VersionJson {
    VersionJson {
        id: "1.21.3".to_string(),
        downloads: Downloads {
            client: download(None, "https://example.org/client.jar", "c1"),
            client_mappings: download(None, "https://example.org/client.txt", "c2"),
        },
        libraries: vec![library("com.mojang:brigadier:1.3.10", "com/mojang/brigadier.jar", None)],
        main_class: "net.minecraft.client.main.Main".to_string(),
        asset_index: AssetIndex { id: "18".to_string(), url: "https://example.org/18.json".to_string(), sha1: "ai".to_string() },
        version_type: VersionType::RELEASE,
    }
}

fn assets() -> AssetsJson {
    AssetsJson {
        objects: vec![
            ("icons/icon.png".to_string(), Asset { hash: "4e0c9a57bb83358f5c36f5d32cf7635b2ec66532".to_string() }),
            ("sounds/a.ogg".to_string(), Asset { hash: "a5d830475ec0958d9fdba1559efa99aef211e6ff".to_string() }),
        ],
    }
}

#[test]
fn text_helpers() {
    assert_eq!(join_path("Minecraft", "libraries"), "Minecraft/libraries");
    assert!(contains("org.lwjgl:lwjgl:3.3.1:natives-linux", ":natives"));
    assert!(!contains("org.lwjgl:lwjgl:3.3.1", ":natives"));
    assert!(contains("abc", ""));
    assert!(!contains("ab", "abc"));
}

#[test]
fn library_getters() {
    let lib = library("org.lwjgl:lwjgl:3.3.1:natives-linux", "org/lwjgl/lwjgl.jar", None);
    assert_eq!(lib.name(), "org.lwjgl:lwjgl:3.3.1:natives-linux");
    assert_eq!(lib.get_download_url(), "https://libs.example.org/org/lwjgl/lwjgl.jar");
    assert_eq!(lib.get_path(), "org/lwjgl/lwjgl.jar");
    assert_eq!(lib.get_sha1(), "0123");
    assert!(lib.is_native());
    assert!(!library("com.mojang:brigadier:1.3.10", "x.jar", None).is_native());
    assert_eq!(lib.clone().name(), lib.name());
}

#[test]
fn native_filter_by_os() {
    let by_name = library("org.lwjgl:lwjgl:3.3.1:natives-linux", "l.jar", None);
    assert!(by_name.filter_native_by_os("linux"));
    assert!(!by_name.filter_native_by_os("windows"));
    let by_rule = library("org.lwjgl:lwjgl:3.3.1", "l.jar", Some(vec!["osx", "windows"]));
    assert!(by_rule.filter_native_by_os("macos"));
    assert!(by_rule.filter_native_by_os("windows"));
    assert!(!by_rule.filter_native_by_os("linux"));
    let no_os = Library { rules: Some(vec![LibraryRule { os: None }]), ..by_rule.clone() };
    assert!(!no_os.filter_native_by_os("linux"));
}

#[test]
fn asset_directories_are_prefixed_by_two_characters() {
    let dirs = assets().get_assets_directories();
    assert_eq!(
        dirs,
        vec![
            "4e/4e0c9a57bb83358f5c36f5d32cf7635b2ec66532".to_string(),
            "a5/a5d830475ec0958d9fdba1559efa99aef211e6ff".to_string()
        ]
    );
}

#[test]
fn version_json_getters_and_paths() {
    let vj = version_json();
    assert_eq!(vj.get_client_url(), "https://example.org/client.jar");
    assert_eq!(vj.get_client_mappings_url(), "https://example.org/client.txt");
    assert_eq!(vj.get_libraries().len(), 1);
    assert_eq!(vj.get_libraries_path("Minecraft"), vec!["Minecraft/libraries/com/mojang/brigadier.jar".to_string()]);
    assert_eq!(vj.get_asset_index().id, "18");
    assert_eq!(vj.asset_index_path("Minecraft"), "Minecraft/assets/indexes/18.json");
    assert_eq!(vj.get_type(), VersionType::RELEASE);
    assert_eq!(vj.get_main_class(), "net.minecraft.client.main.Main");
    assert_eq!(vj.id(), "1.21.3");
}

#[test]
fn library_and_asset_jobs() {
    let vj = version_json();
    let libs = LibraryDownloader::library_files(&vj.libraries, "mc");
    assert_eq!(libs.len(), 1);
    assert_eq!(libs[0].path, "mc/libraries/com/mojang/brigadier.jar");
    assert_eq!(libs[0].url, "https://libs.example.org/com/mojang/brigadier.jar");
    assert_eq!(libs[0].sha1.as_deref(), Some("0123"));
    let a = AssetDownloader::asset_files(&assets(), "mc");
    assert_eq!(a.len(), 2);
    assert_eq!(a[1].path, "mc/assets/objects/a5/a5d830475ec0958d9fdba1559efa99aef211e6ff");
    assert_eq!(a[1].url, "https://resources.download.minecraft.net/a5/a5d830475ec0958d9fdba1559efa99aef211e6ff");
    assert_eq!(a[1].sha1, None);
    let all = VersionDownloader::batch_files(&vj, &assets(), "mc");
    assert_eq!(all.len(), 3);
    assert_eq!(all[0].path, libs[0].path);
    assert_eq!(all[2].url, a[1].url);
}

#[test]
fn initial_files_of_a_version() {
    let v = StandardVersion::new("1.21.3", VersionType::RELEASE, "https://example.org/1.21.3.json", VersionState::INSTALLED(false));
    let files = VersionDownloader::initial_files(&v, &version_json(), "mc");
    let got: Vec<(&str, &str)> = files.iter().map(|f| (f.path.as_str(), f.url.as_str())).collect();
    assert_eq!(
        got,
        vec![
            ("mc/versions/1.21.3/1.21.3.json", "https://example.org/1.21.3.json"),
            ("mc/assets/indexes/18.json", "https://example.org/18.json"),
            ("mc/versions/1.21.3/1.21.3.jar", "https://example.org/client.jar"),
            ("mc/versions/1.21.3/1.21.3.txt", "https://example.org/client.txt"),
        ]
    );
    assert!(files.iter().all(|f| f.sha1.is_none()));
}

#[test]
fn verifier_marks_installation_state() {
    let mut v = StandardVersion::new("1.19.3", VersionType::RELEASE, "u", VersionState::DOWNLOADING);
    assert_eq!(VersionVerifier::installed_marker(&v, "mc"), "mc/versions/1.19.3/1.19.3.json");
    assert!(VersionVerifier::is_installed(&mut v, true));
    assert_eq!(v.state(), VersionState::INSTALLED(true));
    assert!(!VersionVerifier::is_installed(&mut v, false));
    assert_eq!(v.state(), VersionState::INSTALLED(false));
    assert!(VersionVerifier::verify_installation(&vec![true, true]));
    assert!(!VersionVerifier::verify_installation(&vec![true, false, true]));
    assert!(VersionVerifier::verify_installation(&vec![]));
    assert_eq!(version_file_path("a", "b", ".c"), "a/versions/b/b.c");
}

#[test]
fn standard_version_accessors() {
    let mut v = StandardVersion::new("1.20", VersionType::SNAPSHOT, "https://x/1.20.json", VersionState::VERIFYING);
    assert_eq!(v.name(), "1.20");
    assert_eq!(v.json_url(), "https://x/1.20.json");
    assert_eq!(v.version_type(), VersionType::SNAPSHOT);
    assert_eq!(v.state(), VersionState::VERIFYING);
    v.set_name("1.21".to_string());
    v.set_state(VersionState::DOWNLOADING);
    v.set_version_type(VersionType::OldBeta);
    assert_eq!(v.name(), "1.21");
    assert_eq!(v.state(), VersionState::DOWNLOADING);
    assert_eq!(v.version_type(), VersionType::OldBeta);
    let local = StandardVersion::from_local(&version_json());
    assert_eq!(local.name(), "1.21.3");
    assert_eq!(local.json_url(), "");
    assert_eq!(local.state(), VersionState::INSTALLED(true));
    assert_eq!(v.clone().name(), "1.21");
}

#[test]
fn version_builder_outcomes() {
    let v = VersionBuilder::default().name("1.21.3").state(VersionState::INSTALLED(false)).url("https://x").build().unwrap();
    assert_eq!(v.name(), "1.21.3");
    assert_eq!(v.json_url(), "https://x");
    assert_eq!(v.version_type(), VersionType::RELEASE);
    let no_url = VersionBuilder::realease().name("a").state(VersionState::VERIFYING).build().unwrap();
    assert_eq!(no_url.json_url(), "");
    assert_eq!(VersionBuilder::realease().state(VersionState::VERIFYING).build().unwrap_err(), VersionBuildError::NoName);
    assert_eq!(VersionBuilder::snapshot().name("b").build().unwrap_err(), VersionBuildError::UnsupportedType);
}

fn manifest() -> Manifest {
    let info = |id: &str, t| VersionInfo { id: id.to_string(), url: format!("https://x/{}.json", id), version_type: t };
    Manifest {
        latest: LatestVersion { release: "1.21.3".to_string(), snapshot: "24w44a".to_string() },
        versions: vec![
            info("24w44a", VersionType::SNAPSHOT),
            info("1.21.3", VersionType::RELEASE),
            info("b1.7.3", VersionType::OldBeta),
            info("a1.2.6", VersionType::OldAlpha),
        ],
    }
}

#[test]
fn manifest_lookup() {
    let m = manifest();
    let v = m.get_version_by_id("1.21.3").unwrap();
    assert_eq!(v.url, "https://x/1.21.3.json");
    assert_eq!(v.version_type, VersionType::RELEASE);
    match m.get_version_by_id("9.9") {
        Err(ManifestError::NotFound(id)) => assert_eq!(id, "9.9"),
        Ok(_) => panic!("found a version that is not listed"),
    }
    assert_eq!(m.get_all_version_ref().len(), 4);
    let sv = StandardVersion::from_info(&v);
    assert_eq!(sv.state(), VersionState::INSTALLED(false));
}

#[test]
fn versions_listed_by_settings() {
    let m = manifest();
    let names = |s: &Option<LauncherSettings>| -> Vec<String> {
        VersionManager::versions_by_manifest(&m, s).iter().map(|v| v.name()).collect()
    };
    assert_eq!(names(&Some(LauncherSettings::default())), vec!["24w44a".to_string(), "1.21.3".to_string()]);
    let mut all = LauncherSettings::default();
    all.allowBeta = true;
    all.allowAlpha = true;
    all.allowSnapshot = false;
    assert_eq!(names(&Some(all)), vec!["1.21.3".to_string(), "b1.7.3".to_string(), "a1.2.6".to_string()]);
    assert!(names(&None).is_empty());
}

#[test]
fn launcher_config_paths() {
    let c = LauncherConfig::default();
    assert_eq!(c.minecraft_path(), "Minecraft");
    assert_eq!(c.libraries_path(), "Minecraft/libraries");
    assert_eq!(c.assets_path(), "Minecraft/assets");
    assert_eq!(c.versions_path(), "Minecraft/versions");
    assert_eq!(c.ui, Ui::TUI);
    assert_eq!(c.version_manifest_link, "https://piston-meta.mojang.com/mc/game/version_manifest_v2.json");
}

#[test]
fn launcher_settings_default() {
    let s = LauncherSettings::default();
    assert!(s.allowSnapshot);
    assert!(!s.allowBeta && !s.allowAlpha && !s.crashAssistance);
    assert_eq!(s.profileSorting.as_deref(), Some("LastUsed"));
}

#[test]
fn launcher_profiles_getters() {
    let p = LauncherProfiles::default();
    assert!(p.profiles().is_empty());
    assert!(p.settings().is_none());
    assert_eq!(p.client_token(), "");
    assert_eq!(p.selected_user_account(), "");
    let profile = Profile {
        name: "main".to_string(),
        profile_type: None,
        created: None,
        last_used: None,
        last_version_id: "1.21.3".to_string(),
        game_dir: None,
        java_dir: None,
        java_args: Some("-Xmx4G".to_string()),
        resolution: None,
        icon: None,
        use_latest_version: Some(true),
    };
    let p = LauncherProfiles::new(
        vec![("k".to_string(), profile)],
        SelectedUser { account: "acc".to_string() },
        Vec::new(),
        "tok".to_string(),
        None,
        Some(LauncherSettings::default()),
    );
    assert_eq!(p.profiles()[0].1.java_args.as_deref(), Some("-Xmx4G"));
    assert_eq!(p.selected_user_account(), "acc");
    assert_eq!(p.client_token(), "tok");
    assert!(p.authentication_database().is_empty());
    assert!(p.settings().unwrap().allowSnapshot);
}
