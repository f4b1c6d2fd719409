use rustacean_launcher::config::{LauncherConfig, Profile, Ui};
use rustacean_launcher::launch::{MinecraftBuilder, MinecraftLauncher};
use rustacean_launcher::users::OfflineUser;
use rustacean_launcher::version::{StandardVersion, VersionState};
use rustacean_launcher::version_json::{
    AssetIndex, Download, Downloads, Library, LibraryDownload, VersionJson, VersionType,
};

fn download(path: Option<&str>, url: &str) -> Download {
    Download { path: path.map(|p| p.to_string()), url: url.to_string(), sha1: "s".to_string() }
}

fn launcher(libs: &[&str]) -> MinecraftLauncher {
    MinecraftLauncher {
        version: StandardVersion::new("1.21.3", VersionType::RELEASE, "u", VersionState::INSTALLED(true)),
        user: OfflineUser { name: "Steve".to_string() },
        launcher_config: LauncherConfig {
            minecraft_path: "mc".to_string(),
            version_manifest_link: "m".to_string(),
            ui: Ui::GUI,
        },
        version_json: VersionJson {
            id: "1.21.3".to_string(),
            downloads: Downloads { client: download(None, "c"), client_mappings: download(None, "m") },
            libraries: libs
                .iter()
                .map(|p| Library {
                    downloads: LibraryDownload { artifact: download(Some(p), "l") },
                    name: p.to_string(),
                    rules: None,
                })
                .collect(),
            main_class: "net.minecraft.client.main.Main".to_string(),
            asset_index: AssetIndex { id: "18".to_string(), url: "a".to_string(), sha1: "b".to_string() },
            version_type: VersionType::RELEASE,
        },
    }
}

fn profile(java_args: Option<&str>) -> Profile {
    Profile {
        name: "p".to_string(),
        profile_type: None,
        created: None,
        last_used: None,
        last_version_id: "1.21.3".to_string(),
        game_dir: None,
        java_dir: None,
        java_args: java_args.map(|s| s.to_string()),
        resolution: None,
        icon: None,
        use_latest_version: None,
    }
}

#[test]
fn jvm_args_come_from_profile_or_default() {
    let l = launcher(&[]);
    assert_eq!(l.build_jvm_args(None), vec!["-Xmx8G".to_string()]);
    assert_eq!(l.build_jvm_args(Some(&profile(None))), vec!["-Xmx8G".to_string()]);
    assert_eq!(
        l.build_jvm_args(Some(&profile(Some("  -Xmx4G\t-XX:+UseG1GC  ")))),
        vec!["-Xmx4G".to_string(), "-XX:+UseG1GC".to_string()]
    );
}

#[test]
fn classpath_joins_libraries_then_client() {
    let l = launcher(&["a/x.jar", "b/y.jar"]);
    assert_eq!(l.client_jar(), "mc/versions/1.21.3/1.21.3.jar");
    assert_eq!(
        l.build_classpath("mc/versions/1.21.3/1.21.3.jar", ":"),
        "mc/libraries/a/x.jar:mc/libraries/b/y.jar:mc/versions/1.21.3/1.21.3.jar"
    );
    assert_eq!(launcher(&[]).build_classpath("c.jar", ";"), ";c.jar");
}

#[test]
fn full_command_line() {
    let l = launcher(&["a/x.jar"]);
    let args = l.command_args(None, ":");
    let expected: Vec<&str> = vec![
        "-Xmx8G",
        "-cp",
        "mc/libraries/a/x.jar:mc/versions/1.21.3/1.21.3.jar",
        "net.minecraft.client.main.Main",
        "--version",
        "1.21.3",
        "--gameDir",
        "mc",
        "--assetsDir",
        "mc/assets",
        "--assetIndex",
        "18",
        "--versionType",
        "release",
        "--username",
        "Steve",
        "--uuid",
        "what?",
        "--accessToken",
        "i haven't that",
        "--clientId",
        "where client_id is obtained?",
        "--xuid",
        "sad",
        "--userType",
        "legacy",
    ];
    assert_eq!(args, expected.iter().map(|s| s.to_string()).collect::<Vec<_>>());
}

#[test]
fn builder_needs_version_then_user() {
    let l = launcher(&[]);
    let e = MinecraftBuilder::new().build(LauncherConfig::default(), l.version_json);
    assert_eq!(e.unwrap_err(), "Version is required");
    let l = launcher(&[]);
    let e = MinecraftBuilder::new().version(l.version).build(l.launcher_config, l.version_json);
    assert_eq!(e.unwrap_err(), "User is required");
    let l = launcher(&[]);
    let ok = MinecraftBuilder::new()
        .user(OfflineUser { name: "Alex".to_string() })
        .version(l.version)
        .build(l.launcher_config, l.version_json)
        .unwrap();
    assert_eq!(ok.build_auth_args()[1], "Alex");
    assert_eq!(ok.launcher_config.minecraft_path, "mc");
}

#[test]
fn version_description() {
    let l = launcher(&[]);
    assert_eq!(l.version.describe(), "Name: 1.21.3, Type: RELEASE");
    let s = StandardVersion::new("b1.7.3", VersionType::OldBeta, "", VersionState::VERIFYING);
    assert_eq!(s.describe(), "Name: b1.7.3, Type: OldBeta");
}
