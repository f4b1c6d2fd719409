//! The command line that starts the game: JVM options, class path, main
//! class, game options and account options.

use crate::config::{LauncherConfig, Profile};
use crate::install::{version_file, version_file_path};
use crate::text::path_join;
use crate::users::{OfflineUser, User};
use crate::version::StandardVersion;
use crate::version_json::{all_have_paths, Library, VersionJson};
use vstd::prelude::*;

verus! {

/// The views of a list of strings.
pub open spec fn views(v: Seq<String>) -> Seq<Seq<char>> {
    v.map_values(|s: String| s@)
}

/// The words of `s` as `str::split_whitespace` yields them.
pub uninterp spec fn words_of(s: Seq<char>) -> Seq<Seq<char>>;

/// Relies on `str::split_whitespace`: the maximal runs of non-whitespace
/// characters of `s`, in order.
#[verifier::external_body]
fn split_words(s: &str) -> (r: Vec<String>)
    ensures
        views(r@) == words_of(s@),
{
    s.split_whitespace().map(|w| w.to_string()).collect()
}

/// `parts` joined by `sep`.
pub open spec fn joined(parts: Seq<Seq<char>>, sep: Seq<char>) -> Seq<char>
    decreases parts.len(),
{
    if parts.len() == 0 {
        Seq::empty()
    } else if parts.len() == 1 {
        parts[0]
    } else {
        joined(parts.drop_last(), sep) + sep + parts.last()
    }
}

fn push_str(v: &mut Vec<String>, s: &str)
    ensures
        views(final(v)@) == views(old(v)@).push(s@),
{
    v.push(String::from_str(s));
    assert(views(v@) =~= views(old(v)@).push(s@));
}

fn push_all(v: &mut Vec<String>, w: &Vec<String>)
    ensures
        views(final(v)@) == views(old(v)@) + views(w@),
{
    let mut i: usize = 0;
    while i < w.len()
        invariant
            i <= w@.len(),
            views(v@) == views(old(v)@) + views(w@.subrange(0, i as int)),
        decreases w.len() - i,
    {
        push_str(v, w[i].as_str());
        i = i + 1;
        assert(views(w@.subrange(0, i as int)) =~= views(w@.subrange(0, i - 1)).push(w@[i - 1]@));
        assert(views(v@) =~= views(old(v)@) + views(w@.subrange(0, i as int)));
    }
    assert(w@.subrange(0, w@.len() as int) =~= w@);
}

/// Where each library lies under `minecraft_path`.
pub open spec fn library_paths(minecraft_path: Seq<char>, libs: Seq<Library>) -> Seq<Seq<char>> {
    libs.map_values(|l: Library| path_join(path_join(minecraft_path, "libraries"@), l.path_of()))
}

/// Everything the command line of a launch is made from.
#[derive(Debug)]
pub struct MinecraftLauncher {
    pub version: StandardVersion,
    pub user: OfflineUser,
    pub launcher_config: LauncherConfig,
    pub version_json: VersionJson,
}

/// The JVM options of a launch with `profile`.
pub open spec fn jvm_args_spec(profile: Option<&Profile>) -> Seq<Seq<char>> {
    match profile {
        Some(p) => match p.java_args {
            Some(a) => words_of(a@),
            None => seq!["-Xmx8G"@],
        },
        None => seq!["-Xmx8G"@],
    }
}

impl MinecraftLauncher {
    pub open spec fn game_args_spec(&self) -> Seq<Seq<char>> {
        seq![
            "--version"@,
            self.version@.name,
            "--gameDir"@,
            self.launcher_config.minecraft_path@,
            "--assetsDir"@,
            path_join(self.launcher_config.minecraft_path@, "assets"@),
            "--assetIndex"@,
            self.version_json.asset_index.id@,
            "--versionType"@,
            "release"@,
        ]
    }

    pub open spec fn auth_args_spec(&self) -> Seq<Seq<char>> {
        seq![
            "--username"@,
            self.user.name@,
            "--uuid"@,
            "what?"@,
            "--accessToken"@,
            "i haven't that"@,
            "--clientId"@,
            "where client_id is obtained?"@,
            "--xuid"@,
            "sad"@,
            "--userType"@,
            "legacy"@,
        ]
    }

    pub open spec fn classpath_spec(&self, delimiter: Seq<char>) -> Seq<char> {
        joined(
            library_paths(self.launcher_config.minecraft_path@, self.version_json.libraries@),
            delimiter,
        ) + delimiter + version_file(self.launcher_config.minecraft_path@, self.version@.name, ".jar"@)
    }

    /// The JVM options: those of the profile split into words, or a heap of
    /// eight gigabytes when the profile gives none.
    pub fn build_jvm_args(&self, profile: Option<&Profile>) -> (r: Vec<String>)
        ensures
            views(r@) == jvm_args_spec(profile),
    {
        if let Some(p) = profile {
            if let Some(a) = &p.java_args {
                return split_words(a.as_str());
            }
        }
        let mut r: Vec<String> = Vec::new();
        push_str(&mut r, "-Xmx8G");
        assert(views(r@) =~= seq!["-Xmx8G"@]);
        r
    }

    /// The game options: version, game directory, assets directory, asset
    /// index and version type.
    pub fn build_game_args(&self) -> (r: Vec<String>)
        ensures
            views(r@) == self.game_args_spec(),
    {
        let mut r: Vec<String> = Vec::new();
        push_str(&mut r, "--version");
        push_str(&mut r, self.version.name().as_str());
        push_str(&mut r, "--gameDir");
        push_str(&mut r, self.launcher_config.minecraft_path.as_str());
        push_str(&mut r, "--assetsDir");
        push_str(&mut r, self.launcher_config.assets_path().as_str());
        push_str(&mut r, "--assetIndex");
        push_str(&mut r, self.version_json.asset_index.id.as_str());
        push_str(&mut r, "--versionType");
        push_str(&mut r, "release");
        assert(views(r@) =~= self.game_args_spec());
        r
    }

    /// The account options of an offline account.
    pub fn build_auth_args(&self) -> (r: Vec<String>)
        ensures
            views(r@) == self.auth_args_spec(),
    {
        let mut r: Vec<String> = Vec::new();
        push_str(&mut r, "--username");
        push_str(&mut r, self.user.username().as_str());
        push_str(&mut r, "--uuid");
        push_str(&mut r, "what?");
        push_str(&mut r, "--accessToken");
        push_str(&mut r, "i haven't that");
        push_str(&mut r, "--clientId");
        push_str(&mut r, "where client_id is obtained?");
        push_str(&mut r, "--xuid");
        push_str(&mut r, "sad");
        push_str(&mut r, "--userType");
        push_str(&mut r, "legacy");
        assert(views(r@) =~= self.auth_args_spec());
        r
    }

    /// The class path: every library, then the client jar, separated by
    /// `delimiter` (`:` on Unix, `;` on Windows).
    pub fn build_classpath(&self, client_jar_path: &str, delimiter: &str) -> (r: String)
        requires
            all_have_paths(self.version_json.libraries@),
        ensures
            r@ == joined(
                library_paths(self.launcher_config.minecraft_path@, self.version_json.libraries@),
                delimiter@,
            ) + delimiter@ + client_jar_path@,
    {
        let libraries = self.version_json.get_libraries_path(self.launcher_config.minecraft_path.as_str());
        let mut classpath = String::new();
        let mut i: usize = 0;
        while i < libraries.len()
            invariant
                i <= libraries@.len(),
                classpath@ == joined(views(libraries@.subrange(0, i as int)), delimiter@),
            decreases libraries.len() - i,
        {
            let ghost before = views(libraries@.subrange(0, i as int));
            if i > 0 {
                classpath.append(delimiter);
            }
            classpath.append(libraries[i].as_str());
            i = i + 1;
            proof {
                let now = views(libraries@.subrange(0, i as int));
                assert(now =~= before.push(libraries@[i - 1]@));
                assert(now.drop_last() =~= before);
            }
        }
        proof {
            assert(libraries@.subrange(0, libraries@.len() as int) =~= libraries@);
            assert(views(libraries@) =~= library_paths(
                self.launcher_config.minecraft_path@,
                self.version_json.libraries@,
            ));
        }
        classpath.append(delimiter);
        classpath.append(client_jar_path);
        classpath
    }

    /// The client jar of the version: `versions/<name>/<name>.jar`.
    pub fn client_jar(&self) -> (r: String)
        ensures
            r@ == version_file(self.launcher_config.minecraft_path@, self.version@.name, ".jar"@),
    {
        version_file_path(self.launcher_config.minecraft_path.as_str(), self.version.name().as_str(), ".jar")
    }

    /// The whole command line after the java executable: JVM options, the
    /// class path, the main class, the game options and the account options.
    pub fn command_args(&self, profile: Option<&Profile>, delimiter: &str) -> (r: Vec<String>)
        requires
            all_have_paths(self.version_json.libraries@),
        ensures
            views(r@) == jvm_args_spec(profile) + seq![
                "-cp"@,
                self.classpath_spec(delimiter@),
                self.version_json.main_class@,
            ] + self.game_args_spec() + self.auth_args_spec(),
    {
        let mut r = self.build_jvm_args(profile);
        push_str(&mut r, "-cp");
        let jar = self.client_jar();
        push_str(&mut r, self.build_classpath(jar.as_str(), delimiter).as_str());
        push_str(&mut r, self.version_json.get_main_class().as_str());
        push_all(&mut r, &self.build_game_args());
        push_all(&mut r, &self.build_auth_args());
        r
    }
}

/// Gathers what a launch needs.
#[derive(Debug)]
pub struct MinecraftBuilder {
    version: Option<StandardVersion>,
    user: Option<OfflineUser>,
}

pub open spec fn version_required() -> Seq<char> {
    "Version is required"@
}

pub open spec fn user_required() -> Seq<char> {
    "User is required"@
}

impl MinecraftBuilder {
    pub closed spec fn has_version(&self) -> bool {
        self.version is Some
    }

    pub closed spec fn has_user(&self) -> bool {
        self.user is Some
    }

    pub fn new() -> (r: Self)
        ensures
            !r.has_version(),
            !r.has_user(),
    {
        MinecraftBuilder { version: None, user: None }
    }

    pub fn version(self, version: StandardVersion) -> (r: Self)
        ensures
            r.has_version(),
            r.has_user() == self.has_user(),
    {
        MinecraftBuilder { version: Some(version), ..self }
    }

    pub fn user(self, user: OfflineUser) -> (r: Self)
        ensures
            r.has_user(),
            r.has_version() == self.has_version(),
    {
        MinecraftBuilder { user: Some(user), ..self }
    }

    /// The launch of the chosen version by the chosen account, with the
    /// configuration and the version's metadata; a version is needed first,
    /// then an account.
    pub fn build(self, launcher_config: LauncherConfig, version_json: VersionJson) -> (r: Result<
        MinecraftLauncher,
        String,
    >)
        ensures
            !self.has_version() ==> (r matches Err(e) && e@ == version_required()),
            self.has_version() && !self.has_user() ==> (r matches Err(e) && e@ == user_required()),
            self.has_version() && self.has_user() ==> (r matches Ok(l) && l.launcher_config
                == launcher_config && l.version_json == version_json),
    {
        match (self.version, self.user) {
            (None, _) => Err(String::from_str("Version is required")),
            (Some(_), None) => Err(String::from_str("User is required")),
            (Some(version), Some(user)) => Ok(MinecraftLauncher { version, user, launcher_config, version_json }),
        }
    }
}

} // verus!
