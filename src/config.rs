//! The launcher's configuration and the profiles file of the game.

use crate::job::copy_opt;
use crate::text::{join_path, path_join};
use vstd::prelude::*;

verus! {

/// Which interface the launcher starts.
#[allow(clippy::upper_case_acronyms)]
#[derive(Debug, Clone, Copy, PartialEq, Eq, Structural)]
pub enum Ui {
    TUI,
    GUI,
}

/// Where the game tree lies and where the list of versions is read from.
#[derive(Debug)]
pub struct LauncherConfig {
    pub minecraft_path: String,
    pub version_manifest_link: String,
    pub ui: Ui,
}

impl LauncherConfig {
    /// The configuration written when none exists.
    pub fn default() -> (r: Self)
        ensures
            r.minecraft_path@ == "Minecraft"@,
            r.version_manifest_link@ == "https://piston-meta.mojang.com/mc/game/version_manifest_v2.json"@,
            r.ui == Ui::TUI,
    {
        LauncherConfig {
            minecraft_path: String::from_str("Minecraft"),
            version_manifest_link: String::from_str(
                "https://piston-meta.mojang.com/mc/game/version_manifest_v2.json",
            ),
            ui: Ui::TUI,
        }
    }

    /// The root of the game tree.
    pub fn minecraft_path(&self) -> (r: String)
        ensures
            r == self.minecraft_path,
    {
        self.minecraft_path.clone()
    }

    pub fn libraries_path(&self) -> (r: String)
        ensures
            r@ == path_join(self.minecraft_path@, "libraries"@),
    {
        join_path(self.minecraft_path.as_str(), "libraries")
    }

    pub fn assets_path(&self) -> (r: String)
        ensures
            r@ == path_join(self.minecraft_path@, "assets"@),
    {
        join_path(self.minecraft_path.as_str(), "assets")
    }

    pub fn versions_path(&self) -> (r: String)
        ensures
            r@ == path_join(self.minecraft_path@, "versions"@),
    {
        join_path(self.minecraft_path.as_str(), "versions")
    }
}

/// A width and a height in pixels.
#[derive(Debug, Clone, Copy, PartialEq, Eq, Structural)]
pub struct Resolution {
    pub width: u32,
    pub height: u32,
}

/// A launch profile of the game.
#[derive(Debug)]
pub struct Profile {
    pub name: String,
    pub profile_type: Option<String>,
    pub created: Option<String>,
    pub last_used: Option<String>,
    pub last_version_id: String,
    pub game_dir: Option<String>,
    pub java_dir: Option<String>,
    pub java_args: Option<String>,
    pub resolution: Option<Resolution>,
    pub icon: Option<String>,
    pub use_latest_version: Option<bool>,
}

impl Clone for Profile {
    fn clone(&self) -> (r: Self)
        ensures
            r == *self,
    {
        Profile {
            name: self.name.clone(),
            profile_type: copy_opt(&self.profile_type),
            created: copy_opt(&self.created),
            last_used: copy_opt(&self.last_used),
            last_version_id: self.last_version_id.clone(),
            game_dir: copy_opt(&self.game_dir),
            java_dir: copy_opt(&self.java_dir),
            java_args: copy_opt(&self.java_args),
            resolution: self.resolution,
            icon: copy_opt(&self.icon),
            use_latest_version: self.use_latest_version,
        }
    }
}

/// The account selected in the profiles file.
#[derive(Debug)]
pub struct SelectedUser {
    pub account: String,
}

/// An account of the profiles file.
#[derive(Debug)]
pub struct AuthData {
    pub display_name: String,
    pub access_token: Option<String>,
    pub userid: Option<String>,
    pub uuid: String,
    pub username: String,
    pub user_type: Option<String>,
    pub xuid: Option<String>,
}

impl Clone for AuthData {
    fn clone(&self) -> (r: Self)
        ensures
            r == *self,
    {
        AuthData {
            display_name: self.display_name.clone(),
            access_token: copy_opt(&self.access_token),
            userid: copy_opt(&self.userid),
            uuid: self.uuid.clone(),
            username: self.username.clone(),
            user_type: copy_opt(&self.user_type),
            xuid: copy_opt(&self.xuid),
        }
    }
}

/// The launcher that wrote the profiles file.
#[derive(Debug)]
pub struct LauncherVersion {
    pub name: String,
    pub format: u8,
    pub profiles_format: u8,
}

/// Settings of the profiles file.
#[allow(non_snake_case)]
#[derive(Debug)]
pub struct LauncherSettings {
    pub crashAssistance: bool,
    pub enableAdvanced: bool,
    pub keepLauncherOpen: bool,
    pub showGameLog: bool,
    pub allowSnapshot: bool,
    pub allowBeta: bool,
    pub allowAlpha: bool,
    pub useNativeLauncher: bool,
    pub profileSorting: Option<String>,
}

impl Clone for LauncherSettings {
    fn clone(&self) -> (r: Self)
        ensures
            r == *self,
    {
        LauncherSettings {
            crashAssistance: self.crashAssistance,
            enableAdvanced: self.enableAdvanced,
            keepLauncherOpen: self.keepLauncherOpen,
            showGameLog: self.showGameLog,
            allowSnapshot: self.allowSnapshot,
            allowBeta: self.allowBeta,
            allowAlpha: self.allowAlpha,
            useNativeLauncher: self.useNativeLauncher,
            profileSorting: copy_opt(&self.profileSorting),
        }
    }
}

impl LauncherSettings {
    /// Snapshots allowed, sorted by last use, everything else off.
    pub fn default() -> (r: Self)
        ensures
            !r.crashAssistance && !r.enableAdvanced && !r.keepLauncherOpen && !r.showGameLog,
            r.allowSnapshot,
            !r.allowBeta && !r.allowAlpha && !r.useNativeLauncher,
            r.profileSorting matches Some(s) && s@ == "LastUsed"@,
    {
        LauncherSettings {
            crashAssistance: false,
            enableAdvanced: false,
            keepLauncherOpen: false,
            showGameLog: false,
            allowSnapshot: true,
            allowBeta: false,
            allowAlpha: false,
            useNativeLauncher: false,
            profileSorting: Some(String::from_str("LastUsed")),
        }
    }
}

/// Copies a list of named entries.
fn copy_entries<T: Clone>(v: &Vec<(String, T)>) -> (r: Vec<(String, T)>)
    ensures
        r@.len() == v@.len(),
        forall|i: int|
            0 <= i < v@.len() ==> (#[trigger] r@[i]).0 == v@[i].0 && cloned::<T>(v@[i].1, r@[i].1),
{
    let mut r: Vec<(String, T)> = Vec::new();
    let mut i: usize = 0;
    while i < v.len()
        invariant
            i <= v.len(),
            r@.len() == i,
            forall|j: int|
                0 <= j < i ==> (#[trigger] r@[j]).0 == v@[j].0 && cloned::<T>(v@[j].1, r@[j].1),
        decreases v.len() - i,
    {
        let name = v[i].0.clone();
        let value = v[i].1.clone();
        r.push((name, value));
        i = i + 1;
    }
    r
}

/// The profiles file of the game: profiles and accounts under their keys,
/// in the order of the file.
#[derive(Debug)]
pub struct LauncherProfiles {
    profiles: Vec<(String, Profile)>,
    selected_user: SelectedUser,
    authentication_database: Vec<(String, AuthData)>,
    client_token: String,
    launcher_version: Option<LauncherVersion>,
    settings: Option<LauncherSettings>,
}

impl LauncherProfiles {
    pub fn new(
        profiles: Vec<(String, Profile)>,
        selected_user: SelectedUser,
        authentication_database: Vec<(String, AuthData)>,
        client_token: String,
        launcher_version: Option<LauncherVersion>,
        settings: Option<LauncherSettings>,
    ) -> (r: Self)
        ensures
            r.profiles_spec() == profiles@,
            r.selected_account() == selected_user.account@,
            r.accounts() == authentication_database@,
            r.token() == client_token@,
            r.settings_spec() == settings,
    {
        LauncherProfiles {
            profiles,
            selected_user,
            authentication_database,
            client_token,
            launcher_version,
            settings,
        }
    }

    /// No profile, no account, no settings.
    pub fn default() -> (r: Self)
        ensures
            r.profiles_spec().len() == 0,
            r.selected_account().len() == 0,
            r.accounts().len() == 0,
            r.token().len() == 0,
            r.settings_spec() is None,
    {
        LauncherProfiles {
            profiles: Vec::new(),
            selected_user: SelectedUser { account: String::new() },
            authentication_database: Vec::new(),
            client_token: String::new(),
            launcher_version: None,
            settings: None,
        }
    }

    pub closed spec fn profiles_spec(&self) -> Seq<(String, Profile)> {
        self.profiles@
    }

    pub closed spec fn selected_account(&self) -> Seq<char> {
        self.selected_user.account@
    }

    pub closed spec fn accounts(&self) -> Seq<(String, AuthData)> {
        self.authentication_database@
    }

    pub closed spec fn token(&self) -> Seq<char> {
        self.client_token@
    }

    pub closed spec fn settings_spec(&self) -> Option<LauncherSettings> {
        self.settings
    }

    pub fn settings(&self) -> (r: Option<LauncherSettings>)
        ensures
            r == self.settings_spec(),
    {
        match &self.settings {
            Some(s) => Some(s.clone()),
            None => None,
        }
    }

    pub fn selected_user_account(&self) -> (r: String)
        ensures
            r@ == self.selected_account(),
    {
        self.selected_user.account.clone()
    }

    pub fn authentication_database(&self) -> (r: Vec<(String, AuthData)>)
        ensures
            r@.len() == self.accounts().len(),
            forall|i: int| 0 <= i < r@.len() ==> #[trigger] r@[i] == self.accounts()[i],
    {
        let r = copy_entries(&self.authentication_database);
        proof {
            assert forall|i: int| 0 <= i < r@.len() implies #[trigger] r@[i] == self.accounts()[i] by {
                assert(cloned::<AuthData>(self.authentication_database@[i].1, r@[i].1));
            }
        }
        r
    }

    pub fn client_token(&self) -> (r: String)
        ensures
            r@ == self.token(),
    {
        self.client_token.clone()
    }

    pub fn profiles(&self) -> (r: Vec<(String, Profile)>)
        ensures
            r@.len() == self.profiles_spec().len(),
            forall|i: int| 0 <= i < r@.len() ==> #[trigger] r@[i] == self.profiles_spec()[i],
    {
        let r = copy_entries(&self.profiles);
        proof {
            assert forall|i: int| 0 <= i < r@.len() implies #[trigger] r@[i] == self.profiles_spec()[i] by {
                assert(cloned::<Profile>(self.profiles@[i].1, r@[i].1));
            }
        }
        r
    }
}

} // verus!
