//! Versions as the launcher lists them: name, kind, metadata URL and
//! installation state.

use crate::manifest::VersionInfo;
use crate::version_json::{VersionJson, VersionType};
use vstd::prelude::*;

verus! {

/// Where a version stands on this machine.
#[allow(non_camel_case_types)]
#[derive(Debug, Clone, Copy, PartialEq, Eq, Structural)]
pub enum VersionState {
    INSTALLED(bool),
    DOWNLOADING,
    VERIFYING,
}

/// The name of a kind of version.
pub open spec fn kind_label(t: VersionType) -> Seq<char> {
    match t {
        VersionType::RELEASE => "RELEASE"@,
        VersionType::SNAPSHOT => "SNAPSHOT"@,
        VersionType::OldBeta => "OldBeta"@,
        VersionType::OldAlpha => "OldAlpha"@,
    }
}

/// A release, snapshot or legacy version.
#[derive(Debug)]
pub struct StandardVersion {
    name: String,
    url: String,
    state: VersionState,
    version_type: VersionType,
}

pub struct StandardVersionView {
    pub name: Seq<char>,
    pub url: Seq<char>,
    pub state: VersionState,
    pub version_type: VersionType,
}

impl View for StandardVersion {
    type V = StandardVersionView;

    closed spec fn view(&self) -> StandardVersionView {
        StandardVersionView {
            name: self.name@,
            url: self.url@,
            state: self.state,
            version_type: self.version_type,
        }
    }
}

impl Clone for StandardVersion {
    fn clone(&self) -> (r: Self)
        ensures
            r@ == self@,
    {
        StandardVersion {
            name: self.name.clone(),
            url: self.url.clone(),
            state: self.state,
            version_type: self.version_type,
        }
    }
}

impl StandardVersion {
    pub fn new(name: &str, version_type: VersionType, url: &str, state: VersionState) -> (r: Self)
        ensures
            r@ == (StandardVersionView { name: name@, url: url@, state, version_type }),
    {
        StandardVersion { name: name.to_owned(), version_type, url: url.to_owned(), state }
    }

    /// A version of the manifest, not installed yet.
    pub fn from_info(info: &VersionInfo) -> (r: Self)
        ensures
            r@ == (StandardVersionView {
                name: info.id@,
                url: info.url@,
                state: VersionState::INSTALLED(false),
                version_type: info.version_type,
            }),
    {
        StandardVersion {
            name: info.id.clone(),
            version_type: info.version_type,
            url: info.url.clone(),
            state: VersionState::INSTALLED(false),
        }
    }

    /// An installed version known from its local metadata; its metadata URL
    /// is not known.
    pub fn from_local(version_json: &VersionJson) -> (r: Self)
        ensures
            r@ == (StandardVersionView {
                name: version_json.id@,
                url: Seq::empty(),
                state: VersionState::INSTALLED(true),
                version_type: version_json.version_type,
            }),
    {
        StandardVersion {
            name: version_json.id(),
            version_type: version_json.get_type(),
            url: String::new(),
            state: VersionState::INSTALLED(true),
        }
    }

    pub fn name(&self) -> (r: String)
        ensures
            r@ == self@.name,
    {
        self.name.clone()
    }

    pub fn set_name(&mut self, name: String)
        ensures
            final(self)@ == (StandardVersionView { name: name@, ..old(self)@ }),
    {
        self.name = name;
    }

    pub fn state(&self) -> (r: VersionState)
        ensures
            r == self@.state,
    {
        self.state
    }

    pub fn set_state(&mut self, state: VersionState)
        ensures
            final(self)@ == (StandardVersionView { state, ..old(self)@ }),
    {
        self.state = state;
    }

    pub fn version_type(&self) -> (r: VersionType)
        ensures
            r == self@.version_type,
    {
        self.version_type
    }

    pub fn set_version_type(&mut self, version_type: VersionType)
        ensures
            final(self)@ == (StandardVersionView { version_type, ..old(self)@ }),
    {
        self.version_type = version_type;
    }

    /// `Name: <name>, Type: <kind>`, as the version lists show it.
    pub fn describe(&self) -> (r: String)
        ensures
            r@ == "Name: "@ + self@.name + ", Type: "@ + kind_label(self@.version_type),
    {
        let kind = match self.version_type {
            VersionType::RELEASE => "RELEASE",
            VersionType::SNAPSHOT => "SNAPSHOT",
            VersionType::OldBeta => "OldBeta",
            VersionType::OldAlpha => "OldAlpha",
        };
        String::from_str("Name: ").concat(self.name.as_str()).concat(", Type: ").concat(kind)
    }

    pub fn json_url(&self) -> (r: String)
        ensures
            r@ == self@.url,
    {
        self.url.clone()
    }
}

/// Why a version could not be built.
#[derive(Debug, Clone, Copy, PartialEq, Eq, Structural)]
pub enum VersionBuildError {
    /// No name was given.
    NoName,
    /// Only release versions can be built.
    UnsupportedType,
}

/// Builds a version step by step.
#[derive(Debug)]
pub struct VersionBuilder {
    name: Option<String>,
    url: Option<String>,
    state: Option<VersionState>,
    version_type: VersionType,
}

pub struct VersionBuilderView {
    pub name: Option<Seq<char>>,
    pub url: Option<Seq<char>>,
    pub state: Option<VersionState>,
    pub version_type: VersionType,
}

impl View for VersionBuilder {
    type V = VersionBuilderView;

    closed spec fn view(&self) -> VersionBuilderView {
        VersionBuilderView {
            name: crate::job::opt_view(self.name),
            url: crate::job::opt_view(self.url),
            state: self.state,
            version_type: self.version_type,
        }
    }
}

impl VersionBuilder {
    pub fn realease() -> (r: Self)
        ensures
            r@ == (VersionBuilderView {
                name: None,
                url: None,
                state: None,
                version_type: VersionType::RELEASE,
            }),
    {
        VersionBuilder { name: None, url: None, state: None, version_type: VersionType::RELEASE }
    }

    pub fn snapshot() -> (r: Self)
        ensures
            r@ == (VersionBuilderView {
                name: None,
                url: None,
                state: None,
                version_type: VersionType::SNAPSHOT,
            }),
    {
        VersionBuilder { name: None, url: None, state: None, version_type: VersionType::SNAPSHOT }
    }

    pub fn default() -> (r: Self)
        ensures
            r@ == (VersionBuilderView {
                name: None,
                url: None,
                state: None,
                version_type: VersionType::RELEASE,
            }),
    {
        Self::realease()
    }

    pub fn name(self, name: &str) -> (r: Self)
        ensures
            r@ == (VersionBuilderView { name: Some(name@), ..self@ }),
    {
        VersionBuilder { name: Some(name.to_owned()), ..self }
    }

    pub fn url(self, url: &str) -> (r: Self)
        ensures
            r@ == (VersionBuilderView { url: Some(url@), ..self@ }),
    {
        VersionBuilder { url: Some(url.to_owned()), ..self }
    }

    pub fn state(self, state: VersionState) -> (r: Self)
        ensures
            r@ == (VersionBuilderView { state: Some(state), ..self@ }),
    {
        VersionBuilder { state: Some(state), ..self }
    }

    /// The version: a named release, with an empty URL when none was given.
    /// A release that has a name must have a state.
    pub fn build(self) -> (r: Result<StandardVersion, VersionBuildError>)
        requires
            self@.version_type == VersionType::RELEASE && self@.name is Some ==> self@.state is Some,
        ensures
            self@.version_type != VersionType::RELEASE ==> r == Err::<StandardVersion, VersionBuildError>(
                VersionBuildError::UnsupportedType,
            ),
            self@.version_type == VersionType::RELEASE && self@.name is None ==> r == Err::<
                StandardVersion,
                VersionBuildError,
            >(VersionBuildError::NoName),
            r matches Ok(v) ==> {
                &&& self@.version_type == VersionType::RELEASE
                &&& self@.name == Some(v@.name)
                &&& v@.url == match self@.url {
                    Some(u) => u,
                    None => Seq::empty(),
                }
                &&& self@.state == Some(v@.state)
                &&& v@.version_type == VersionType::RELEASE
            },
            self@.version_type == VersionType::RELEASE && self@.name is Some ==> r is Ok,
    {
        match self.version_type {
            VersionType::RELEASE => {
                match (self.name, self.state) {
                    (Some(name), Some(state)) => {
                        let url = match self.url {
                            Some(u) => u,
                            None => String::new(),
                        };
                        Ok(StandardVersion { name, url, state, version_type: VersionType::RELEASE })
                    },
                    _ => Err(VersionBuildError::NoName),
                }
            },
            _ => Err(VersionBuildError::UnsupportedType),
        }
    }
}

} // verus!
