//! The catalog's value records: what the remote lookups return, as plain
//! immutable data, with a mathematical view of each record.
use vstd::prelude::*;

verus! {

/// The names of every project the catalog tracks, in source order.
pub struct ProjectList {
    pub projects: Vec<String>,
}

/// The mathematical shape of a `ProjectList`.
pub struct ProjectListV {
    pub projects: Seq<Seq<char>>,
}

impl View for ProjectList {
    type V = ProjectListV;

    open spec fn view(&self) -> ProjectListV {
        ProjectListV { projects: self.projects.deep_view() }
    }
}

/// One project, with its version groups and versions as fetched.
pub struct ProjectDetail {
    pub project_id: String,
    pub project_name: String,
    pub version_groups: Vec<String>,
    pub versions: Vec<String>,
}

/// The mathematical shape of a `ProjectDetail`.
pub struct ProjectDetailV {
    pub project_id: Seq<char>,
    pub project_name: Seq<char>,
    pub version_groups: Seq<Seq<char>>,
    pub versions: Seq<Seq<char>>,
}

impl View for ProjectDetail {
    type V = ProjectDetailV;

    open spec fn view(&self) -> ProjectDetailV {
        ProjectDetailV {
            project_id: self.project_id@,
            project_name: self.project_name@,
            version_groups: self.version_groups.deep_view(),
            versions: self.versions.deep_view(),
        }
    }
}

/// One version group of a project, with its versions.
pub struct VersionGroupDetail {
    pub project_id: String,
    pub project_name: String,
    pub version_group: String,
    pub versions: Vec<String>,
}

/// The mathematical shape of a `VersionGroupDetail`.
pub struct VersionGroupDetailV {
    pub project_id: Seq<char>,
    pub project_name: Seq<char>,
    pub version_group: Seq<char>,
    pub versions: Seq<Seq<char>>,
}

impl View for VersionGroupDetail {
    type V = VersionGroupDetailV;

    open spec fn view(&self) -> VersionGroupDetailV {
        VersionGroupDetailV {
            project_id: self.project_id@,
            project_name: self.project_name@,
            version_group: self.version_group@,
            versions: self.versions.deep_view(),
        }
    }
}

/// One version group of a project, with its versions and build numbers.
pub struct VersionGroupBuilds {
    pub project_id: String,
    pub project_name: String,
    pub version_group: String,
    pub versions: Vec<String>,
    pub builds: Vec<i32>,
}

/// The mathematical shape of a `VersionGroupBuilds`.
pub struct VersionGroupBuildsV {
    pub project_id: Seq<char>,
    pub project_name: Seq<char>,
    pub version_group: Seq<char>,
    pub versions: Seq<Seq<char>>,
    pub builds: Seq<i32>,
}

impl View for VersionGroupBuilds {
    type V = VersionGroupBuildsV;

    open spec fn view(&self) -> VersionGroupBuildsV {
        VersionGroupBuildsV {
            project_id: self.project_id@,
            project_name: self.project_name@,
            version_group: self.version_group@,
            versions: self.versions.deep_view(),
            builds: self.builds@,
        }
    }
}

/// One version of a project, with its build numbers.
pub struct VersionDetail {
    pub project_id: String,
    pub project_name: String,
    pub version: String,
    pub builds: Vec<i32>,
}

/// The mathematical shape of a `VersionDetail`.
pub struct VersionDetailV {
    pub project_id: Seq<char>,
    pub project_name: Seq<char>,
    pub version: Seq<char>,
    pub builds: Seq<i32>,
}

impl View for VersionDetail {
    type V = VersionDetailV;

    open spec fn view(&self) -> VersionDetailV {
        VersionDetailV {
            project_id: self.project_id@,
            project_name: self.project_name@,
            version: self.version@,
            builds: self.builds@,
        }
    }
}

/// One source change of a build: a commit hash and its summary line.
pub struct Change {
    pub commit: String,
    pub summary: String,
}

/// The mathematical shape of a `Change`.
pub struct ChangeV {
    pub commit: Seq<char>,
    pub summary: Seq<char>,
}

impl View for Change {
    type V = ChangeV;

    open spec fn view(&self) -> ChangeV {
        ChangeV { commit: self.commit@, summary: self.summary@ }
    }
}

impl DeepView for Change {
    type V = ChangeV;

    open spec fn deep_view(&self) -> ChangeV {
        self@
    }
}

/// One numbered build of a project version, with its time, its download
/// artifact and its changes.
pub struct BuildDetail {
    pub project_id: String,
    pub project_name: String,
    pub version: String,
    pub build: i32,
    pub time: String,
    pub artifact_name: String,
    pub changes: Vec<Change>,
}

/// The mathematical shape of a `BuildDetail`.
pub struct BuildDetailV {
    pub project_id: Seq<char>,
    pub project_name: Seq<char>,
    pub version: Seq<char>,
    pub build: i32,
    pub time: Seq<char>,
    pub artifact_name: Seq<char>,
    pub changes: Seq<ChangeV>,
}

impl View for BuildDetail {
    type V = BuildDetailV;

    open spec fn view(&self) -> BuildDetailV {
        BuildDetailV {
            project_id: self.project_id@,
            project_name: self.project_name@,
            version: self.version@,
            build: self.build,
            time: self.time@,
            artifact_name: self.artifact_name@,
            changes: self.changes.deep_view(),
        }
    }
}

} // verus!
