//! Checks on the paths that an operation is given, and the conventional
//! place of the configuration on each platform.

use crate::text::same_text;
use vstd::prelude::*;

verus! {

/// A path with what the file system answered about it.
#[derive(Debug)]
pub struct PathProbe {
    /// The path that was asked about.
    pub path: String,
    /// Whether anything exists at the path.
    pub exists: bool,
    /// Whether a regular file stands at the path.
    pub is_file: bool,
    /// Whether a directory stands at the path.
    pub is_dir: bool,
}

/// The mathematical value of a [`PathProbe`].
pub ghost struct PathProbeView {
    pub path: Seq<char>,
    pub exists: bool,
    pub is_file: bool,
    pub is_dir: bool,
}

impl View for PathProbe {
    type V = PathProbeView;

    open spec fn view(&self) -> PathProbeView {
        PathProbeView {
            path: self.path@,
            exists: self.exists,
            is_file: self.is_file,
            is_dir: self.is_dir,
        }
    }
}

impl DeepView for PathProbe {
    type V = PathProbeView;

    open spec fn deep_view(&self) -> PathProbeView {
        self@
    }
}

impl PathProbe {
    /// A copy of the probe.
    pub fn duplicate(&self) -> (copy: PathProbe)
        ensures
            copy@ == self@,
    {
        PathProbe {
            path: self.path.clone(),
            exists: self.exists,
            is_file: self.is_file,
            is_dir: self.is_dir,
        }
    }
}

/// The configuration that a run works on, as far as it is settled: `None`
/// while a finding is missing, then the configuration or the refusal. With
/// a given path the finding is what lies at the path, without one it is the
/// platform's default configuration.
pub open spec fn settled_cfg(
    cfg_path_option: Option<Seq<char>>,
    cfg: Option<PathProbeView>,
    default_cfg: Option<Option<Seq<char>>>,
) -> Option<Option<Seq<char>>> {
    match cfg_path_option {
        Some(_) => match cfg {
            None => None,
            Some(probe) => Some(checked_cfg(Some(probe), None)),
        },
        None => match default_cfg {
            None => None,
            Some(default_cfg) => Some(checked_cfg(None, default_cfg)),
        },
    }
}

/// The directory that a run works in, as far as it is settled: `None` while
/// a finding is missing, then the directory or the refusal of the given
/// path. The findings are the working directory and, with a given path,
/// what lies at the path.
pub open spec fn settled_dir(
    dir_option: Option<Seq<char>>,
    working_dir: Option<Seq<char>>,
    dir: Option<PathProbeView>,
) -> Option<Option<Seq<char>>> {
    match working_dir {
        None => None,
        Some(working_dir) => match dir_option {
            None => Some(Some(working_dir)),
            Some(_) => match dir {
                None => None,
                Some(probe) => Some(checked_dir(Some(probe), working_dir)),
            },
        },
    }
}

/// The configuration that an operation works on: the given path where it
/// leads to an existing regular file, the default where no path was given,
/// and none otherwise.
pub open spec fn checked_cfg(given: Option<PathProbeView>, default_cfg: Option<Seq<char>>) -> Option<
    Seq<char>,
> {
    match given {
        Some(probe) => if probe.exists && probe.is_file {
            Some(probe.path)
        } else {
            None
        },
        None => default_cfg,
    }
}

/// The directory that an operation works on: the given path where it leads
/// to an existing directory, the working directory where no path was given,
/// and none otherwise.
pub open spec fn checked_dir(given: Option<PathProbeView>, working_dir: Seq<char>) -> Option<
    Seq<char>,
> {
    match given {
        Some(probe) => if probe.exists && probe.is_dir {
            Some(probe.path)
        } else {
            None
        },
        None => Some(working_dir),
    }
}

/// Settles which configuration file to use. A given path is taken if it
/// exists and is a regular file, and refused otherwise; without a given path
/// the platform's default configuration is taken, if there is one.
pub fn check_cfg_path(in_path_option: Option<PathProbe>, default_cfg: Option<String>) -> (in_path:
    Option<String>)
    ensures
        in_path.deep_view() == checked_cfg(in_path_option.deep_view(), default_cfg.deep_view()),
{
    match in_path_option {
        Some(probe) => {
            if !probe.exists {
                return None;
            }
            if !probe.is_file {
                return None;
            }
            Some(probe.path)
        },
        None => default_cfg,
    }
}

/// Settles which directory to work in. A given path is taken if it exists
/// and is a directory, and refused otherwise; without a given path the
/// working directory is taken.
pub fn check_dir_path(dir_option: Option<PathProbe>, working_dir: String) -> (dir: Option<String>)
    ensures
        dir.deep_view() == checked_dir(dir_option.deep_view(), working_dir@),
{
    match dir_option {
        Some(probe) => {
            if !probe.exists {
                return None;
            }
            if !probe.is_dir {
                return None;
            }
            Some(probe.path)
        },
        None => Some(working_dir),
    }
}

/// Settles the configuration of a run from what was found out so far.
pub fn settle_cfg(
    cfg_path_option: &Option<String>,
    cfg: &Option<PathProbe>,
    default_cfg: &Option<Option<String>>,
) -> (settled: Option<Option<String>>)
    ensures
        settled.deep_view() == settled_cfg(
            cfg_path_option.deep_view(),
            cfg.deep_view(),
            default_cfg.deep_view(),
        ),
{
    match cfg_path_option {
        Some(_) => match cfg {
            None => None,
            Some(probe) => Some(check_cfg_path(Some(probe.duplicate()), None)),
        },
        None => match default_cfg {
            None => None,
            Some(None) => Some(check_cfg_path(None, None)),
            Some(Some(path)) => Some(check_cfg_path(None, Some(path.clone()))),
        },
    }
}

/// Settles the directory of a run from what was found out so far.
pub fn settle_dir(
    dir_option: &Option<String>,
    working_dir: &Option<String>,
    dir: &Option<PathProbe>,
) -> (settled: Option<Option<String>>)
    ensures
        settled.deep_view() == settled_dir(
            dir_option.deep_view(),
            working_dir.deep_view(),
            dir.deep_view(),
        ),
{
    match working_dir {
        None => None,
        Some(working_dir) => match dir_option {
            None => Some(Some(working_dir.clone())),
            Some(_) => match dir {
                None => None,
                Some(probe) => Some(check_dir_path(Some(probe.duplicate()), working_dir.clone())),
            },
        },
    }
}

/// The directories of a platform under which the configuration may lie.
#[derive(Clone, Copy, Debug, PartialEq, Eq, Structural)]
pub enum BaseDir {
    /// The user's configuration directory.
    Config,
    /// The user's preference directory.
    Preference,
    /// The user's document directory.
    Document,
}

/// Where the configuration lies by convention: a base directory of the
/// platform and the path components below it, the file name last.
#[derive(Debug)]
pub struct CfgLocation {
    pub base: BaseDir,
    pub below: Vec<String>,
}

/// The mathematical value of a [`CfgLocation`].
pub ghost struct CfgLocationView {
    pub base: BaseDir,
    pub below: Seq<Seq<char>>,
}

impl View for CfgLocation {
    type V = CfgLocationView;

    open spec fn view(&self) -> CfgLocationView {
        CfgLocationView { base: self.base, below: self.below.deep_view() }
    }
}

impl DeepView for CfgLocation {
    type V = CfgLocationView;

    open spec fn deep_view(&self) -> CfgLocationView {
        self@
    }
}

/// The conventional place of `openmw.cfg` on the platform named `os`: on
/// `linux` directly in the configuration directory, on `macos` in `openmw`
/// below the preference directory, on `windows` in `my games/openmw` below
/// the document directory. No other platform has one.
pub open spec fn cfg_location(os: Seq<char>) -> Option<CfgLocationView> {
    if os == "linux"@ {
        Some(CfgLocationView { base: BaseDir::Config, below: seq!["openmw.cfg"@] })
    } else if os == "macos"@ {
        Some(CfgLocationView { base: BaseDir::Preference, below: seq!["openmw"@, "openmw.cfg"@] })
    } else if os == "windows"@ {
        Some(
            CfgLocationView {
                base: BaseDir::Document,
                below: seq!["my games"@, "openmw"@, "openmw.cfg"@],
            },
        )
    } else {
        None
    }
}

/// The conventional place of `openmw.cfg` on the platform named `os`, if the
/// platform has one.
pub fn openmwcfg_location(os: &str) -> (location: Option<CfgLocation>)
    ensures
        location.deep_view() == cfg_location(os@),
{
    if same_text(os, "linux") {
        let mut below: Vec<String> = Vec::new();
        below.push("openmw.cfg".to_owned());
        assert(below.deep_view() =~= seq!["openmw.cfg"@]);
        Some(CfgLocation { base: BaseDir::Config, below })
    } else if same_text(os, "macos") {
        let mut below: Vec<String> = Vec::new();
        below.push("openmw".to_owned());
        below.push("openmw.cfg".to_owned());
        assert(below.deep_view() =~= seq!["openmw"@, "openmw.cfg"@]);
        Some(CfgLocation { base: BaseDir::Preference, below })
    } else if same_text(os, "windows") {
        let mut below: Vec<String> = Vec::new();
        below.push("my games".to_owned());
        below.push("openmw".to_owned());
        below.push("openmw.cfg".to_owned());
        assert(below.deep_view() =~= seq!["my games"@, "openmw"@, "openmw.cfg"@]);
        Some(CfgLocation { base: BaseDir::Document, below })
    } else {
        None
    }
}

/// The default configuration of a platform: the file at the conventional
/// place, if the platform has such a place and something exists there.
pub open spec fn default_cfg_at(place: Option<PathProbeView>) -> Option<Seq<char>> {
    match place {
        Some(probe) => if probe.exists {
            Some(probe.path)
        } else {
            None
        },
        None => None,
    }
}

/// The default configuration, given what lies at its conventional place on
/// this platform (`None` where the platform has no such place): the path of
/// the place if something exists there, and none otherwise.
pub fn get_openmwcfg(place: Option<PathProbe>) -> (cfg: Option<String>)
    ensures
        cfg.deep_view() == default_cfg_at(place.deep_view()),
{
    match place {
        Some(probe) => if probe.exists {
            Some(probe.path)
        } else {
            None
        },
        None => None,
    }
}

} // verus!
