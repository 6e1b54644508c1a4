//! Standard locations of the local filesystem (configuration, cache, user
//! directories and the like), computed from the answers of the host system.
//!
//! The library never touches the file system. Its caller asks the host for
//! the known folders, the home directory, the directory for temporary files
//! and the directory of the running executable, records the answers in a
//! [`system::SystemFolders`], and the rules here turn a [`LocationType`]
//! into the path to write to and into the list of paths to read from.

use vstd::prelude::*;
use crate::path::PathModel;
use crate::path::ResolvedPath;
use crate::system::SystemFolders;
use crate::windows::spec_standard_locations;
use crate::windows::spec_writable_location;

pub mod executable;
pub mod path;
pub mod system;
pub mod windows;

verus! {

/// The kinds of standard location.
///
/// Some name directories of the user, some are specific to the application
/// and some belong to the whole system.
#[derive(Debug, Clone, Copy, PartialEq, Eq, Structural)]
pub enum LocationType {
    /// The user's home directory.
    HomeLocation,
    /// The user's desktop directory.
    DesktopLocation,
    /// The user's documents directory.
    DocumentsLocation,
    /// The directory for the user's downloaded files. Where the host has
    /// none, the documents directory stands in for it.
    DownloadLocation,
    /// The user's movies and videos directory.
    MoviesLocation,
    /// The user's music, recordings and other audio files directory.
    MusicLocation,
    /// The user's pictures, photos and screenshots directory.
    PicturesLocation,
    /// The user's applications directory: executables, desktop files or
    /// shortcuts.
    ApplicationsLocation,
    /// The user's fonts directory.
    FontsLocation,
    /// The directory for runtime communication files, such as local sockets.
    RuntimeLocation,
    /// A directory for temporary files.
    TempLocation,
    /// The directory for persistent data shared across applications.
    GenericDataLocation,
    /// The persistent data directory of the application; the roaming one
    /// where the host tells roaming and local data apart.
    AppDataLocation,
    /// The local settings directory of the application.
    AppLocalDataLocation,
    /// The directory for cached data shared across applications.
    GenericCacheLocation,
    /// The directory for the application's cached data.
    AppCacheLocation,
    /// The user's configuration files directory, named after the application.
    ConfigLocation,
    /// The user's configuration files directory shared between applications.
    GenericConfigLocation,
    /// The configuration files directory of the application.
    AppConfigLocation,
}

/// The mathematical value of the names that a [`StandardPaths`] holds.
pub struct NamesModel {
    pub application: Seq<char>,
    pub organisation: Seq<char>,
}

impl NamesModel {
    /// The segments that name the application below a shared directory: the
    /// organisation, then the application, each left out where it is empty.
    pub open spec fn suffix(self) -> Seq<Seq<char>> {
        let organisation = if self.organisation.len() > 0 {
            seq![self.organisation]
        } else {
            Seq::empty()
        };
        let application = if self.application.len() > 0 {
            seq![self.application]
        } else {
            Seq::empty()
        };
        organisation + application
    }

    /// `path` with the segments of these names nested below it.
    pub open spec fn suffixed(self, path: PathModel) -> PathModel {
        PathModel { base: path.base, segments: path.segments + self.suffix() }
    }
}

/// The names of the application and of its organisation, by which its own
/// directories are told from those of other applications.
#[derive(Debug)]
pub struct StandardPaths {
    app_name: String,
    organisation_name: String,
}

impl View for StandardPaths {
    type V = NamesModel;

    closed spec fn view(&self) -> NamesModel {
        NamesModel { application: self.app_name@, organisation: self.organisation_name@ }
    }
}

impl StandardPaths {
    /// Names the application after its package, where the build knows one,
    /// and leaves the organisation empty.
    pub fn new(package_name: Option<String>) -> (paths: StandardPaths)
        ensures
            paths@.application == match package_name {
                Some(name) => name@,
                None => Seq::<char>::empty(),
            },
            paths@.organisation == Seq::<char>::empty(),
    {
        StandardPaths {
            app_name: match package_name {
                Some(name) => name,
                None => String::new(),
            },
            organisation_name: String::new(),
        }
    }

    /// Holds the given names of the application and of its organisation.
    pub fn new_with_names(app: &str, organisation: &str) -> (paths: StandardPaths)
        ensures
            paths@ == (NamesModel { application: app@, organisation: organisation@ }),
    {
        StandardPaths { app_name: app.to_owned(), organisation_name: organisation.to_owned() }
    }

    /// The name of the application; empty where it has none.
    pub fn app_name(&self) -> (name: &str)
        ensures
            name@ == self@.application,
    {
        self.app_name.as_str()
    }

    /// The name of the organisation; empty where it has none.
    pub fn organisation_name(&self) -> (name: &str)
        ensures
            name@ == self@.organisation,
    {
        self.organisation_name.as_str()
    }

    /// Nests the organisation and then the application below `path`, each
    /// only where its name is not empty: `config` becomes `config/org/app`.
    ///
    /// Called twice on one path it appends the names twice.
    pub fn append_organization_and_app(&self, path: &mut ResolvedPath)
        ensures
            final(path)@ == self@.suffixed(old(path)@),
    {
        if !self.organisation_name.as_str().is_empty() {
            path.push(self.organisation_name.as_str());
        }
        if !self.app_name.as_str().is_empty() {
            path.push(self.app_name.as_str());
        }
        assert(path@.segments =~= old(path)@.segments + self@.suffix());
    }

    /// The directory to which files of the kind `location` should be
    /// written, or `None` where the host's answers do not determine one.
    /// The directory need not exist.
    pub fn writable_location(&self, location: LocationType, system: &SystemFolders) -> (found:
        Option<ResolvedPath>)
        ensures
            found.deep_view() == spec_writable_location(self@, location, system@),
    {
        self.writable_location_impl(location, system)
    }

    /// All the directories of the kind `location`, the most preferred first:
    /// the writable one, where there is one, before those shared by the
    /// whole machine and those beside the executable. Always `Some`; the
    /// list is empty where the host's answers determine no directory.
    pub fn standard_locations(&self, location: LocationType, system: &SystemFolders) -> (found:
        Option<Vec<ResolvedPath>>)
        ensures
            found.deep_view() == Some(spec_standard_locations(self@, location, system@)),
    {
        self.standard_locations_impl(location, system)
    }
}

} // verus!
