//! The resolution rules of hosts that keep their standard directories as
//! known folders.
//!
//! A kind of location either maps straight to a known folder, or falls back
//! on another kind, or is derived from another kind by one more segment.
//! The kinds that belong to the application get its names nested below the
//! folder; the generic kinds are the folder itself.

use vstd::prelude::*;
use crate::LocationType;
use crate::NamesModel;
use crate::StandardPaths;
use crate::path::PathModel;
use crate::path::ResolvedPath;
use crate::system::KnownFolder;
use crate::system::SystemFolders;
use crate::system::SystemModel;

verus! {

/// The segment below a data directory that holds its cache.
pub open spec fn cache_segment() -> Seq<char> {
    "cache"@
}

/// The segment below the executable's directory that holds its data.
pub open spec fn data_segment() -> Seq<char> {
    "data"@
}

/// The known folder that a kind of location maps straight to, for the kinds
/// that have one.
pub open spec fn spec_known_folder(location: LocationType) -> Option<KnownFolder> {
    match location {
        LocationType::DesktopLocation => Some(KnownFolder::Desktop),
        LocationType::DocumentsLocation => Some(KnownFolder::Documents),
        LocationType::FontsLocation => Some(KnownFolder::Fonts),
        LocationType::ApplicationsLocation => Some(KnownFolder::Programs),
        LocationType::MusicLocation => Some(KnownFolder::Music),
        LocationType::MoviesLocation => Some(KnownFolder::Videos),
        LocationType::PicturesLocation => Some(KnownFolder::Pictures),
        LocationType::AppLocalDataLocation => Some(KnownFolder::LocalAppData),
        LocationType::GenericDataLocation => Some(KnownFolder::LocalAppData),
        LocationType::ConfigLocation => Some(KnownFolder::LocalAppData),
        LocationType::GenericConfigLocation => Some(KnownFolder::LocalAppData),
        LocationType::AppDataLocation => Some(KnownFolder::RoamingAppData),
        LocationType::AppConfigLocation => Some(KnownFolder::LocalAppData),
        LocationType::HomeLocation
        | LocationType::RuntimeLocation
        | LocationType::TempLocation
        | LocationType::DownloadLocation
        | LocationType::AppCacheLocation
        | LocationType::GenericCacheLocation => None,
    }
}

/// Whether the names of the application are nested below the folder of
/// this kind.
pub open spec fn spec_is_app_specific(location: LocationType) -> bool {
    location == LocationType::ConfigLocation || location == LocationType::AppConfigLocation
        || location == LocationType::AppDataLocation || location
        == LocationType::AppLocalDataLocation
}

/// Whether directories shared by the whole machine, and directories beside
/// the executable, are searched for this kind too.
pub open spec fn spec_has_shared_locations(location: LocationType) -> bool {
    spec_is_app_specific(location) || location == LocationType::GenericConfigLocation || location
        == LocationType::GenericDataLocation
}

/// How many kinds a kind can fall back through before the host's answer is
/// read: none for a kind that reads the answer itself, one for a kind that
/// is resolved through another.
pub open spec fn fallback_depth(location: LocationType) -> nat {
    if spec_known_folder(location) is Some || location == LocationType::HomeLocation || location
        == LocationType::RuntimeLocation || location == LocationType::TempLocation {
        0
    } else {
        1
    }
}

/// `path` as a folder of the kind `location`: with the names nested below
/// it where the kind belongs to the application, as it is where not.
pub open spec fn spec_named(names: NamesModel, location: LocationType, path: PathModel)
    -> PathModel {
    if spec_is_app_specific(location) {
        names.suffixed(path)
    } else {
        path
    }
}

/// The directory to write files of the kind `location` to, given the names
/// of the application and the answers of the host.
pub open spec fn spec_writable_location(
    names: NamesModel,
    location: LocationType,
    system: SystemModel,
) -> Option<PathModel> {
    match location {
        LocationType::HomeLocation | LocationType::RuntimeLocation => system.home,
        LocationType::TempLocation => Some(system.temp),
        LocationType::DownloadLocation => match system.folder(KnownFolder::Downloads) {
            Some(path) => Some(path),
            None => system.folder(KnownFolder::Documents),
        },
        LocationType::AppCacheLocation => match system.folder(KnownFolder::LocalAppData) {
            Some(path) => Some(names.suffixed(path).push(cache_segment())),
            None => None,
        },
        LocationType::GenericCacheLocation => match system.folder(KnownFolder::LocalAppData) {
            Some(path) => Some(path.push(cache_segment())),
            None => None,
        },
        LocationType::DesktopLocation
        | LocationType::DocumentsLocation
        | LocationType::FontsLocation
        | LocationType::ApplicationsLocation
        | LocationType::MusicLocation
        | LocationType::MoviesLocation
        | LocationType::PicturesLocation
        | LocationType::AppLocalDataLocation
        | LocationType::GenericDataLocation
        | LocationType::ConfigLocation
        | LocationType::GenericConfigLocation
        | LocationType::AppDataLocation
        | LocationType::AppConfigLocation => match spec_known_folder(location) {
            Some(folder) => match system.folder(folder) {
                Some(path) => Some(spec_named(names, location, path)),
                None => None,
            },
            None => None,
        },
    }
}

/// The writable directory as a list: itself where there is one.
pub open spec fn spec_writable_part(
    names: NamesModel,
    location: LocationType,
    system: SystemModel,
) -> Seq<PathModel> {
    match spec_writable_location(names, location, system) {
        Some(path) => seq![path],
        None => Seq::empty(),
    }
}

/// The directory that the whole machine shares for the kind `location`,
/// where the kind has one and the host resolves it.
pub open spec fn spec_shared_part(
    names: NamesModel,
    location: LocationType,
    system: SystemModel,
) -> Seq<PathModel> {
    if spec_has_shared_locations(location) {
        match system.folder(KnownFolder::ProgramData) {
            Some(path) => seq![spec_named(names, location, path)],
            None => Seq::empty(),
        }
    } else {
        Seq::empty()
    }
}

/// The executable's directory and then its data directory, for the kinds
/// that are searched beside the executable, where the host can tell where
/// the executable lies.
pub open spec fn spec_executable_part(location: LocationType, system: SystemModel) -> Seq<
    PathModel,
> {
    if spec_has_shared_locations(location) {
        match system.executable_dir {
            Some(dir) => seq![dir, dir.push(data_segment())],
            None => Seq::empty(),
        }
    } else {
        Seq::empty()
    }
}

/// The known folders whose answers the directories of `location` are made
/// of, in the order in which the rules turn to them.
pub open spec fn spec_folders_read(location: LocationType) -> Seq<KnownFolder> {
    match location {
        LocationType::DownloadLocation => seq![KnownFolder::Downloads, KnownFolder::Documents],
        LocationType::AppCacheLocation | LocationType::GenericCacheLocation => seq![
            KnownFolder::LocalAppData,
        ],
        LocationType::HomeLocation
        | LocationType::RuntimeLocation
        | LocationType::TempLocation => Seq::empty(),
        LocationType::DesktopLocation
        | LocationType::DocumentsLocation
        | LocationType::FontsLocation
        | LocationType::ApplicationsLocation
        | LocationType::MusicLocation
        | LocationType::MoviesLocation
        | LocationType::PicturesLocation
        | LocationType::AppLocalDataLocation
        | LocationType::GenericDataLocation
        | LocationType::ConfigLocation
        | LocationType::GenericConfigLocation
        | LocationType::AppDataLocation
        | LocationType::AppConfigLocation => match spec_known_folder(location) {
            Some(folder) => if spec_has_shared_locations(location) {
                seq![folder, KnownFolder::ProgramData]
            } else {
                seq![folder]
            },
            None => Seq::empty(),
        },
    }
}

/// All the directories of the kind `location`, the most preferred first.
pub open spec fn spec_standard_locations(
    names: NamesModel,
    location: LocationType,
    system: SystemModel,
) -> Seq<PathModel> {
    spec_writable_part(names, location, system) + spec_shared_part(names, location, system)
        + spec_executable_part(location, system)
}

/// With neither an organisation nor an application named, a kind that
/// belongs to the application resolves to the folder that the host answered
/// with, unchanged, and the application's cache is the generic cache.
pub proof fn lemma_empty_names_add_nothing(
    names: NamesModel,
    location: LocationType,
    system: SystemModel,
)
    requires
        names.application.len() == 0,
        names.organisation.len() == 0,
    ensures
        spec_known_folder(location) matches Some(folder) ==> spec_writable_location(
            names,
            location,
            system,
        ) == system.folder(folder),
        spec_writable_location(names, LocationType::AppCacheLocation, system)
            == spec_writable_location(names, LocationType::GenericCacheLocation, system),
{
    assert(names.suffix() =~= Seq::<Seq<char>>::empty());
    assert forall|path: PathModel| names.suffixed(path) == path by {
        assert(path.segments + names.suffix() =~= path.segments);
    }
}

/// With both an organisation and an application named, the directory of a
/// kind that belongs to the application is the folder that the host answered
/// with and, below it, the organisation and then the application: they are
/// its last two segments.
pub proof fn lemma_names_are_the_last_segments(
    names: NamesModel,
    location: LocationType,
    system: SystemModel,
)
    requires
        names.organisation.len() > 0,
        names.application.len() > 0,
        spec_is_app_specific(location),
        spec_writable_location(names, location, system) is Some,
    ensures
        ({
            let folder = system.folder(spec_known_folder(location)->0)->0;
            let found = spec_writable_location(names, location, system)->0;
            &&& found.base == folder.base
            &&& found.segments == folder.segments.push(names.organisation).push(names.application)
            &&& found.segments.len() >= 2
            &&& found.segments[found.segments.len() - 2] == names.organisation
            &&& found.segments[found.segments.len() - 1] == names.application
        }),
{
    let folder = system.folder(spec_known_folder(location)->0)->0;
    assert(names.suffix() =~= seq![names.organisation, names.application]);
    assert(folder.segments + names.suffix() =~= folder.segments.push(names.organisation).push(
        names.application,
    ));
}

/// The download directory is the host's downloads folder, and where the
/// host has none it is whatever the documents directory resolves to.
pub proof fn lemma_download_falls_back_on_documents(names: NamesModel, system: SystemModel)
    ensures
        system.folder(KnownFolder::Downloads) is Some ==> spec_writable_location(
            names,
            LocationType::DownloadLocation,
            system,
        ) == system.folder(KnownFolder::Downloads),
        system.folder(KnownFolder::Downloads) is None ==> spec_writable_location(
            names,
            LocationType::DownloadLocation,
            system,
        ) == spec_writable_location(names, LocationType::DocumentsLocation, system),
{
}

/// A cache directory is the segment `cache` below the data directory that it
/// belongs to, and there is none where that data directory is not resolved:
/// the generic cache lies below the generic data, the application's cache
/// below the application's local data.
pub proof fn lemma_cache_lies_below_data(names: NamesModel, system: SystemModel)
    ensures
        spec_writable_location(names, LocationType::GenericCacheLocation, system) == match
            spec_writable_location(names, LocationType::GenericDataLocation, system) {
            Some(data) => Some(data.push(cache_segment())),
            None => None,
        },
        spec_writable_location(names, LocationType::AppCacheLocation, system) == match
            spec_writable_location(names, LocationType::AppLocalDataLocation, system) {
            Some(data) => Some(data.push(cache_segment())),
            None => None,
        },
{
}

/// For a kind that the machine does not share, the list of directories holds
/// the writable directory alone, and is empty where there is none.
pub proof fn lemma_unshared_kind_lists_the_writable_location(
    names: NamesModel,
    location: LocationType,
    system: SystemModel,
)
    requires
        !spec_has_shared_locations(location),
    ensures
        spec_standard_locations(names, location, system).len() <= 1,
        spec_standard_locations(names, location, system) == match spec_writable_location(
            names,
            location,
            system,
        ) {
            Some(path) => seq![path],
            None => Seq::<PathModel>::empty(),
        },
{
    assert(spec_standard_locations(names, location, system) =~= spec_writable_part(
        names,
        location,
        system,
    ));
}

/// For a kind that the machine shares, the list holds, in this order and
/// without gaps, the writable directory, the machine's shared directory, the
/// executable's directory and the data directory below that one; each is
/// present exactly where the host's answers determine it.
pub proof fn lemma_shared_kind_lists_by_priority(
    names: NamesModel,
    location: LocationType,
    system: SystemModel,
)
    requires
        spec_has_shared_locations(location),
    ensures
        ({
            let list = spec_standard_locations(names, location, system);
            let writable = spec_writable_location(names, location, system);
            let shared = system.folder(KnownFolder::ProgramData);
            let beside = system.executable_dir;
            let after_writable: int = if writable is Some { 1 } else { 0 };
            let after_shared: int = after_writable + if shared is Some { 1int } else { 0int };
            &&& list.len() == after_shared + if beside is Some { 2int } else { 0int }
            &&& writable is Some ==> list[0] == writable->0
            &&& shared is Some ==> list[after_writable] == spec_named(names, location, shared->0)
            &&& beside is Some ==> list[after_shared] == beside->0
            &&& beside is Some ==> list[after_shared + 1] == (beside->0).push(data_segment())
        }),
{
}

/// Resolving is a function of the names, the kind and the host's answers:
/// whatever two calls with the same arguments return is the same path, and
/// the same list.
pub proof fn lemma_resolving_again_changes_nothing(
    names: StandardPaths,
    location: LocationType,
    system: SystemFolders,
    first: Option<ResolvedPath>,
    second: Option<ResolvedPath>,
    first_list: Option<Vec<ResolvedPath>>,
    second_list: Option<Vec<ResolvedPath>>,
)
    requires
        call_ensures(StandardPaths::writable_location, (&names, location, &system), first),
        call_ensures(StandardPaths::writable_location, (&names, location, &system), second),
        call_ensures(StandardPaths::standard_locations, (&names, location, &system), first_list),
        call_ensures(StandardPaths::standard_locations, (&names, location, &system), second_list),
    ensures
        first.deep_view() == second.deep_view(),
        first_list.deep_view() == second_list.deep_view(),
{
}

/// The directories of a kind depend on the host through the folders that
/// the kind reads, the home, the temp directory and the executable's
/// directory, and through nothing else: two hosts that agree on these
/// resolve the kind alike.
pub proof fn lemma_only_the_folders_read_matter(
    names: NamesModel,
    location: LocationType,
    one: SystemModel,
    other: SystemModel,
)
    requires
        forall|folder: KnownFolder|
            spec_folders_read(location).contains(folder) ==> one.folder(folder) == other.folder(
                folder,
            ),
        one.home == other.home,
        one.temp == other.temp,
        one.executable_dir == other.executable_dir,
    ensures
        spec_writable_location(names, location, one) == spec_writable_location(
            names,
            location,
            other,
        ),
        spec_standard_locations(names, location, one) == spec_standard_locations(
            names,
            location,
            other,
        ),
{
    let read = spec_folders_read(location);
    if read.len() > 0 {
        assert(read.contains(read[0]));
    }
    if read.len() > 1 {
        assert(read.contains(read[1]));
    }
}

/// The known folder that `location` maps straight to, if it has one.
pub fn known_folder(location: LocationType) -> (folder: Option<KnownFolder>)
    ensures
        folder == spec_known_folder(location),
{
    match location {
        LocationType::DesktopLocation => Some(KnownFolder::Desktop),
        LocationType::DocumentsLocation => Some(KnownFolder::Documents),
        LocationType::FontsLocation => Some(KnownFolder::Fonts),
        LocationType::ApplicationsLocation => Some(KnownFolder::Programs),
        LocationType::MusicLocation => Some(KnownFolder::Music),
        LocationType::MoviesLocation => Some(KnownFolder::Videos),
        LocationType::PicturesLocation => Some(KnownFolder::Pictures),
        LocationType::AppLocalDataLocation => Some(KnownFolder::LocalAppData),
        LocationType::GenericDataLocation => Some(KnownFolder::LocalAppData),
        LocationType::ConfigLocation => Some(KnownFolder::LocalAppData),
        LocationType::GenericConfigLocation => Some(KnownFolder::LocalAppData),
        LocationType::AppDataLocation => Some(KnownFolder::RoamingAppData),
        LocationType::AppConfigLocation => Some(KnownFolder::LocalAppData),
        LocationType::HomeLocation
        | LocationType::RuntimeLocation
        | LocationType::TempLocation
        | LocationType::DownloadLocation
        | LocationType::AppCacheLocation
        | LocationType::GenericCacheLocation => None,
    }
}

/// Whether the names of the application are nested below the folder of
/// `location`.
pub fn is_app_specific(location: LocationType) -> (specific: bool)
    ensures
        specific == spec_is_app_specific(location),
{
    location == LocationType::ConfigLocation || location == LocationType::AppConfigLocation
        || location == LocationType::AppDataLocation || location
        == LocationType::AppLocalDataLocation
}

/// Whether `location` is also searched in the directories shared by the
/// whole machine and beside the executable.
pub fn has_shared_locations(location: LocationType) -> (shared: bool)
    ensures
        shared == spec_has_shared_locations(location),
{
    is_app_specific(location) || location == LocationType::GenericConfigLocation || location
        == LocationType::GenericDataLocation
}

/// The known folders to ask the host for before resolving `location`.
pub fn folders_read(location: LocationType) -> (folders: Vec<KnownFolder>)
    ensures
        folders@ == spec_folders_read(location),
{
    let mut folders: Vec<KnownFolder> = Vec::new();
    match location {
        LocationType::DownloadLocation => {
            folders.push(KnownFolder::Downloads);
            folders.push(KnownFolder::Documents);
        },
        LocationType::AppCacheLocation | LocationType::GenericCacheLocation => {
            folders.push(KnownFolder::LocalAppData);
        },
        LocationType::HomeLocation
        | LocationType::RuntimeLocation
        | LocationType::TempLocation => {},
        LocationType::DesktopLocation
        | LocationType::DocumentsLocation
        | LocationType::FontsLocation
        | LocationType::ApplicationsLocation
        | LocationType::MusicLocation
        | LocationType::MoviesLocation
        | LocationType::PicturesLocation
        | LocationType::AppLocalDataLocation
        | LocationType::GenericDataLocation
        | LocationType::ConfigLocation
        | LocationType::GenericConfigLocation
        | LocationType::AppDataLocation
        | LocationType::AppConfigLocation => {
            match known_folder(location) {
                Some(folder) => {
                    folders.push(folder);
                    if has_shared_locations(location) {
                        folders.push(KnownFolder::ProgramData);
                    }
                },
                None => {},
            }
        },
    }
    assert(folders@ =~= spec_folders_read(location));
    folders
}

impl StandardPaths {
    /// The directory to write files of the kind `location` to.
    ///
    /// A kind that falls back on another kind, or is derived from one, is
    /// resolved by resolving that other kind; no chain of kinds leads back
    /// to where it began.
    pub fn writable_location_impl(&self, location: LocationType, system: &SystemFolders) -> (found:
        Option<ResolvedPath>)
        ensures
            found.deep_view() == spec_writable_location(self@, location, system@),
        decreases fallback_depth(location),
    {
        match location {
            LocationType::DownloadLocation => {
                match system.known_folder(KnownFolder::Downloads) {
                    Some(path) => Some(path.clone()),
                    None => self.writable_location_impl(LocationType::DocumentsLocation, system),
                }
            },
            LocationType::AppCacheLocation | LocationType::GenericCacheLocation => {
                let data = if location == LocationType::AppCacheLocation {
                    LocationType::AppLocalDataLocation
                } else {
                    LocationType::GenericDataLocation
                };
                match self.writable_location_impl(data, system) {
                    Some(path) => {
                        let mut path = path;
                        path.push("cache");
                        Some(path)
                    },
                    None => None,
                }
            },
            LocationType::RuntimeLocation | LocationType::HomeLocation => {
                match system.home() {
                    Some(path) => Some(path.clone()),
                    None => None,
                }
            },
            LocationType::TempLocation => Some(system.temp().clone()),
            LocationType::DesktopLocation
            | LocationType::DocumentsLocation
            | LocationType::FontsLocation
            | LocationType::ApplicationsLocation
            | LocationType::MusicLocation
            | LocationType::MoviesLocation
            | LocationType::PicturesLocation
            | LocationType::AppLocalDataLocation
            | LocationType::GenericDataLocation
            | LocationType::ConfigLocation
            | LocationType::GenericConfigLocation
            | LocationType::AppDataLocation
            | LocationType::AppConfigLocation => {
                match known_folder(location) {
                    Some(folder) => match system.known_folder(folder) {
                        Some(path) => {
                            let mut path = path.clone();
                            if is_app_specific(location) {
                                self.append_organization_and_app(&mut path);
                            }
                            Some(path)
                        },
                        None => None,
                    },
                    None => None,
                }
            },
        }
    }

    /// All the directories of the kind `location`, the most preferred first.
    pub fn standard_locations_impl(&self, location: LocationType, system: &SystemFolders) -> (found:
        Option<Vec<ResolvedPath>>)
        ensures
            found.deep_view() == Some(spec_standard_locations(self@, location, system@)),
    {
        let mut dirs: Vec<ResolvedPath> = Vec::new();
        match self.writable_location_impl(location, system) {
            Some(path) => {
                dirs.push(path);
            },
            None => {},
        }
        assert(dirs.deep_view() =~= spec_writable_part(self@, location, system@));
        if has_shared_locations(location) {
            match system.known_folder(KnownFolder::ProgramData) {
                Some(path) => {
                    let mut path = path.clone();
                    if location != LocationType::GenericConfigLocation && location
                        != LocationType::GenericDataLocation {
                        self.append_organization_and_app(&mut path);
                    }
                    dirs.push(path);
                },
                None => {},
            }
            assert(dirs.deep_view() =~= spec_writable_part(self@, location, system@)
                + spec_shared_part(self@, location, system@));
            match system.executable_dir() {
                Some(dir) => {
                    let mut data = dir.clone();
                    dirs.push(dir.clone());
                    data.push("data");
                    dirs.push(data);
                },
                None => {},
            }
        }
        assert(dirs.deep_view() =~= spec_standard_locations(self@, location, system@));
        Some(dirs)
    }
}

} // verus!
