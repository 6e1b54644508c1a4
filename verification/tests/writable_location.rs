use standard_paths::path::ResolvedPath;
use standard_paths::system::KnownFolder;
use standard_paths::system::SystemFolders;
use standard_paths::LocationType;
use standard_paths::StandardPaths;

fn path(base: &str, segments: &[&str]) -> ResolvedPath {
    let mut path = ResolvedPath::new(base);
    for segment in segments {
        path.push(segment);
    }
    path
}

fn folder_name(folder: KnownFolder) -> String {
    format!("C:\\Known\\{:?}", folder)
}

/// A host that resolves every known folder, has a home and a temp directory.
fn full_system() -> SystemFolders {
    let mut system = SystemFolders::new(ResolvedPath::new("C:\\Temp"));
    for folder in KnownFolder::all() {
        system.set_known_folder(folder, Some(ResolvedPath::new(&folder_name(folder))));
    }
    system.set_home(Some(ResolvedPath::new("C:\\Users\\me")));
    system.set_executable_dir(Some(ResolvedPath::new("C:\\Program Files\\tool")));
    system
}

fn known(folder: KnownFolder, segments: &[&str]) -> Option<ResolvedPath> {
    Some(path(&folder_name(folder), segments))
}

#[test]
fn app_specific_kinds_without_names_are_the_bare_folder() {
    let names = StandardPaths::new_with_names("", "");
    let system = full_system();
    assert_eq!(
        names.writable_location(LocationType::AppDataLocation, &system),
        known(KnownFolder::RoamingAppData, &[])
    );
    assert_eq!(
        names.writable_location(LocationType::AppConfigLocation, &system),
        known(KnownFolder::LocalAppData, &[])
    );
    assert_eq!(
        names.writable_location(LocationType::AppLocalDataLocation, &system),
        known(KnownFolder::LocalAppData, &[])
    );
    assert_eq!(
        names.writable_location(LocationType::ConfigLocation, &system),
        known(KnownFolder::LocalAppData, &[])
    );
}

#[test]
fn app_cache_without_names_is_the_generic_cache() {
    let names = StandardPaths::new_with_names("", "");
    let system = full_system();
    let cache = names.writable_location(LocationType::AppCacheLocation, &system);
    assert_eq!(cache, known(KnownFolder::LocalAppData, &["cache"]));
    assert_eq!(cache, names.writable_location(LocationType::GenericCacheLocation, &system));
}

#[test]
fn app_config_ends_with_organisation_then_application() {
    let names = StandardPaths::new_with_names("app", "org");
    let system = full_system();
    let found = names.writable_location(LocationType::AppConfigLocation, &system).unwrap();
    let segments = found.segments();
    assert_eq!(segments.len(), 2);
    assert_eq!(segments[segments.len() - 2], "org");
    assert_eq!(segments[segments.len() - 1], "app");
    assert_eq!(found.base(), folder_name(KnownFolder::LocalAppData));
}

#[test]
fn every_app_specific_kind_nests_organisation_then_application() {
    let names = StandardPaths::new_with_names("app", "org");
    let system = full_system();
    assert_eq!(
        names.writable_location(LocationType::AppDataLocation, &system),
        known(KnownFolder::RoamingAppData, &["org", "app"])
    );
    assert_eq!(
        names.writable_location(LocationType::AppLocalDataLocation, &system),
        known(KnownFolder::LocalAppData, &["org", "app"])
    );
    assert_eq!(
        names.writable_location(LocationType::ConfigLocation, &system),
        known(KnownFolder::LocalAppData, &["org", "app"])
    );
    assert_eq!(
        names.writable_location(LocationType::AppConfigLocation, &system),
        known(KnownFolder::LocalAppData, &["org", "app"])
    );
}

#[test]
fn an_empty_organisation_is_left_out() {
    let names = StandardPaths::new_with_names("app", "");
    let system = full_system();
    assert_eq!(
        names.writable_location(LocationType::AppDataLocation, &system),
        known(KnownFolder::RoamingAppData, &["app"])
    );
}

#[test]
fn an_empty_application_is_left_out() {
    let names = StandardPaths::new_with_names("", "org");
    let system = full_system();
    assert_eq!(
        names.writable_location(LocationType::AppDataLocation, &system),
        known(KnownFolder::RoamingAppData, &["org"])
    );
}

#[test]
fn generic_kinds_are_never_named() {
    let names = StandardPaths::new_with_names("app", "org");
    let system = full_system();
    assert_eq!(
        names.writable_location(LocationType::GenericDataLocation, &system),
        known(KnownFolder::LocalAppData, &[])
    );
    assert_eq!(
        names.writable_location(LocationType::GenericConfigLocation, &system),
        known(KnownFolder::LocalAppData, &[])
    );
    assert_eq!(
        names.writable_location(LocationType::GenericCacheLocation, &system),
        known(KnownFolder::LocalAppData, &["cache"])
    );
}

#[test]
fn user_directories_map_to_their_known_folders() {
    let names = StandardPaths::new_with_names("app", "org");
    let system = full_system();
    let table = [
        (LocationType::DesktopLocation, KnownFolder::Desktop),
        (LocationType::DocumentsLocation, KnownFolder::Documents),
        (LocationType::FontsLocation, KnownFolder::Fonts),
        (LocationType::ApplicationsLocation, KnownFolder::Programs),
        (LocationType::MusicLocation, KnownFolder::Music),
        (LocationType::MoviesLocation, KnownFolder::Videos),
        (LocationType::PicturesLocation, KnownFolder::Pictures),
    ];
    for (location, folder) in table {
        assert_eq!(names.writable_location(location, &system), known(folder, &[]));
    }
}

#[test]
fn a_kind_is_unresolved_where_its_folder_is() {
    let names = StandardPaths::new_with_names("app", "org");
    let system = SystemFolders::new(ResolvedPath::new("C:\\Temp"));
    let kinds = [
        LocationType::DesktopLocation,
        LocationType::DocumentsLocation,
        LocationType::DownloadLocation,
        LocationType::MoviesLocation,
        LocationType::MusicLocation,
        LocationType::PicturesLocation,
        LocationType::ApplicationsLocation,
        LocationType::FontsLocation,
        LocationType::GenericDataLocation,
        LocationType::AppDataLocation,
        LocationType::AppLocalDataLocation,
        LocationType::GenericCacheLocation,
        LocationType::AppCacheLocation,
        LocationType::ConfigLocation,
        LocationType::GenericConfigLocation,
        LocationType::AppConfigLocation,
    ];
    for location in kinds {
        assert_eq!(names.writable_location(location, &system), None);
    }
}

#[test]
fn download_is_the_downloads_folder() {
    let names = StandardPaths::new_with_names("app", "org");
    let system = full_system();
    assert_eq!(
        names.writable_location(LocationType::DownloadLocation, &system),
        known(KnownFolder::Downloads, &[])
    );
}

#[test]
fn download_falls_back_on_documents() {
    let names = StandardPaths::new_with_names("app", "org");
    let mut system = full_system();
    system.set_known_folder(KnownFolder::Downloads, None);
    let download = names.writable_location(LocationType::DownloadLocation, &system);
    let documents = names.writable_location(LocationType::DocumentsLocation, &system);
    assert_eq!(download, documents);
    assert_eq!(download, known(KnownFolder::Documents, &[]));
}

#[test]
fn download_is_unresolved_without_downloads_and_documents() {
    let names = StandardPaths::new_with_names("app", "org");
    let mut system = full_system();
    system.set_known_folder(KnownFolder::Downloads, None);
    system.set_known_folder(KnownFolder::Documents, None);
    assert_eq!(names.writable_location(LocationType::DownloadLocation, &system), None);
}

#[test]
fn generic_cache_is_generic_data_and_cache() {
    let names = StandardPaths::new_with_names("app", "org");
    let system = full_system();
    let mut expected = names.writable_location(LocationType::GenericDataLocation, &system).unwrap();
    expected.push("cache");
    assert_eq!(
        names.writable_location(LocationType::GenericCacheLocation, &system),
        Some(expected)
    );
}

#[test]
fn generic_cache_is_unresolved_where_generic_data_is() {
    let names = StandardPaths::new_with_names("app", "org");
    let mut system = full_system();
    system.set_known_folder(KnownFolder::LocalAppData, None);
    assert_eq!(names.writable_location(LocationType::GenericDataLocation, &system), None);
    assert_eq!(names.writable_location(LocationType::GenericCacheLocation, &system), None);
    assert_eq!(names.writable_location(LocationType::AppCacheLocation, &system), None);
}

#[test]
fn app_cache_is_app_local_data_and_cache() {
    let names = StandardPaths::new_with_names("app", "org");
    let system = full_system();
    let mut expected = names.writable_location(LocationType::AppLocalDataLocation, &system).unwrap();
    expected.push("cache");
    assert_eq!(names.writable_location(LocationType::AppCacheLocation, &system), Some(expected));
    assert_eq!(
        names.writable_location(LocationType::AppCacheLocation, &system),
        known(KnownFolder::LocalAppData, &["org", "app", "cache"])
    );
}

#[test]
fn home_and_runtime_are_the_home_directory() {
    let names = StandardPaths::new_with_names("app", "org");
    let system = full_system();
    let home = Some(ResolvedPath::new("C:\\Users\\me"));
    assert_eq!(names.writable_location(LocationType::HomeLocation, &system), home);
    assert_eq!(names.writable_location(LocationType::RuntimeLocation, &system), home);
}

#[test]
fn home_and_runtime_are_unresolved_without_a_home() {
    let names = StandardPaths::new_with_names("app", "org");
    let mut system = full_system();
    system.set_home(None);
    assert_eq!(names.writable_location(LocationType::HomeLocation, &system), None);
    assert_eq!(names.writable_location(LocationType::RuntimeLocation, &system), None);
}

#[test]
fn temp_is_resolved_on_a_host_that_answers_nothing_else() {
    let names = StandardPaths::new_with_names("app", "org");
    let system = SystemFolders::new(ResolvedPath::new("C:\\Temp"));
    assert_eq!(
        names.writable_location(LocationType::TempLocation, &system),
        Some(ResolvedPath::new("C:\\Temp"))
    );
}

#[test]
fn a_folder_that_already_has_segments_keeps_them() {
    let names = StandardPaths::new_with_names("app", "org");
    let mut system = SystemFolders::new(ResolvedPath::new("C:\\Temp"));
    system.set_known_folder(KnownFolder::RoamingAppData, Some(path("C:\\Users", &["me", "Roaming"])));
    assert_eq!(
        names.writable_location(LocationType::AppDataLocation, &system),
        Some(path("C:\\Users", &["me", "Roaming", "org", "app"]))
    );
}

#[test]
fn resolving_twice_gives_the_same_path() {
    let names = StandardPaths::new_with_names("app", "org");
    let system = full_system();
    for location in [
        LocationType::AppDataLocation,
        LocationType::DownloadLocation,
        LocationType::AppCacheLocation,
        LocationType::TempLocation,
        LocationType::HomeLocation,
    ] {
        let first = names.writable_location(location, &system);
        let second = names.writable_location(location, &system);
        assert_eq!(first, second);
    }
}

#[test]
fn the_facade_and_the_rules_agree() {
    let names = StandardPaths::new_with_names("app", "org");
    let system = full_system();
    for location in [
        LocationType::AppConfigLocation,
        LocationType::GenericCacheLocation,
        LocationType::DownloadLocation,
        LocationType::RuntimeLocation,
    ] {
        assert_eq!(
            names.writable_location(location, &system),
            names.writable_location_impl(location, &system)
        );
        assert_eq!(
            names.standard_locations(location, &system),
            names.standard_locations_impl(location, &system)
        );
    }
}

#[test]
fn new_names_the_application_after_the_package() {
    let names = StandardPaths::new(Some(String::from("pkg")));
    let system = full_system();
    assert_eq!(
        names.writable_location(LocationType::AppDataLocation, &system),
        known(KnownFolder::RoamingAppData, &["pkg"])
    );
}

#[test]
fn new_without_a_package_names_nothing() {
    let names = StandardPaths::new(None);
    let system = full_system();
    assert_eq!(
        names.writable_location(LocationType::AppDataLocation, &system),
        known(KnownFolder::RoamingAppData, &[])
    );
}

#[test]
fn appending_the_names_nests_organisation_first() {
    let names = StandardPaths::new_with_names("app", "org");
    let mut config = ResolvedPath::new("~/.config");
    names.append_organization_and_app(&mut config);
    assert_eq!(config, path("~/.config", &["org", "app"]));
}

#[test]
fn appending_the_names_twice_repeats_them() {
    let names = StandardPaths::new_with_names("app", "org");
    let mut config = ResolvedPath::new("~/.config");
    names.append_organization_and_app(&mut config);
    names.append_organization_and_app(&mut config);
    assert_eq!(config, path("~/.config", &["org", "app", "org", "app"]));
}

#[test]
fn appending_empty_names_changes_nothing() {
    let names = StandardPaths::new_with_names("", "");
    let mut config = path("~/.config", &["kept"]);
    names.append_organization_and_app(&mut config);
    assert_eq!(config, path("~/.config", &["kept"]));
}

#[test]
fn the_names_are_read_back() {
    let names = StandardPaths::new_with_names("app", "org");
    assert_eq!(names.app_name(), "app");
    assert_eq!(names.organisation_name(), "org");
    let package = StandardPaths::new(Some(String::from("pkg")));
    assert_eq!(package.app_name(), "pkg");
    assert_eq!(package.organisation_name(), "");
    let nameless = StandardPaths::new(None);
    assert_eq!(nameless.app_name(), "");
    assert_eq!(nameless.organisation_name(), "");
}
