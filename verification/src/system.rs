//! What the host system answers: its known folders, the user's home, the
//! directory for temporary files and the directory of the running executable.
//!
//! The resolution rules read the host's answers and never ask the host
//! themselves. Whoever talks to the host fills a [`SystemFolders`] and hands
//! it to the rules; a folder that the host could not resolve stays unset.

use vstd::prelude::*;
use crate::path::PathModel;
use crate::path::ResolvedPath;

verus! {

/// The folders that the host resolves by identifier.
#[derive(Debug, Clone, Copy, PartialEq, Eq, Structural)]
pub enum KnownFolder {
    Desktop,
    Documents,
    Fonts,
    Programs,
    Music,
    Videos,
    Pictures,
    Downloads,
    LocalAppData,
    RoamingAppData,
    ProgramData,
}

/// The identifier by which the host knows a folder, in its four groups.
#[derive(Debug, Clone, Copy, PartialEq, Eq)]
pub struct Guid {
    pub data1: u32,
    pub data2: u16,
    pub data3: u16,
    pub data4: [u8; 8],
}

/// The mathematical value of an identifier.
pub struct GuidModel {
    pub head: (u32, u16, u16),
    pub tail: Seq<u8>,
}

impl View for Guid {
    type V = GuidModel;

    open spec fn view(&self) -> GuidModel {
        GuidModel { head: (self.data1, self.data2, self.data3), tail: self.data4@ }
    }
}

impl KnownFolder {
    /// The first three groups of the folder's identifier.
    pub open spec fn guid_head(self) -> (u32, u16, u16) {
        match self {
            KnownFolder::Desktop => (0xB4BFCC3A, 0xDB2C, 0x424C),
            KnownFolder::Documents => (0xFDD39AD0, 0x238F, 0x46AF),
            KnownFolder::Fonts => (0xFD228CB7, 0xAE11, 0x4AE3),
            KnownFolder::Programs => (0xA77F5D77, 0x2E2B, 0x44C3),
            KnownFolder::Music => (0x4BD8D571, 0x6D19, 0x48D3),
            KnownFolder::Videos => (0x18989B1D, 0x99B5, 0x455B),
            KnownFolder::Pictures => (0x33E28130, 0x4E1E, 0x4676),
            KnownFolder::Downloads => (0x374DE290, 0x123F, 0x4565),
            KnownFolder::LocalAppData => (0xF1B32785, 0x6FBA, 0x4FCF),
            KnownFolder::RoamingAppData => (0x3EB685DB, 0x65F9, 0x4CF6),
            KnownFolder::ProgramData => (0x62AB5D82, 0xFDC1, 0x4DC3),
        }
    }

    /// The eight bytes that close the folder's identifier.
    pub open spec fn guid_tail(self) -> Seq<u8> {
        match self {
            KnownFolder::Desktop => seq![0xB0, 0x29, 0x7F, 0xE9, 0x9A, 0x87, 0xC6, 0x41],
            KnownFolder::Documents => seq![0xAD, 0xB4, 0x6C, 0x85, 0x48, 0x03, 0x69, 0xC7],
            KnownFolder::Fonts => seq![0x86, 0x4C, 0x16, 0xF3, 0x91, 0x0A, 0xB8, 0xFE],
            KnownFolder::Programs => seq![0xA6, 0xA2, 0xAB, 0xA6, 0x01, 0x05, 0x4A, 0x51],
            KnownFolder::Music => seq![0xBE, 0x97, 0x42, 0x22, 0x20, 0x08, 0x0E, 0x43],
            KnownFolder::Videos => seq![0x84, 0x1C, 0xAB, 0x7C, 0x74, 0xE4, 0xDD, 0xFC],
            KnownFolder::Pictures => seq![0x83, 0x5A, 0x98, 0x39, 0x5C, 0x3B, 0xC3, 0xBB],
            KnownFolder::Downloads => seq![0x91, 0x64, 0x39, 0xC4, 0x92, 0x5E, 0x46, 0x7B],
            KnownFolder::LocalAppData => seq![0x9D, 0x55, 0x7B, 0x8E, 0x7F, 0x15, 0x70, 0x91],
            KnownFolder::RoamingAppData => seq![0xA0, 0x3A, 0xE3, 0xEF, 0x65, 0x72, 0x9F, 0x3D],
            KnownFolder::ProgramData => seq![0xA9, 0xDD, 0x07, 0x0D, 0x1D, 0x49, 0x5D, 0x97],
        }
    }

    /// The folder's identifier, as the host documents it.
    pub open spec fn spec_guid(self) -> GuidModel {
        GuidModel { head: self.guid_head(), tail: self.guid_tail() }
    }

    /// The identifier to ask the host with.
    pub fn guid(self) -> (id: Guid)
        ensures
            id@ == self.spec_guid(),
    {
        let id = match self {
            KnownFolder::Desktop => Guid {
                data1: 0xB4BFCC3A,
                data2: 0xDB2C,
                data3: 0x424C,
                data4: [0xB0, 0x29, 0x7F, 0xE9, 0x9A, 0x87, 0xC6, 0x41],
            },
            KnownFolder::Documents => Guid {
                data1: 0xFDD39AD0,
                data2: 0x238F,
                data3: 0x46AF,
                data4: [0xAD, 0xB4, 0x6C, 0x85, 0x48, 0x03, 0x69, 0xC7],
            },
            KnownFolder::Fonts => Guid {
                data1: 0xFD228CB7,
                data2: 0xAE11,
                data3: 0x4AE3,
                data4: [0x86, 0x4C, 0x16, 0xF3, 0x91, 0x0A, 0xB8, 0xFE],
            },
            KnownFolder::Programs => Guid {
                data1: 0xA77F5D77,
                data2: 0x2E2B,
                data3: 0x44C3,
                data4: [0xA6, 0xA2, 0xAB, 0xA6, 0x01, 0x05, 0x4A, 0x51],
            },
            KnownFolder::Music => Guid {
                data1: 0x4BD8D571,
                data2: 0x6D19,
                data3: 0x48D3,
                data4: [0xBE, 0x97, 0x42, 0x22, 0x20, 0x08, 0x0E, 0x43],
            },
            KnownFolder::Videos => Guid {
                data1: 0x18989B1D,
                data2: 0x99B5,
                data3: 0x455B,
                data4: [0x84, 0x1C, 0xAB, 0x7C, 0x74, 0xE4, 0xDD, 0xFC],
            },
            KnownFolder::Pictures => Guid {
                data1: 0x33E28130,
                data2: 0x4E1E,
                data3: 0x4676,
                data4: [0x83, 0x5A, 0x98, 0x39, 0x5C, 0x3B, 0xC3, 0xBB],
            },
            KnownFolder::Downloads => Guid {
                data1: 0x374DE290,
                data2: 0x123F,
                data3: 0x4565,
                data4: [0x91, 0x64, 0x39, 0xC4, 0x92, 0x5E, 0x46, 0x7B],
            },
            KnownFolder::LocalAppData => Guid {
                data1: 0xF1B32785,
                data2: 0x6FBA,
                data3: 0x4FCF,
                data4: [0x9D, 0x55, 0x7B, 0x8E, 0x7F, 0x15, 0x70, 0x91],
            },
            KnownFolder::RoamingAppData => Guid {
                data1: 0x3EB685DB,
                data2: 0x65F9,
                data3: 0x4CF6,
                data4: [0xA0, 0x3A, 0xE3, 0xEF, 0x65, 0x72, 0x9F, 0x3D],
            },
            KnownFolder::ProgramData => Guid {
                data1: 0x62AB5D82,
                data2: 0xFDC1,
                data3: 0x4DC3,
                data4: [0xA9, 0xDD, 0x07, 0x0D, 0x1D, 0x49, 0x5D, 0x97],
            },
        };
        assert(id.data4@ =~= self.guid_tail());
        id
    }

    /// No two folders share an identifier.
    pub proof fn lemma_guid_identifies_folder(a: KnownFolder, b: KnownFolder)
        requires
            a.spec_guid() == b.spec_guid(),
        ensures
            a == b,
    {
    }

    /// Every known folder, in the order of the declaration.
    pub fn all() -> (folders: Vec<KnownFolder>)
        ensures
            folders@ == seq![
                KnownFolder::Desktop,
                KnownFolder::Documents,
                KnownFolder::Fonts,
                KnownFolder::Programs,
                KnownFolder::Music,
                KnownFolder::Videos,
                KnownFolder::Pictures,
                KnownFolder::Downloads,
                KnownFolder::LocalAppData,
                KnownFolder::RoamingAppData,
                KnownFolder::ProgramData,
            ],
            forall|folder: KnownFolder| folders@.contains(folder),
    {
        let folders = vec![
            KnownFolder::Desktop,
            KnownFolder::Documents,
            KnownFolder::Fonts,
            KnownFolder::Programs,
            KnownFolder::Music,
            KnownFolder::Videos,
            KnownFolder::Pictures,
            KnownFolder::Downloads,
            KnownFolder::LocalAppData,
            KnownFolder::RoamingAppData,
            KnownFolder::ProgramData,
        ];
        assert forall|folder: KnownFolder| folders@.contains(folder) by {
            let i: int = match folder {
                KnownFolder::Desktop => 0,
                KnownFolder::Documents => 1,
                KnownFolder::Fonts => 2,
                KnownFolder::Programs => 3,
                KnownFolder::Music => 4,
                KnownFolder::Videos => 5,
                KnownFolder::Pictures => 6,
                KnownFolder::Downloads => 7,
                KnownFolder::LocalAppData => 8,
                KnownFolder::RoamingAppData => 9,
                KnownFolder::ProgramData => 10,
            };
            assert(folders@[i] == folder);
        }
        folders
    }
}

/// The mathematical value of the host's answers. A folder that the host
/// could not resolve is absent from `known`.
pub struct SystemModel {
    pub known: Map<KnownFolder, PathModel>,
    pub home: Option<PathModel>,
    pub temp: PathModel,
    pub executable_dir: Option<PathModel>,
}

impl SystemModel {
    /// The host's answer for `folder`, if it gave one.
    pub open spec fn folder(self, folder: KnownFolder) -> Option<PathModel> {
        if self.known.contains_key(folder) {
            Some(self.known[folder])
        } else {
            None
        }
    }

    /// These answers with the one for `folder` replaced by `answer`.
    pub open spec fn with_folder(self, folder: KnownFolder, answer: Option<PathModel>) -> SystemModel {
        SystemModel {
            known: match answer {
                Some(path) => self.known.insert(folder, path),
                None => self.known.remove(folder),
            },
            ..self
        }
    }
}

/// The host's answers, gathered before the rules run.
#[derive(Debug)]
pub struct SystemFolders {
    desktop: Option<ResolvedPath>,
    documents: Option<ResolvedPath>,
    fonts: Option<ResolvedPath>,
    programs: Option<ResolvedPath>,
    music: Option<ResolvedPath>,
    videos: Option<ResolvedPath>,
    pictures: Option<ResolvedPath>,
    downloads: Option<ResolvedPath>,
    local_app_data: Option<ResolvedPath>,
    roaming_app_data: Option<ResolvedPath>,
    program_data: Option<ResolvedPath>,
    home: Option<ResolvedPath>,
    temp: ResolvedPath,
    executable_dir: Option<ResolvedPath>,
}

impl SystemFolders {
    /// The field that holds the answer for `folder`.
    closed spec fn slot(&self, folder: KnownFolder) -> Option<ResolvedPath> {
        match folder {
            KnownFolder::Desktop => self.desktop,
            KnownFolder::Documents => self.documents,
            KnownFolder::Fonts => self.fonts,
            KnownFolder::Programs => self.programs,
            KnownFolder::Music => self.music,
            KnownFolder::Videos => self.videos,
            KnownFolder::Pictures => self.pictures,
            KnownFolder::Downloads => self.downloads,
            KnownFolder::LocalAppData => self.local_app_data,
            KnownFolder::RoamingAppData => self.roaming_app_data,
            KnownFolder::ProgramData => self.program_data,
        }
    }

    /// A host that resolves no known folder, has no home for the user and
    /// cannot tell where its executable lies; `temp` is its directory for
    /// temporary files.
    pub fn new(temp: ResolvedPath) -> (system: SystemFolders)
        ensures
            system@ == (SystemModel {
                known: Map::empty(),
                home: None,
                temp: temp@,
                executable_dir: None,
            }),
    {
        let system = SystemFolders {
            desktop: None,
            documents: None,
            fonts: None,
            programs: None,
            music: None,
            videos: None,
            pictures: None,
            downloads: None,
            local_app_data: None,
            roaming_app_data: None,
            program_data: None,
            home: None,
            temp,
            executable_dir: None,
        };
        assert(system@.known =~= Map::empty());
        system
    }

    /// Records the host's answer for `folder`; `None` where it gave none.
    pub fn set_known_folder(&mut self, folder: KnownFolder, answer: Option<ResolvedPath>)
        ensures
            final(self)@ == old(self)@.with_folder(folder, answer.deep_view()),
    {
        match folder {
            KnownFolder::Desktop => { self.desktop = answer; },
            KnownFolder::Documents => { self.documents = answer; },
            KnownFolder::Fonts => { self.fonts = answer; },
            KnownFolder::Programs => { self.programs = answer; },
            KnownFolder::Music => { self.music = answer; },
            KnownFolder::Videos => { self.videos = answer; },
            KnownFolder::Pictures => { self.pictures = answer; },
            KnownFolder::Downloads => { self.downloads = answer; },
            KnownFolder::LocalAppData => { self.local_app_data = answer; },
            KnownFolder::RoamingAppData => { self.roaming_app_data = answer; },
            KnownFolder::ProgramData => { self.program_data = answer; },
        }
        assert(self@.known =~= old(self)@.with_folder(folder, answer.deep_view()).known);
    }

    /// Records the user's home directory; `None` where the host has none.
    pub fn set_home(&mut self, answer: Option<ResolvedPath>)
        ensures
            final(self)@ == (SystemModel { home: answer.deep_view(), ..old(self)@ }),
    {
        self.home = answer;
        assert(self@.known =~= old(self)@.known);
    }

    /// Records the directory of the running executable; `None` where the
    /// host could not tell.
    pub fn set_executable_dir(&mut self, answer: Option<ResolvedPath>)
        ensures
            final(self)@ == (SystemModel { executable_dir: answer.deep_view(), ..old(self)@ }),
    {
        self.executable_dir = answer;
        assert(self@.known =~= old(self)@.known);
    }

    /// The host's answer for `folder`, if it gave one.
    pub fn known_folder(&self, folder: KnownFolder) -> (answer: Option<&ResolvedPath>)
        ensures
            answer.deep_view() == self@.folder(folder),
    {
        let slot = match folder {
            KnownFolder::Desktop => &self.desktop,
            KnownFolder::Documents => &self.documents,
            KnownFolder::Fonts => &self.fonts,
            KnownFolder::Programs => &self.programs,
            KnownFolder::Music => &self.music,
            KnownFolder::Videos => &self.videos,
            KnownFolder::Pictures => &self.pictures,
            KnownFolder::Downloads => &self.downloads,
            KnownFolder::LocalAppData => &self.local_app_data,
            KnownFolder::RoamingAppData => &self.roaming_app_data,
            KnownFolder::ProgramData => &self.program_data,
        };
        slot.as_ref()
    }

    /// The user's home directory, if the host has one.
    pub fn home(&self) -> (answer: Option<&ResolvedPath>)
        ensures
            answer.deep_view() == self@.home,
    {
        self.home.as_ref()
    }

    /// The host's directory for temporary files.
    pub fn temp(&self) -> (answer: &ResolvedPath)
        ensures
            answer@ == self@.temp,
    {
        &self.temp
    }

    /// The directory of the running executable, if the host could tell.
    pub fn executable_dir(&self) -> (answer: Option<&ResolvedPath>)
        ensures
            answer.deep_view() == self@.executable_dir,
    {
        self.executable_dir.as_ref()
    }
}

impl View for SystemFolders {
    type V = SystemModel;

    closed spec fn view(&self) -> SystemModel {
        SystemModel {
            known: Map::new(
                |folder: KnownFolder| self.slot(folder) is Some,
                |folder: KnownFolder| self.slot(folder)->0@,
            ),
            home: self.home.deep_view(),
            temp: self.temp@,
            executable_dir: self.executable_dir.deep_view(),
        }
    }
}

} // verus!
