//! The application context: it owns the configuration and data directory
//! paths, the ordered link catalog, the platform definition catalog, the ROM
//! manager and the tune manager for the process lifetime, and carries the
//! binder and the download pipeline that work across them.
use vstd::prelude::*;

use crate::copy_vec;
use crate::error::Error;
use crate::link::{download_capable, DataLink, LinkEntry, LinkEntryView, PlatformLink};
use crate::platform::{
    has_platform, is_first_match, is_first_platform, no_rule_matches, Definitions,
    DefinitionsView,
};
use crate::rom::{RomManager, RomManagerView, RomView, TuneManager, TuneManagerView};

verus! {

/// The application context.
#[derive(Debug)]
pub struct App {
    pub config_dir: String,
    pub data_dir: String,
    /// The ordered catalog of available link descriptors. Identity is
    /// positional: entries are appended and never removed within a session.
    pub avail_links: Vec<LinkEntry>,
    pub definitions: Definitions,
    pub roms: RomManager,
    pub tunes: TuneManager,
}

/// The mathematical model of the context.
pub ghost struct AppView {
    pub config_dir: Seq<char>,
    pub data_dir: Seq<char>,
    pub avail_links: Seq<LinkEntryView>,
    pub definitions: DefinitionsView,
    pub roms: RomManagerView,
    pub tunes: TuneManagerView,
}

impl View for App {
    type V = AppView;

    open spec fn view(&self) -> AppView {
        AppView {
            config_dir: self.config_dir@,
            data_dir: self.data_dir@,
            avail_links: self.avail_links@.map_values(|e: LinkEntry| e@),
            definitions: self.definitions@,
            roms: self.roms@,
            tunes: self.tunes@,
        }
    }
}

/// What `download` leaves untouched whatever happens: everything of the
/// context but the ROM catalog, and the catalogs' media.
pub open spec fn download_frame(pre: AppView, post: AppView) -> bool {
    &&& post.config_dir == pre.config_dir
    &&& post.data_dir == pre.data_dir
    &&& post.avail_links == pre.avail_links
    &&& post.definitions == pre.definitions
    &&& post.tunes == pre.tunes
    &&& post.roms.meta_store == pre.roms.meta_store
    &&& post.roms.image_store == pre.roms.image_store
}

impl App {
    /// Assembles the context from what the host loaded: the directory
    /// paths, the discovered link descriptors, the installed platform
    /// definitions, and the two managers.
    pub fn new(
        config_dir: String,
        data_dir: String,
        avail_links: Vec<LinkEntry>,
        definitions: Definitions,
        roms: RomManager,
        tunes: TuneManager,
    ) -> (r: App)
        ensures
            r@.config_dir == config_dir@,
            r@.data_dir == data_dir@,
            r@.avail_links == avail_links@.map_values(|e: LinkEntry| e@),
            r@.definitions == definitions@,
            r@.roms == roms@,
            r@.tunes == tunes@,
    {
        App { config_dir, data_dir, avail_links, definitions, roms, tunes }
    }

    /// Appends a new link descriptor at runtime, preserving the positional
    /// identity of every existing entry.
    pub fn add_link(&mut self, entry: LinkEntry)
        ensures
            final(self)@.avail_links == old(self)@.avail_links.push(entry@),
            final(self)@.config_dir == old(self)@.config_dir,
            final(self)@.data_dir == old(self)@.data_dir,
            final(self)@.definitions == old(self)@.definitions,
            final(self)@.roms == old(self)@.roms,
            final(self)@.tunes == old(self)@.tunes,
    {
        let ghost pre = self@.avail_links;
        self.avail_links.push(entry);
        proof {
            assert(self@.avail_links =~= pre.push(entry@));
        }
    }

    /// Resolves a datalink index to a live link: out-of-range indices fail
    /// with `InvalidDatalink`, and a creation fault of the descriptor is
    /// wrapped and propagated, not retried.
    pub fn get_datalink(&self, id: usize) -> (r: Result<DataLink, Error>)
        ensures
            id >= self@.avail_links.len() ==> (r matches Err(e) && e == Error::InvalidDatalink),
            id < self@.avail_links.len() ==> match self@.avail_links[id as int].creation {
                Ok(d) => r matches Ok(l) && l@ == d,
                Err(m) => r matches Err(Error::Protocol(f)) && f@ == m,
            },
    {
        if id >= self.avail_links.len() {
            return Err(Error::InvalidDatalink);
        }
        proof {
            assert(self@.avail_links[id as int] == self.avail_links[id as int]@);
        }
        self.avail_links[id].create()
    }

    /// Binds a datalink to a platform: resolves the link, resolves the
    /// platform (failing with `InvalidPlatform` if its id is absent from the
    /// catalog), and composes both. When link creation succeeds but the
    /// platform is absent, the opened link is simply released.
    pub fn create_platform_link(&self, datalink: usize, platform: &str) -> (r: Result<
        PlatformLink,
        Error,
    >)
        ensures
            datalink >= self@.avail_links.len() ==> (r matches Err(e) && e
                == Error::InvalidDatalink),
            self@.avail_links[datalink as int].creation matches Err(m) ==> (datalink
                < self@.avail_links.len() ==> (r matches Err(Error::Protocol(f)) && f@ == m)),
            datalink < self@.avail_links.len() && self@.avail_links[datalink as int].creation is Ok
                && !has_platform(self@.definitions.definitions, platform@) ==> (r matches Err(e)
                && e == Error::InvalidPlatform),
            self@.avail_links[datalink as int].creation matches Ok(d) ==> (datalink
                < self@.avail_links.len() && has_platform(self@.definitions.definitions, platform@)
                ==> (r matches Ok(pl) && pl@.link == d && is_first_platform(
                self@.definitions.definitions,
                platform@,
                pl@.platform,
            ))),
    {
        let datalink = match self.get_datalink(datalink) {
            Ok(l) => l,
            Err(e) => {
                return Err(e);
            },
        };
        let platform = match self.definitions.find(platform) {
            Some(p) => p,
            None => {
                return Err(Error::InvalidPlatform);
            },
        };
        Ok(PlatformLink::new(datalink, platform.duplicate()))
    }

    /// The installed platform definitions, as (name, id) pairs in catalog
    /// order.
    pub fn list_platforms(&self) -> (r: Vec<(String, String)>)
        ensures
            r@.len() == self@.definitions.definitions.len(),
            forall|i: int|
                0 <= i < r@.len() ==> (#[trigger] r@[i]).0@
                    == self@.definitions.definitions[i].name && r@[i].1@
                    == self@.definitions.definitions[i].id,
    {
        let mut platforms: Vec<(String, String)> = Vec::new();
        let mut i: usize = 0;
        while i < self.definitions.definitions.len()
            invariant
                0 <= i <= self.definitions.definitions.len(),
                self@.definitions.definitions.len() == self.definitions.definitions.len(),
                platforms@.len() == i,
                forall|j: int|
                    0 <= j < i ==> (#[trigger] platforms@[j]).0@
                        == self@.definitions.definitions[j].name && platforms@[j].1@
                        == self@.definitions.definitions[j].id,
            decreases self.definitions.definitions.len() - i,
        {
            proof {
                assert(self@.definitions.definitions[i as int]
                    == self.definitions.definitions[i as int]@);
            }
            platforms.push(
                (self.definitions.definitions[i].name.clone(), self.definitions.definitions[i].id.clone()),
            );
            i += 1;
        }
        platforms
    }

    /// The download pipeline: requests the download capability of the bound
    /// link, drives the transfer (forwarding its progress reports), matches
    /// the image against the platform's model rules, and — only if a model
    /// was identified and both durable writes succeed — registers exactly
    /// one new ROM built from the given id and name, the platform, the
    /// identified model and the image. On every failure the ROM catalog is
    /// left exactly as it was.
    pub fn download(
        &mut self,
        link: &PlatformLink,
        id: &str,
        name: &str,
        progress: &mut Vec<u16>,
    ) -> (r: Result<(), Error>)
        ensures
            download_frame(old(self)@, final(self)@),
            !download_capable(link@) ==> (r matches Err(e) && e == Error::DownloadUnsupported)
                && final(self)@.roms == old(self)@.roms && final(progress)@ == old(progress)@,
            link@.link.downloader matches Some(d) ==> (link@.platform.download_supported ==> {
                &&& final(progress)@ == old(progress)@ + d.progress
                &&& match d.outcome {
                    Err(m) => (r matches Err(Error::Protocol(f)) && f@ == m) && final(self)@.roms
                        == old(self)@.roms,
                    Ok(bytes) => {
                        if no_rule_matches(link@.platform.models, bytes) {
                            (r matches Err(e) && e == Error::UnknownModel) && final(self)@.roms
                                == old(self)@.roms
                        } else if old(self)@.roms.meta_store.writable
                            && old(self)@.roms.image_store.writable {
                            r is Ok && exists|i: int|
                                #[trigger] is_first_match(link@.platform.models, bytes, i)
                                    && final(self)@.roms.roms == old(self)@.roms.roms.push(
                                    RomView {
                                        id: id@,
                                        name: name@,
                                        platform: link@.platform.id,
                                        model: link@.platform.models[i].model,
                                        data: bytes,
                                    },
                                )
                        } else {
                            (if !old(self)@.roms.meta_store.writable {
                                r matches Err(Error::Io(f)) && f@
                                    == old(self)@.roms.meta_store.fault
                            } else {
                                r matches Err(Error::Io(f)) && f@
                                    == old(self)@.roms.image_store.fault
                            }) && final(self)@.roms == old(self)@.roms
                        }
                    },
                }
            }),
    {
        let downloader = match link.downloader() {
            Some(d) => d,
            None => {
                return Err(Error::DownloadUnsupported);
            },
        };
        // Forward the progress reports the transfer produced while data
        // arrived, whatever the transfer's outcome.
        let ghost pre_progress = progress@;
        let mut k: usize = 0;
        while k < downloader.progress.len()
            invariant
                0 <= k <= downloader.progress.len(),
                progress@ =~= pre_progress + downloader.progress@.take(k as int),
            decreases downloader.progress.len() - k,
        {
            progress.push(downloader.progress[k]);
            proof {
                assert(progress@ =~= pre_progress + downloader.progress@.take(k + 1 as int));
            }
            k += 1;
        }
        proof {
            assert(downloader.progress@.take(downloader.progress@.len() as int)
                =~= downloader.progress@);
        }
        let data = match &downloader.outcome {
            Ok(d) => copy_vec(d),
            Err(m) => {
                return Err(Error::Protocol(m.clone()));
            },
        };
        let model = match link.platform.identify(&data) {
            Some(m) => m,
            None => {
                return Err(Error::UnknownModel);
            },
        };
        self.roms.new_rom(name.to_owned(), id.to_owned(), link.platform.id.clone(), model, data)
    }
}

} // verus!
