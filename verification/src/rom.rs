//! Firmware images and calibration overlays. The managers own the in-memory
//! catalogs; the durable media they write to (the metadata index and the raw
//! image store for ROMs, the tune index for tunes) are collaborators whose
//! health is staged as a value. Every workflow that persists is a two-phase
//! commit: the record becomes visible to lookups only after every durable
//! write succeeded, and a write failure rolls the record back and propagates.
use vstd::prelude::*;

use crate::error::Error;

verus! {

/// One durable medium as the orchestration layer sees it: either writable,
/// or failing every write with a fault message.
#[derive(Debug)]
pub struct Store {
    pub writable: bool,
    pub fault: String,
}

/// The mathematical model of a `Store`.
pub ghost struct StoreView {
    pub writable: bool,
    pub fault: Seq<char>,
}

impl View for Store {
    type V = StoreView;

    open spec fn view(&self) -> StoreView {
        StoreView { writable: self.writable, fault: self.fault@ }
    }
}

impl Store {
    /// A medium that accepts every write.
    pub fn writable() -> (r: Store)
        ensures
            r@.writable,
    {
        Store { writable: true, fault: String::new() }
    }

    /// Performs one durable write, or reports the staged fault.
    fn write(&self) -> (r: Result<(), Error>)
        ensures
            self@.writable ==> r is Ok,
            !self@.writable ==> (r matches Err(Error::Io(f)) && f@ == self@.fault),
    {
        if self.writable {
            Ok(())
        } else {
            Err(Error::Io(self.fault.clone()))
        }
    }
}

/// A persisted firmware record.
#[derive(Debug)]
pub struct Rom {
    pub id: String,
    pub name: String,
    /// The id of the owning platform.
    pub platform: String,
    /// The identified model.
    pub model: String,
    /// The raw image payload.
    pub data: Vec<u8>,
}

/// The mathematical model of a `Rom`.
pub ghost struct RomView {
    pub id: Seq<char>,
    pub name: Seq<char>,
    pub platform: Seq<char>,
    pub model: Seq<char>,
    pub data: Seq<u8>,
}

impl View for Rom {
    type V = RomView;

    open spec fn view(&self) -> RomView {
        RomView {
            id: self.id@,
            name: self.name@,
            platform: self.platform@,
            model: self.model@,
            data: self.data@,
        }
    }
}

/// Whether some ROM in the catalog carries the id.
pub open spec fn has_rom(roms: Seq<RomView>, id: Seq<char>) -> bool {
    exists|i: int| 0 <= i < roms.len() && #[trigger] roms[i].id == id
}

/// Whether `r` is the first record in the catalog carrying the id.
pub open spec fn is_first_rom(roms: Seq<RomView>, id: Seq<char>, r: RomView) -> bool {
    exists|i: int|
        {
            &&& 0 <= i < roms.len()
            &&& #[trigger] roms[i].id == id
            &&& r == roms[i]
            &&& forall|j: int| 0 <= j < i ==> roms[j].id != id
        }
}

/// A ROM registered under an id no existing record carries is exactly the
/// record a lookup of that id resolves afterward.
pub proof fn lemma_new_rom_retrievable(roms: Seq<RomView>, rom: RomView)
    requires
        !has_rom(roms, rom.id),
    ensures
        has_rom(roms.push(rom), rom.id),
        is_first_rom(roms.push(rom), rom.id, rom),
        forall|r2: RomView| is_first_rom(roms.push(rom), rom.id, r2) ==> r2 == rom,
{
    let grown = roms.push(rom);
    assert(grown[roms.len() as int] == rom);
    assert(grown[roms.len() as int].id == rom.id);
    assert(forall|j: int| 0 <= j < roms.len() ==> grown[j] == roms[j]);
    assert(forall|j: int| 0 <= j < roms.len() ==> (#[trigger] grown[j].id) != rom.id) by {
        assert forall|j: int| 0 <= j < roms.len() implies (#[trigger] grown[j].id) != rom.id by {
            if grown[j].id == rom.id {
                assert(roms[j].id == rom.id);
                assert(has_rom(roms, rom.id));
            }
        }
    }
    assert(is_first_rom(grown, rom.id, rom)) by {
        assert(0 <= roms.len() < grown.len() && grown[roms.len() as int].id == rom.id && rom
            == grown[roms.len() as int] && forall|j: int|
            0 <= j < roms.len() ==> grown[j].id != rom.id);
    }
    assert forall|r2: RomView| is_first_rom(grown, rom.id, r2) implies r2 == rom by {
        let i = choose|i: int|
            {
                &&& 0 <= i < grown.len()
                &&& #[trigger] grown[i].id == rom.id
                &&& r2 == grown[i]
                &&& forall|j: int| 0 <= j < i ==> grown[j].id != rom.id
            };
        if i < roms.len() {
            assert(grown[i].id != rom.id);
        }
    }
}

/// The ROM catalog and the two durable media it persists to.
#[derive(Debug)]
pub struct RomManager {
    pub roms: Vec<Rom>,
    /// The medium holding the metadata index.
    pub meta_store: Store,
    /// The medium holding the raw images.
    pub image_store: Store,
}

/// The mathematical model of a `RomManager`.
pub ghost struct RomManagerView {
    pub roms: Seq<RomView>,
    pub meta_store: StoreView,
    pub image_store: StoreView,
}

impl View for RomManager {
    type V = RomManagerView;

    open spec fn view(&self) -> RomManagerView {
        RomManagerView {
            roms: self.roms@.map_values(|r: Rom| r@),
            meta_store: self.meta_store@,
            image_store: self.image_store@,
        }
    }
}

impl RomManager {
    /// An empty catalog over the given media.
    pub fn new(meta_store: Store, image_store: Store) -> (r: RomManager)
        ensures
            r@.roms.len() == 0,
            r@.meta_store == meta_store@,
            r@.image_store == image_store@,
    {
        let r = RomManager { roms: Vec::new(), meta_store, image_store };
        proof {
            assert(r@.roms =~= Seq::<RomView>::empty());
        }
        r
    }

    /// Resolves a ROM id to the first record that carries it.
    pub fn search(&self, id: &str) -> (r: Option<&Rom>)
        ensures
            r is None <==> !has_rom(self@.roms, id@),
            r matches Some(rom) ==> is_first_rom(self@.roms, id@, rom@),
    {
        let wanted: String = id.to_owned();
        let mut i: usize = 0;
        while i < self.roms.len()
            invariant
                0 <= i <= self.roms.len(),
                self@.roms.len() == self.roms.len(),
                wanted@ == id@,
                forall|j: int| 0 <= j < i ==> self@.roms[j].id != id@,
            decreases self.roms.len() - i,
        {
            assert(self@.roms[i as int] == self.roms[i as int]@);
            if self.roms[i].id == wanted {
                proof {
                    assert(self@.roms[i as int].id == id@);
                    assert(has_rom(self@.roms, id@)) by {
                        assert(0 <= i < self@.roms.len() && self@.roms[i as int].id == id@);
                    }
                }
                return Some(&self.roms[i]);
            }
            i += 1;
        }
        None
    }

    /// Constructs a new ROM record, writes the metadata index and the raw
    /// image to the durable media, and registers the record. The record
    /// becomes visible only after both writes succeeded; a failed write
    /// leaves the catalog unchanged and propagates.
    pub fn new_rom(
        &mut self,
        name: String,
        id: String,
        platform: String,
        model: String,
        data: Vec<u8>,
    ) -> (r: Result<(), Error>)
        ensures
            final(self)@.meta_store == old(self)@.meta_store,
            final(self)@.image_store == old(self)@.image_store,
            old(self)@.meta_store.writable && old(self)@.image_store.writable ==> r is Ok
                && final(self)@.roms == old(self)@.roms.push(
                RomView {
                    id: id@,
                    name: name@,
                    platform: platform@,
                    model: model@,
                    data: data@,
                },
            ),
            !old(self)@.meta_store.writable ==> (r matches Err(Error::Io(f)) && f@ == old(
                self,
            )@.meta_store.fault) && final(self)@.roms == old(self)@.roms,
            old(self)@.meta_store.writable && !old(self)@.image_store.writable ==> (r matches Err(
                Error::Io(f),
            ) && f@ == old(self)@.image_store.fault) && final(self)@.roms == old(self)@.roms,
    {
        let rom = Rom { id, name, platform, model, data };
        match self.meta_store.write() {
            Ok(_) => (),
            Err(e) => {
                return Err(e);
            },
        }
        match self.image_store.write() {
            Ok(_) => (),
            Err(e) => {
                return Err(e);
            },
        }
        let ghost pre = self@.roms;
        self.roms.push(rom);
        proof {
            assert(self@.roms =~= pre.push(rom@));
        }
        Ok(())
    }
}

/// A persisted calibration record referencing a parent ROM.
#[derive(Debug)]
pub struct Tune {
    pub id: String,
    pub name: String,
    /// The id of the referenced ROM.
    pub rom_id: String,
}

/// The mathematical model of a `Tune`.
pub ghost struct TuneView {
    pub id: Seq<char>,
    pub name: Seq<char>,
    pub rom_id: Seq<char>,
}

impl View for Tune {
    type V = TuneView;

    open spec fn view(&self) -> TuneView {
        TuneView { id: self.id@, name: self.name@, rom_id: self.rom_id@ }
    }
}

/// Whether some tune in the catalog carries the id.
pub open spec fn has_tune(tunes: Seq<TuneView>, id: Seq<char>) -> bool {
    exists|i: int| 0 <= i < tunes.len() && #[trigger] tunes[i].id == id
}

/// Whether `t` is the first record in the catalog carrying the id.
pub open spec fn is_first_tune(tunes: Seq<TuneView>, id: Seq<char>, t: TuneView) -> bool {
    exists|i: int|
        {
            &&& 0 <= i < tunes.len()
            &&& #[trigger] tunes[i].id == id
            &&& t == tunes[i]
            &&& forall|j: int| 0 <= j < i ==> tunes[j].id != id
        }
}

/// A tune added under an id no existing record carries is exactly the
/// record a lookup of that id resolves afterward, its ROM reference kept
/// verbatim.
pub proof fn lemma_new_tune_retrievable(tunes: Seq<TuneView>, tune: TuneView)
    requires
        !has_tune(tunes, tune.id),
    ensures
        has_tune(tunes.push(tune), tune.id),
        is_first_tune(tunes.push(tune), tune.id, tune),
        forall|t2: TuneView| is_first_tune(tunes.push(tune), tune.id, t2) ==> t2 == tune,
{
    let grown = tunes.push(tune);
    assert(grown[tunes.len() as int] == tune);
    assert(grown[tunes.len() as int].id == tune.id);
    assert(forall|j: int| 0 <= j < tunes.len() ==> grown[j] == tunes[j]);
    assert(forall|j: int| 0 <= j < tunes.len() ==> (#[trigger] grown[j].id) != tune.id) by {
        assert forall|j: int| 0 <= j < tunes.len() implies (#[trigger] grown[j].id) != tune.id by {
            if grown[j].id == tune.id {
                assert(tunes[j].id == tune.id);
                assert(has_tune(tunes, tune.id));
            }
        }
    }
    assert(is_first_tune(grown, tune.id, tune)) by {
        assert(0 <= tunes.len() < grown.len() && grown[tunes.len() as int].id == tune.id && tune
            == grown[tunes.len() as int] && forall|j: int|
            0 <= j < tunes.len() ==> grown[j].id != tune.id);
    }
    assert forall|t2: TuneView| is_first_tune(grown, tune.id, t2) implies t2 == tune by {
        let i = choose|i: int|
            {
                &&& 0 <= i < grown.len()
                &&& #[trigger] grown[i].id == tune.id
                &&& t2 == grown[i]
                &&& forall|j: int| 0 <= j < i ==> grown[j].id != tune.id
            };
        if i < tunes.len() {
            assert(grown[i].id != tune.id);
        }
    }
}

/// The tune catalog and the durable medium its index persists to.
#[derive(Debug)]
pub struct TuneManager {
    pub tunes: Vec<Tune>,
    pub store: Store,
}

/// The mathematical model of a `TuneManager`.
pub ghost struct TuneManagerView {
    pub tunes: Seq<TuneView>,
    pub store: StoreView,
}

impl View for TuneManager {
    type V = TuneManagerView;

    open spec fn view(&self) -> TuneManagerView {
        TuneManagerView { tunes: self.tunes@.map_values(|t: Tune| t@), store: self.store@ }
    }
}

impl TuneManager {
    /// An empty catalog over the given medium.
    pub fn new(store: Store) -> (r: TuneManager)
        ensures
            r@.tunes.len() == 0,
            r@.store == store@,
    {
        let r = TuneManager { tunes: Vec::new(), store };
        proof {
            assert(r@.tunes =~= Seq::<TuneView>::empty());
        }
        r
    }

    /// Resolves a tune id to the first record that carries it.
    pub fn search(&self, id: &str) -> (r: Option<&Tune>)
        ensures
            r is None <==> !has_tune(self@.tunes, id@),
            r matches Some(t) ==> is_first_tune(self@.tunes, id@, t@),
    {
        let wanted: String = id.to_owned();
        let mut i: usize = 0;
        while i < self.tunes.len()
            invariant
                0 <= i <= self.tunes.len(),
                self@.tunes.len() == self.tunes.len(),
                wanted@ == id@,
                forall|j: int| 0 <= j < i ==> self@.tunes[j].id != id@,
            decreases self.tunes.len() - i,
        {
            assert(self@.tunes[i as int] == self.tunes[i as int]@);
            if self.tunes[i].id == wanted {
                proof {
                    assert(self@.tunes[i as int].id == id@);
                    assert(has_tune(self@.tunes, id@)) by {
                        assert(0 <= i < self@.tunes.len() && self@.tunes[i as int].id == id@);
                    }
                }
                return Some(&self.tunes[i]);
            }
            i += 1;
        }
        None
    }

    /// Appends a new tune record and writes the tune index. The record
    /// becomes visible only after the durable write succeeded; a failed
    /// write leaves the catalog unchanged and propagates.
    pub fn add_meta(&mut self, name: String, id: String, rom_id: String) -> (r: Result<(), Error>)
        ensures
            final(self)@.store == old(self)@.store,
            old(self)@.store.writable ==> r is Ok && final(self)@.tunes == old(self)@.tunes.push(
                TuneView { id: id@, name: name@, rom_id: rom_id@ },
            ),
            !old(self)@.store.writable ==> (r matches Err(Error::Io(f)) && f@ == old(
                self,
            )@.store.fault) && final(self)@.tunes == old(self)@.tunes,
    {
        let tune = Tune { id, name, rom_id };
        match self.store.write() {
            Ok(_) => (),
            Err(e) => {
                return Err(e);
            },
        }
        let ghost pre = self@.tunes;
        self.tunes.push(tune);
        proof {
            assert(self@.tunes =~= pre.push(tune@));
        }
        Ok(())
    }
}

} // verus!
