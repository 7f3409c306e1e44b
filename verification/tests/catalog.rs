use libretune::app::App;
use libretune::error::Error;
use libretune::link::{DataLink, LinkEntry};
use libretune::platform::{Definitions, Platform};
use libretune::rom::{RomManager, Store, TuneManager};

fn entry(ok: bool) -> LinkEntry {
    LinkEntry {
        typename: "socketcan".to_string(),
        description: "can0".to_string(),
        creation: if ok {
            Ok(DataLink { downloader: None, diagnostics: None })
        } else {
            Err("device busy".to_string())
        },
    }
}

fn plain_platform(id: &str) -> Platform {
    Platform {
        id: id.to_string(),
        name: format!("Platform {}", id),
        pids: vec![],
        models: vec![],
        download_supported: false,
        diagnostics_supported: false,
    }
}

fn app(links: Vec<LinkEntry>, platforms: Vec<Platform>) -> App {
    App::new(
        "/cfg".to_string(),
        "/data".to_string(),
        links,
        Definitions { definitions: platforms },
        RomManager::new(Store::writable(), Store::writable()),
        TuneManager::new(Store::writable()),
    )
}

#[test]
fn get_datalink_rejects_every_out_of_range_index() {
    let a = app(vec![entry(true)], vec![]);
    assert!(matches!(a.get_datalink(1), Err(Error::InvalidDatalink)));
    assert!(matches!(a.get_datalink(17), Err(Error::InvalidDatalink)));
    assert!(a.get_datalink(0).is_ok());

    let empty = app(vec![], vec![]);
    assert!(matches!(empty.get_datalink(0), Err(Error::InvalidDatalink)));
}

#[test]
fn get_datalink_wraps_a_creation_fault() {
    let a = app(vec![entry(false)], vec![]);
    match a.get_datalink(0) {
        Err(Error::Protocol(m)) => assert_eq!(m, "device busy"),
        other => panic!("expected a protocol error, got {:?}", other),
    }
}

#[test]
fn bind_fails_with_invalid_platform_exactly_when_absent() {
    let a = app(vec![entry(true)], vec![plain_platform("P")]);
    assert!(matches!(a.create_platform_link(0, "missing"), Err(Error::InvalidPlatform)));
    let bound = a.create_platform_link(0, "P").unwrap();
    assert_eq!(bound.platform.id, "P");
    assert_eq!(bound.platform.name, "Platform P");
}

#[test]
fn bind_resolves_the_link_before_the_platform() {
    // an invalid index fails as a datalink error even when the platform is
    // absent too
    let a = app(vec![entry(true)], vec![plain_platform("P")]);
    assert!(matches!(a.create_platform_link(9, "missing"), Err(Error::InvalidDatalink)));
    // a failing descriptor wins over an absent platform as well
    let b = app(vec![entry(false)], vec![plain_platform("P")]);
    assert!(matches!(b.create_platform_link(0, "missing"), Err(Error::Protocol(_))));
}

#[test]
fn find_returns_the_first_definition_with_the_id() {
    let mut second = plain_platform("P");
    second.name = "Shadowed".to_string();
    let defs = Definitions { definitions: vec![plain_platform("P"), second] };
    let found = defs.find("P").unwrap();
    assert_eq!(found.name, "Platform P");
    assert!(defs.find("absent").is_none());
}

#[test]
fn add_link_preserves_positional_identity() {
    let mut a = app(vec![entry(true)], vec![]);
    a.add_link(LinkEntry {
        typename: "socketcan".to_string(),
        description: "can1".to_string(),
        creation: Ok(DataLink { downloader: None, diagnostics: None }),
    });
    assert_eq!(a.avail_links.len(), 2);
    assert_eq!(a.avail_links[0].description, "can0");
    assert_eq!(a.avail_links[1].description, "can1");
}

#[test]
fn list_platforms_reports_name_id_pairs_in_order() {
    let a = app(vec![], vec![plain_platform("P1"), plain_platform("P2")]);
    let listed = a.list_platforms();
    assert_eq!(
        listed,
        vec![
            ("Platform P1".to_string(), "P1".to_string()),
            ("Platform P2".to_string(), "P2".to_string()),
        ]
    );
}

#[test]
fn rom_search_resolves_the_first_record_with_the_id() {
    let mut manager = RomManager::new(Store::writable(), Store::writable());
    assert!(manager.search("r1").is_none());
    manager.new_rom("first".to_string(), "r1".to_string(), "P".to_string(), "M".to_string(), vec![1]).unwrap();
    manager.new_rom("second".to_string(), "r1".to_string(), "P".to_string(), "M".to_string(), vec![2]).unwrap();
    // duplicate ids are accepted; lookups resolve the earlier record
    assert_eq!(manager.search("r1").unwrap().name, "first");
}

#[test]
fn tune_manager_rolls_back_on_a_failed_index_write() {
    let mut manager = TuneManager::new(Store { writable: false, fault: "readonly".to_string() });
    let r = manager.add_meta("n".to_string(), "t1".to_string(), "r1".to_string());
    match r {
        Err(Error::Io(m)) => assert_eq!(m, "readonly"),
        other => panic!("expected an IO error, got {:?}", other),
    }
    assert!(manager.tunes.is_empty());
    assert!(manager.search("t1").is_none());
}

#[test]
fn tune_search_keeps_the_rom_reference_verbatim() {
    let mut manager = TuneManager::new(Store::writable());
    manager.add_meta("Tune One".to_string(), "t1".to_string(), "rom-7".to_string()).unwrap();
    let t = manager.search("t1").unwrap();
    assert_eq!(t.id, "t1");
    assert_eq!(t.name, "Tune One");
    assert_eq!(t.rom_id, "rom-7");
}

#[test]
fn error_messages_render_as_single_lines() {
    assert_eq!(Error::InvalidCommand.message(), "Invalid command");
    assert_eq!(Error::InvalidPlatform.message(), "Invalid platform");
    assert_eq!(Error::InvalidDatalink.message(), "Invalid datalink");
    assert_eq!(Error::UnknownModel.message(), "Unknown model");
    assert_eq!(Error::InvalidRom.message(), "Invalid ROM");
    assert_eq!(
        Error::DownloadUnsupported.message(),
        "Downloading unsupported for a datalink or platform"
    );
    assert_eq!(Error::Protocol("bus off".to_string()).message(), "Protocol error: bus off");
    assert_eq!(Error::Io("disk full".to_string()).message(), "IO error: disk full");
    assert_eq!(Error::Usage("Usage: x".to_string()).message(), "Usage: x");
    assert_eq!(
        Error::NoHome.message(),
        "No valid home directory path could be retrieved from the operating system"
    );
}

#[test]
fn empty_catalogs_are_valid() {
    // an empty discovery result is valid, not an error
    let a = App::new(
        "/cfg".to_string(),
        "/data".to_string(),
        vec![],
        Definitions::new(),
        RomManager::new(Store::writable(), Store::writable()),
        TuneManager::new(Store::writable()),
    );
    assert!(a.list_platforms().is_empty());
    assert!(a.definitions.find("anything").is_none());
    assert!(matches!(a.get_datalink(0), Err(Error::InvalidDatalink)));
}
