use libretune::app::App;
use libretune::error::Error;
use libretune::link::{DataLink, Downloader, LinkEntry, PlatformLink, UdsInterface};
use libretune::platform::{Definitions, ModelRule, Pid, Platform};
use libretune::rom::{RomManager, Store, TuneManager};

fn platform_p() -> Platform {
    Platform {
        id: "P".to_string(),
        name: "Platform P".to_string(),
        pids: vec![Pid { id: 12, name: "RPM".to_string(), description: "Engine speed".to_string() }],
        models: vec![ModelRule { model: "M1".to_string(), offset: 0, pattern: b"SIG".to_vec() }],
        download_supported: true,
        diagnostics_supported: true,
    }
}

fn app_with(link: DataLink) -> App {
    App::new(
        "/cfg".to_string(),
        "/data".to_string(),
        vec![LinkEntry {
            typename: "socketcan".to_string(),
            description: "can0".to_string(),
            creation: Ok(link),
        }],
        Definitions { definitions: vec![platform_p()] },
        RomManager::new(Store::writable(), Store::writable()),
        TuneManager::new(Store::writable()),
    )
}

fn downloading_link(outcome: Result<Vec<u8>, String>) -> DataLink {
    DataLink {
        downloader: Some(Downloader { outcome, progress: vec![250, 500, 1000] }),
        diagnostics: None,
    }
}

#[test]
fn successful_download_persists_exactly_one_rom() {
    let mut app = app_with(downloading_link(Ok(b"SIGrest-of-image".to_vec())));
    let link = app.create_platform_link(0, "P").unwrap();
    let mut progress: Vec<u16> = Vec::new();
    let r = app.download(&link, "id1", "Name1", &mut progress);
    assert!(r.is_ok());
    assert_eq!(app.roms.roms.len(), 1);
    let rom = app.roms.search("id1").unwrap();
    assert_eq!(rom.id, "id1");
    assert_eq!(rom.name, "Name1");
    assert_eq!(rom.platform, "P");
    assert_eq!(rom.model, "M1");
    assert_eq!(rom.data, b"SIGrest-of-image".to_vec());
    assert_eq!(progress, vec![250, 500, 1000]);
}

#[test]
fn unidentifiable_image_is_discarded() {
    let mut app = app_with(downloading_link(Ok(b"garbage".to_vec())));
    let link = app.create_platform_link(0, "P").unwrap();
    let mut progress: Vec<u16> = Vec::new();
    let r = app.download(&link, "id1", "Name1", &mut progress);
    assert!(matches!(r, Err(Error::UnknownModel)));
    assert!(app.roms.search("id1").is_none());
    assert_eq!(app.roms.roms.len(), 0);
}

#[test]
fn repeated_failed_downloads_never_grow_the_catalog() {
    let mut app = app_with(downloading_link(Ok(b"garbage".to_vec())));
    let link = app.create_platform_link(0, "P").unwrap();
    for _ in 0..3 {
        let mut progress: Vec<u16> = Vec::new();
        let r = app.download(&link, "idX", "NameX", &mut progress);
        assert!(matches!(r, Err(Error::UnknownModel)));
        assert_eq!(app.roms.roms.len(), 0);
    }
}

#[test]
fn transfer_fault_is_wrapped_and_nothing_is_persisted() {
    let mut app = app_with(downloading_link(Err("bus off".to_string())));
    let link = app.create_platform_link(0, "P").unwrap();
    let mut progress: Vec<u16> = Vec::new();
    let r = app.download(&link, "id1", "Name1", &mut progress);
    match r {
        Err(Error::Protocol(m)) => assert_eq!(m, "bus off"),
        other => panic!("expected a protocol error, got {:?}", other),
    }
    assert_eq!(app.roms.roms.len(), 0);
    // progress reported before the fault is still forwarded
    assert_eq!(progress, vec![250, 500, 1000]);
}

#[test]
fn download_unsupported_without_capability() {
    // the channel has a downloader, but the platform defines no download mode
    let mut link_only = app_with(downloading_link(Ok(b"SIG".to_vec())));
    link_only.definitions.definitions[0].download_supported = false;
    let link = link_only.create_platform_link(0, "P").unwrap();
    let mut progress: Vec<u16> = Vec::new();
    let r = link_only.download(&link, "a", "b", &mut progress);
    assert!(matches!(r, Err(Error::DownloadUnsupported)));
    assert!(progress.is_empty());

    // the platform defines one, but the channel has no downloader
    let mut no_downloader = app_with(DataLink { downloader: None, diagnostics: None });
    let link = no_downloader.create_platform_link(0, "P").unwrap();
    let r = no_downloader.download(&link, "a", "b", &mut progress);
    assert!(matches!(r, Err(Error::DownloadUnsupported)));
}

#[test]
fn failed_meta_write_rolls_the_record_back() {
    let mut app = app_with(downloading_link(Ok(b"SIGdata".to_vec())));
    app.roms.meta_store = Store { writable: false, fault: "disk full".to_string() };
    let link = app.create_platform_link(0, "P").unwrap();
    let mut progress: Vec<u16> = Vec::new();
    let r = app.download(&link, "id1", "Name1", &mut progress);
    match r {
        Err(Error::Io(m)) => assert_eq!(m, "disk full"),
        other => panic!("expected an IO error, got {:?}", other),
    }
    assert_eq!(app.roms.roms.len(), 0);
    assert!(app.roms.search("id1").is_none());
}

#[test]
fn failed_image_write_rolls_the_record_back() {
    let mut app = app_with(downloading_link(Ok(b"SIGdata".to_vec())));
    app.roms.image_store = Store { writable: false, fault: "image write failed".to_string() };
    let link = app.create_platform_link(0, "P").unwrap();
    let mut progress: Vec<u16> = Vec::new();
    let r = app.download(&link, "id1", "Name1", &mut progress);
    match r {
        Err(Error::Io(m)) => assert_eq!(m, "image write failed"),
        other => panic!("expected an IO error, got {:?}", other),
    }
    assert_eq!(app.roms.roms.len(), 0);
}

#[test]
fn identify_picks_the_first_matching_rule() {
    let mut p = platform_p();
    p.models.push(ModelRule { model: "M2".to_string(), offset: 0, pattern: b"SIG".to_vec() });
    assert_eq!(p.identify(&b"SIGxyz".to_vec()), Some("M1".to_string()));
    assert_eq!(p.identify(&b"xyz".to_vec()), None);
}

#[test]
fn identify_matches_at_the_rule_offset() {
    let p = Platform {
        id: "Q".to_string(),
        name: "Q".to_string(),
        pids: vec![],
        models: vec![ModelRule { model: "MQ".to_string(), offset: 4, pattern: b"AB".to_vec() }],
        download_supported: false,
        diagnostics_supported: false,
    };
    assert_eq!(p.identify(&b"....AB..".to_vec()), Some("MQ".to_string()));
    assert_eq!(p.identify(&b"AB......".to_vec()), None);
    // too short for the signature window
    assert_eq!(p.identify(&b"....A".to_vec()), None);
}

#[test]
fn scanner_returns_the_staged_codes() {
    let interface = UdsInterface { outcome: Ok(vec![0x0101, 0x0303]) };
    let scanner = libretune::diagnostics::UdsScanner::new(interface);
    assert_eq!(scanner.scan().unwrap(), vec![0x0101, 0x0303]);

    let failing = UdsInterface { outcome: Err("no response".to_string()) };
    let scanner = libretune::diagnostics::UdsScanner::new(failing);
    match scanner.scan() {
        Err(Error::Protocol(m)) => assert_eq!(m, "no response"),
        other => panic!("expected a protocol error, got {:?}", other),
    }
}

#[test]
fn capability_accessors_require_platform_and_channel_support() {
    let full_link = DataLink {
        downloader: Some(Downloader { outcome: Ok(vec![]), progress: vec![] }),
        diagnostics: Some(UdsInterface { outcome: Ok(vec![]) }),
    };
    let bound = PlatformLink::new(full_link, platform_p());
    assert!(bound.downloader().is_some());
    assert!(bound.uds().is_some());

    let mut p = platform_p();
    p.download_supported = false;
    p.diagnostics_supported = false;
    let bare = PlatformLink::new(
        DataLink {
            downloader: Some(Downloader { outcome: Ok(vec![]), progress: vec![] }),
            diagnostics: Some(UdsInterface { outcome: Ok(vec![]) }),
        },
        p,
    );
    assert!(bare.downloader().is_none());
    assert!(bare.uds().is_none());
}
