use libretune::app::App;
use libretune::cli::{parse_usize, Cli, Command, Handler, Line};
use libretune::error::Error;
use libretune::link::{DataLink, Downloader, LinkEntry, UdsInterface};
use libretune::platform::{Definitions, ModelRule, Pid, Platform};
use libretune::rom::{RomManager, Store, TuneManager};

fn platform_p() -> Platform {
    Platform {
        id: "P".to_string(),
        name: "Platform P".to_string(),
        pids: vec![
            Pid { id: 12, name: "RPM".to_string(), description: "Engine speed".to_string() },
            Pid { id: 13, name: "IAT".to_string(), description: "Intake air temp".to_string() },
        ],
        models: vec![ModelRule { model: "M1".to_string(), offset: 0, pattern: b"SIG".to_vec() }],
        download_supported: true,
        diagnostics_supported: true,
    }
}

fn full_link() -> DataLink {
    DataLink {
        downloader: Some(Downloader {
            outcome: Ok(b"SIGimage".to_vec()),
            progress: vec![500, 1000],
        }),
        diagnostics: Some(UdsInterface { outcome: Ok(vec![7, 9]) }),
    }
}

fn cli() -> Cli {
    let app = App::new(
        "/cfg".to_string(),
        "/data".to_string(),
        vec![LinkEntry {
            typename: "socketcan".to_string(),
            description: "can0".to_string(),
            creation: Ok(full_link()),
        }],
        Definitions { definitions: vec![platform_p()] },
        RomManager::new(Store::writable(), Store::writable()),
        TuneManager::new(Store::writable()),
    );
    let mut cli = Cli::new(app);
    cli.register_all();
    cli
}

fn tokens(parts: &[&str]) -> Vec<String> {
    parts.iter().map(|s| s.to_string()).collect()
}

#[test]
fn empty_input_is_an_invalid_command() {
    let mut c = cli();
    assert!(matches!(c.process(Vec::new()), Err(Error::InvalidCommand)));
}

#[test]
fn unknown_keyword_is_an_invalid_command() {
    let mut c = cli();
    assert!(matches!(c.process(tokens(&["unknown"])), Err(Error::InvalidCommand)));
}

#[test]
fn help_lists_every_command_once_in_registration_order() {
    let mut c = cli();
    let out = c.process(tokens(&["help"])).unwrap();
    assert!(out.failure.is_none());
    let keywords: Vec<String> = out
        .output
        .iter()
        .map(|l| match l {
            Line::Help { command, .. } => command.clone(),
            other => panic!("expected a help row, got {:?}", other),
        })
        .collect();
    assert_eq!(
        keywords,
        tokens(&[
            "help",
            "links",
            "add_link",
            "platforms",
            "download",
            "pids",
            "roms",
            "tunes",
            "create_tune",
            "scan",
        ])
    );
}

#[test]
fn dispatch_runs_only_the_first_matching_handler() {
    // register commands "a" and "b" with observably different handlers
    let app = App::new(
        "/cfg".to_string(),
        "/data".to_string(),
        vec![LinkEntry {
            typename: "socketcan".to_string(),
            description: "can0".to_string(),
            creation: Ok(DataLink { downloader: None, diagnostics: None }),
        }],
        Definitions { definitions: vec![platform_p()] },
        RomManager::new(Store::writable(), Store::writable()),
        TuneManager::new(Store::writable()),
    );
    let mut c = Cli::new(app);
    c.register_command(Command::new("a".to_string(), "platform listing".to_string(), Handler::Platforms));
    c.register_command(Command::new("b".to_string(), "link listing".to_string(), Handler::Links));
    let out = c.process(tokens(&["a"])).unwrap();
    assert_eq!(out.index, 0);
    assert_eq!(
        out.output,
        vec![Line::Platform { id: "P".to_string(), name: "Platform P".to_string() }]
    );
}

#[test]
fn duplicate_keywords_select_the_first_registration() {
    let app = App::new(
        "/c".to_string(),
        "/d".to_string(),
        vec![],
        Definitions { definitions: vec![] },
        RomManager::new(Store::writable(), Store::writable()),
        TuneManager::new(Store::writable()),
    );
    let mut c = Cli::new(app);
    c.register_command(Command::new("x".to_string(), "first".to_string(), Handler::Tunes));
    c.register_command(Command::new("x".to_string(), "second".to_string(), Handler::Roms));
    let out = c.process(tokens(&["x"])).unwrap();
    assert_eq!(out.index, 0);
}

#[test]
fn links_lists_entries_under_positional_ids() {
    let mut c = cli();
    let out = c.process(tokens(&["links"])).unwrap();
    assert!(out.failure.is_none());
    assert_eq!(
        out.output,
        vec![Line::Link {
            id: 0,
            typename: "socketcan".to_string(),
            description: "can0".to_string(),
        }]
    );
}

#[test]
fn add_link_appends_and_confirms() {
    let mut c = cli();
    let out = c.process(tokens(&["add_link", "socketcan", "can1"])).unwrap();
    assert!(out.failure.is_none());
    assert_eq!(out.output, vec![Line::AddedLink { interface: "can1".to_string() }]);
    assert_eq!(c.app.avail_links.len(), 2);
    assert_eq!(c.app.avail_links[1].description, "can1");
}

#[test]
fn add_link_without_its_arguments_reports_usage() {
    let mut c = cli();
    let out = c.process(tokens(&["add_link"])).unwrap();
    match out.failure {
        Some(Error::Usage(u)) => assert_eq!(u, "Usage: add_link socketcan <interface>"),
        other => panic!("expected a usage failure, got {:?}", other),
    }
    let out = c.process(tokens(&["add_link", "j2534"])).unwrap();
    assert!(matches!(out.failure, Some(Error::Usage(_))));
    assert_eq!(c.app.avail_links.len(), 1);
}

#[test]
fn pids_lists_the_platform_parameters() {
    let mut c = cli();
    let out = c.process(tokens(&["pids", "P"])).unwrap();
    assert!(out.failure.is_none());
    assert_eq!(
        out.output,
        vec![
            Line::Pid { id: 12, name: "RPM".to_string(), description: "Engine speed".to_string() },
            Line::Pid {
                id: 13,
                name: "IAT".to_string(),
                description: "Intake air temp".to_string(),
            },
        ]
    );
    let out = c.process(tokens(&["pids", "absent"])).unwrap();
    assert!(matches!(out.failure, Some(Error::InvalidPlatform)));
    let out = c.process(tokens(&["pids"])).unwrap();
    match out.failure {
        Some(Error::Usage(u)) => assert_eq!(u, "Usage: pids <platform>"),
        other => panic!("expected a usage failure, got {:?}", other),
    }
}

#[test]
fn download_command_saves_and_reports() {
    let mut c = cli();
    let out = c.process(tokens(&["download", "0", "P", "id1", "Name1"])).unwrap();
    assert!(out.failure.is_none(), "unexpected failure: {:?}", out.failure);
    assert_eq!(
        out.output,
        vec![
            Line::Progress { permille: 500 },
            Line::Progress { permille: 1000 },
            Line::SavedRom { id: "id1".to_string() },
        ]
    );
    let rom = c.app.roms.search("id1").unwrap();
    assert_eq!(rom.name, "Name1");
    assert_eq!(rom.platform, "P");
    assert_eq!(rom.model, "M1");
    assert_eq!(rom.data, b"SIGimage".to_vec());

    // the ROM name defaults to the id when omitted
    let out = c.process(tokens(&["download", "0", "P", "id2"])).unwrap();
    assert!(out.failure.is_none());
    assert_eq!(c.app.roms.search("id2").unwrap().name, "id2");

    // dispatch absorbs a command's failure: processing reported success above
    let out = c.process(tokens(&["download", "0", "absent", "id3"])).unwrap();
    assert!(matches!(out.failure, Some(Error::InvalidPlatform)));
    assert!(c.app.roms.search("id3").is_none());
}

#[test]
fn download_command_argument_errors_report_usage() {
    let mut c = cli();
    let usage = "Usage: download <datalink> <platform> <id> [name]";
    let out = c.process(tokens(&["download", "0", "P"])).unwrap();
    match out.failure {
        Some(Error::Usage(u)) => assert_eq!(u, usage),
        other => panic!("expected a usage failure, got {:?}", other),
    }
    let out = c.process(tokens(&["download", "zero", "P", "id1"])).unwrap();
    assert!(matches!(out.failure, Some(Error::Usage(_))));
    assert!(c.app.roms.roms.is_empty());
}

#[test]
fn create_tune_round_trip_through_dispatch() {
    let mut c = cli();
    let out = c.process(tokens(&["download", "0", "P", "rom1"])).unwrap();
    assert!(out.failure.is_none());
    let out = c.process(tokens(&["create_tune", "rom1", "t1", "Tune One"])).unwrap();
    assert!(out.failure.is_none());
    let t = c.app.tunes.search("t1").unwrap();
    assert_eq!(t.name, "Tune One");
    assert_eq!(t.rom_id, "rom1");

    // name defaults to the id when omitted
    let out = c.process(tokens(&["create_tune", "rom1", "t2"])).unwrap();
    assert!(out.failure.is_none());
    assert_eq!(c.app.tunes.search("t2").unwrap().name, "t2");

    let out = c.process(tokens(&["create_tune", "rom1"])).unwrap();
    match out.failure {
        Some(Error::Usage(u)) => assert_eq!(u, "Usage: create_tune <rom> <id> [name]"),
        other => panic!("expected a usage failure, got {:?}", other),
    }
}

#[test]
fn scan_command_lists_trouble_codes() {
    let mut c = cli();
    let out = c.process(tokens(&["scan", "0", "P"])).unwrap();
    assert!(out.failure.is_none(), "unexpected failure: {:?}", out.failure);
    assert_eq!(out.output, vec![Line::Code { code: 7 }, Line::Code { code: 9 }]);

    let out = c.process(tokens(&["scan", "4", "P"])).unwrap();
    assert!(matches!(out.failure, Some(Error::InvalidDatalink)));
    let out = c.process(tokens(&["scan", "0"])).unwrap();
    match out.failure {
        Some(Error::Usage(u)) => assert_eq!(u, "Usage: scan <datalink> <platform>"),
        other => panic!("expected a usage failure, got {:?}", other),
    }
}

#[test]
fn roms_and_tunes_list_their_catalogs() {
    let mut c = cli();
    let out = c.process(tokens(&["roms"])).unwrap();
    assert!(out.failure.is_none());
    assert!(out.output.is_empty());
    c.process(tokens(&["download", "0", "P", "r1", "N1"])).unwrap();
    let out = c.process(tokens(&["roms"])).unwrap();
    assert_eq!(
        out.output,
        vec![Line::Rom {
            id: "r1".to_string(),
            name: "N1".to_string(),
            platform: "P".to_string(),
            model: "M1".to_string(),
        }]
    );
    c.process(tokens(&["create_tune", "r1", "t1"])).unwrap();
    let out = c.process(tokens(&["tunes"])).unwrap();
    assert_eq!(
        out.output,
        vec![Line::Tune {
            id: "t1".to_string(),
            name: "t1".to_string(),
            rom_id: "r1".to_string(),
        }]
    );
}

#[test]
fn parse_usize_reads_decimal_indices_exactly() {
    assert_eq!(parse_usize("0"), Some(0));
    assert_eq!(parse_usize("42"), Some(42));
    assert_eq!(parse_usize("007"), Some(7));
    assert_eq!(parse_usize(""), None);
    assert_eq!(parse_usize("4a"), None);
    assert_eq!(parse_usize("-1"), None);
    assert_eq!(parse_usize("4.2"), None);
    assert_eq!(parse_usize("überzählig"), None);
    assert_eq!(parse_usize("99999999999999999999999999"), None);
}

#[test]
fn create_tune_with_unknown_rom_is_invalid() {
    // the workflow itself
    let mut c = cli();
    let mut ctx =
        libretune::cli::CommandContext::new(tokens(&["create_tune", "missingRom", "t1", "T1"]), 1);
    let r = libretune::cli::create_tune(&mut c.app, &mut ctx);
    assert!(matches!(r, Err(Error::InvalidRom)));
    assert!(c.app.tunes.tunes.is_empty());

    // and through dispatch
    let out = c.process(tokens(&["create_tune", "missingRom", "t1", "T1"])).unwrap();
    assert!(matches!(out.failure, Some(Error::InvalidRom)));
    assert!(c.app.tunes.tunes.is_empty());
}
