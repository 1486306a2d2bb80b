use rvhwfuzzer::risico::ordered_sections::{contents_fit_section, DriverPlan, InitPlan, OrderedSections, StorePlan};
use rvhwfuzzer::risico::device_config::{ProcessDriver, StoreDriver};
use rvhwfuzzer::risico::device_config::{
    BackingFileFormat, ConfigDocument, ConfigDriver, ConfigDriverKind, ConfigInitializeWith, ConfigSection,
    Document, DocumentParseError, Driver, Isa, Section, SectionAccessPolicy, StoreAllocationKind, StoreInitialization,
};

fn config_driver(kind: ConfigDriverKind, path: Option<&str>, format: BackingFileFormat) -> ConfigDriver {
    ConfigDriver {
        kind,
        path: path.map(|p| p.to_string()),
        allocate: StoreAllocationKind::default(),
        initialize_with: None,
        initialize_with_file: None,
        args: None,
        format,
    }
}

#[test]
fn driver() {
    match Driver::try_from_with_name(
        config_driver(ConfigDriverKind::default(), None, BackingFileFormat::default()),
        "test case",
    ) {
        Ok(Driver::Store(s)) => {
            assert!(matches!(s.initialization(), StoreInitialization::Zeroed));
            assert_eq!(*s.allocate(), StoreAllocationKind::OnDemand);
            assert_eq!(*s.format(), BackingFileFormat::Automatic);
        }
        _ => panic!("expected a store"),
    }
    assert!(Driver::try_from_with_name(
        config_driver(ConfigDriverKind::File, None, BackingFileFormat::default()),
        "test case"
    )
    .is_err());
    match Driver::try_from_with_name(
        config_driver(ConfigDriverKind::File, Some("./abc"), BackingFileFormat::default()),
        "test case",
    ) {
        Ok(Driver::File(f)) => {
            assert_eq!(f.path, "./abc");
            assert_eq!(f.format, BackingFileFormat::Automatic);
        }
        _ => panic!("expected a file"),
    }
    match Driver::try_from_with_name(
        config_driver(ConfigDriverKind::File, Some("./abc"), BackingFileFormat::Hex),
        "test case",
    ) {
        Ok(Driver::File(f)) => {
            assert_eq!(f.path, "./abc");
            assert_eq!(f.format, BackingFileFormat::Hex);
        }
        _ => panic!("expected a file"),
    }
}

#[test]
fn driver_errors() {
    let mut config = config_driver(ConfigDriverKind::Store, None, BackingFileFormat::Elf);
    config.initialize_with = Some(ConfigInitializeWith::Random);
    config.initialize_with_file = Some("x.bin".to_string());
    match Driver::try_from_with_name(config, "ram") {
        Err(e) => assert_eq!(
            e.to_string(),
            "Driver for section 'ram' has both a 'initialize_with' and 'initialize_with_file' key. Please only give one."
        ),
        Ok(_) => panic!("expected an error"),
    }
    match Driver::try_from_with_name(config_driver(ConfigDriverKind::Process, None, BackingFileFormat::Elf), "p") {
        Err(e) => assert_eq!(e.to_string(), "Section 'p' is missing key 'path'"),
        Ok(_) => panic!("expected an error"),
    }
    let mut config = config_driver(ConfigDriverKind::Store, None, BackingFileFormat::Binary);
    config.initialize_with_file = Some("x.bin".to_string());
    match Driver::try_from_with_name(config, "rom") {
        Ok(Driver::Store(s)) => match s.initialization() {
            StoreInitialization::File(f) => assert_eq!(f, "x.bin"),
            _ => panic!("expected a file initialization"),
        },
        _ => panic!("expected a store"),
    }
}

fn section(start: u32, end: Option<u32>, size: Option<u32>) -> ConfigSection {
    ConfigSection {
        name: None,
        start,
        end,
        size,
        access: SectionAccessPolicy::default(),
        driver: None,
        caching: None,
    }
}

#[test]
fn document_sections() {
    let config = ConfigDocument {
        project_name: None,
        instruction_set: Isa::default(),
        section: vec![
            ("rom".to_string(), section(0x100, Some(0x200), None)),
            ("ram".to_string(), section(0x1000, None, Some(0x40))),
        ],
    };
    let document = Document::try_from(config).ok().unwrap();
    assert_eq!(document.project_name, "");
    let sections = document.take_sections();
    assert_eq!(sections.len(), 2);
    assert_eq!(sections[0].name, "rom");
    assert_eq!(sections[0].range(), 0x100..0x200);
    assert_eq!(sections[1].end(), 0x1040);
    assert_eq!(sections[1].size(), 0x40);
    assert!(sections[1].access_policy().execute);
    assert!(sections[1].cache().is_none());
    assert!(matches!(sections[1].driver(), Driver::Store(_)));
}

#[test]
fn document_errors() {
    let errors = [
        (section(0x100, Some(0x200), Some(4)), "Section 'a' has both an 'end' address and a 'size'. Please only give one."),
        (section(0x100, None, None), "End address for section 'a' could not be calculated. Give either an 'end' address or a 'size'."),
        (section(0x100, Some(0x100), None), "Memory range for section 'a' is invalid. Check that the start address is smaller than the end address."),
    ];
    for (config, message) in errors {
        let document = ConfigDocument {
            project_name: Some("p".to_string()),
            instruction_set: Isa::Rv32I,
            section: vec![("a".to_string(), config)],
        };
        match Document::try_from(document) {
            Err(e) => {
                assert!(!matches!(e, DocumentParseError::TomlError(_)));
                assert_eq!(e.to_string(), message);
            }
            Ok(_) => panic!("expected an error"),
        }
    }
}

fn placed_section(name: &str, start: u32, end: u32) -> Section {
    Section {
        name: name.to_string(),
        start,
        end,
        access: SectionAccessPolicy::default(),
        driver: Driver::default(),
        caching: None,
    }
}

#[test]
fn ordered_sections() {
    let apart = vec![placed_section("b", 0x200, 0x300), placed_section("a", 0x100, 0x180)];
    assert!(OrderedSections::new(apart).is_ok());
    let touching = vec![placed_section("b", 0x200, 0x300), placed_section("a", 0x100, 0x200)];
    assert!(OrderedSections::new(touching).is_ok());
    let side_by_side = vec![
        placed_section("GPIO In", 0x1A10_1008, 0x1A10_100C),
        placed_section("", 0x1A10_1000, 0x1A10_1004),
        placed_section("", 0x1A10_1004, 0x1A10_1008),
    ];
    assert!(OrderedSections::new(side_by_side).is_ok());
    let one_shared = vec![placed_section("a", 0x100, 0x201), placed_section("b", 0x200, 0x300)];
    assert!(OrderedSections::new(one_shared).is_err());
    let overlapping = vec![placed_section("a", 0x100, 0x280), placed_section("b", 0x200, 0x300)];
    assert!(OrderedSections::new(overlapping).is_err());
    assert!(OrderedSections::new(Vec::new()).is_ok());
}

#[test]
fn memory_plan_of_sections() {
    let mut elf = placed_section("rom", 0x1000, 0x1100);
    elf.driver = Driver::Store(StoreDriver {
        initialization: StoreInitialization::File("elf:prog.elf".to_string()),
        allocate: StoreAllocationKind::Preallocate,
        format: BackingFileFormat::Automatic,
    });
    let mut process = placed_section("dev", 0, 0x10);
    process.driver = Driver::Process(ProcessDriver { path: "./dev".to_string(), args: None });
    let sections = OrderedSections::new(vec![elf, process]).unwrap();
    let plans = sections.plan_memory();
    assert_eq!(plans.len(), 2);
    assert_eq!(plans[0].skip_to, None);
    assert_eq!(plans[0].size, 0x10);
    assert_eq!(plans[0].driver, DriverPlan::Process { path: "./dev".to_string() });
    assert_eq!(plans[1].skip_to, Some(0x1000));
    assert_eq!(plans[1].size, 0x100);
    assert_eq!(
        plans[1].driver,
        DriverPlan::Store {
            store: StorePlan::StaticArray,
            init: InitPlan::FromFile { path: "prog.elf".to_string(), elf_text: true },
        }
    );
    assert_eq!(plans[1].cache, None);
}

#[test]
fn contents_must_fit_the_section() {
    assert!(contents_fit_section(16, 16));
    assert!(!contents_fit_section(17, 16));
}
