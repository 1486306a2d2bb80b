use rvhwfuzzer::risico::cli::{
    parse_ecall_behavior, parse_logging_config, parse_trap_cause, parse_u32, trim, ECallBehavior,
    LoggingConfiguration, RawImageFlags,
};
use rvhwfuzzer::risico::trap::TrapBehavior;

#[test]
fn numbers() {
    assert_eq!(parse_u32("1234"), Some(1234));
    assert_eq!(parse_u32("+7"), Some(7));
    assert_eq!(parse_u32("0x1F"), Some(31));
    assert_eq!(parse_u32("0xdeadBEEF"), Some(0xDEAD_BEEF));
    assert_eq!(parse_u32("4294967295"), Some(u32::MAX));
    assert_eq!(parse_u32("4294967296"), None);
    assert_eq!(parse_u32("0x100000000"), None);
    assert_eq!(parse_u32(""), None);
    assert_eq!(parse_u32("+"), None);
    assert_eq!(parse_u32("0x"), None);
    assert_eq!(parse_u32("12a"), None);
    assert_eq!(parse_u32("-1"), None);
    assert_eq!(parse_u32("0X10"), None);
}

#[test]
fn trap_causes() {
    assert!(parse_trap_cause("all").unwrap().contains(TrapBehavior::abort_all()));
    let ecall = parse_trap_cause("ecall").unwrap();
    assert!(ecall.contains(TrapBehavior::abort_on_env_call_from_u_mode()));
    assert!(ecall.contains(TrapBehavior::abort_on_env_call_from_s_mode()));
    assert!(ecall.contains(TrapBehavior::abort_on_env_call_from_m_mode()));
    assert!(!ecall.contains(TrapBehavior::abort_on_breakpoint()));
    let csr = parse_trap_cause("missing_csr").unwrap();
    assert!(csr.does_abort_on_missing_csr());
    match parse_trap_cause("nothing") {
        Err(e) => assert_eq!(
            e,
            "Invalid trap cause specifier 'nothing'. Allowed values: all, ecall, instr_misaligned, instr_access_fault, illegal_instr, breakpoint, load_misaligned, load_access_fault, store_amo_misaligned, store_amo_access_fault, smode_ecall, umode_ecall, mmode_ecall, instr_page_fault, load_page_fault, store_amo_page_fault, missing_csr"
        ),
        Ok(_) => panic!("expected an error"),
    }
}

#[test]
fn ecall_behaviors_and_trimming() {
    assert_eq!(trim("  a b \t\n"), "a b");
    assert_eq!(trim("\u{3000}x\u{a0}"), "x");
    assert_eq!(trim("   "), "");
    assert_eq!(parse_ecall_behavior(" linux "), Some(ECallBehavior::Linux));
    assert_eq!(parse_ecall_behavior("testing"), Some(ECallBehavior::Testing));
    assert_eq!(parse_ecall_behavior("trapvec\n"), Some(ECallBehavior::TrapVector));
    assert_eq!(parse_ecall_behavior("Linux"), None);
}

#[test]
fn logging_topics() {
    assert_eq!(
        parse_logging_config("i, cycles"),
        Some(LoggingConfiguration { show_instructions: true, show_cycles: true })
    );
    assert_eq!(
        parse_logging_config("instruction"),
        Some(LoggingConfiguration { show_instructions: true, show_cycles: false })
    );
    assert_eq!(parse_logging_config(""), None);
    assert_eq!(parse_logging_config("c,x"), None);
    assert_eq!(parse_logging_config("c,"), None);
    assert_eq!(LoggingConfiguration::default(), LoggingConfiguration { show_instructions: false, show_cycles: false });
    assert_eq!(RawImageFlags::default().entry(), 0);
}
