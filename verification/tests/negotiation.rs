use gdext_core::version::{
    classify_entry_words, read_version_bytes, read_version_string, Action, AddressSpace,
    Generation, HostEvent, HostVersion, InterfaceVersion, Negotiator, Phase, Rejection,
    VersionInfo, VersionTriple,
};

fn info(major: u32, minor: u32, patch: u32, string: &str) -> VersionInfo {
    VersionInfo { triple: VersionTriple::new(major, minor, patch), string: string.to_string() }
}

fn host(major: u32, minor: u32, patch: u32, string: &str) -> HostVersion {
    HostVersion {
        triple: VersionTriple::new(major, minor, patch),
        string: string.as_bytes().to_vec(),
    }
}

fn modern_host(compiled: VersionInfo, runtime: HostVersion) -> Negotiator {
    let mut negotiator = Negotiator::new(compiled);
    assert_eq!(negotiator.pending(), Action::InspectEntryPoint);
    let entry = HostEvent::EntryPoint { present: true, address_space: AddressSpace::Unified };
    assert_eq!(negotiator.advance(entry), Action::ReadMajorWord);
    assert_eq!(negotiator.advance(HostEvent::Word(0x0040_1f80)), Action::QueryRuntimeVersion);
    negotiator.advance(HostEvent::RuntimeVersion(runtime));
    negotiator
}

#[test]
fn older_runtime_is_rejected() {
    let negotiator = modern_host(info(1, 2, 0, "1.2.0"), host(1, 1, 9, "Godot Engine v1.1.9"));
    assert_eq!(negotiator.pending(), Action::Abort);
    assert_eq!(negotiator.outcome(), Some(Err(Rejection::OlderHost)));
    assert_eq!(negotiator.current_phase(), Phase::Rejected(Rejection::OlderHost));
}

#[test]
fn newer_runtime_is_accepted() {
    let negotiator = modern_host(info(1, 2, 0, "1.2.0"), host(1, 3, 0, "Godot Engine v1.3.0"));
    assert_eq!(negotiator.pending(), Action::LoadInterface);
    let expected = InterfaceVersion {
        triple: VersionTriple::new(1, 3, 0),
        generation: Generation::Modern,
    };
    assert_eq!(negotiator.outcome(), Some(Ok(expected)));
    assert_eq!(negotiator.failure_message(), None);
}

#[test]
fn equal_runtime_is_accepted() {
    let negotiator = modern_host(info(1, 2, 0, "1.2.0"), host(1, 2, 0, "Godot Engine v1.2.0"));
    let expected = InterfaceVersion {
        triple: VersionTriple::new(1, 2, 0),
        generation: Generation::Modern,
    };
    assert_eq!(negotiator.outcome(), Some(Ok(expected)));
}

#[test]
fn older_runtime_message_names_both_versions() {
    let negotiator =
        modern_host(info(4, 2, 0, "4.2"), host(4, 1, 3, "Godot Engine v4.1.3.stable.official"));
    let expected = "gdext was compiled against newer Godot version: 4.2\n\
        but loaded by older Godot binary, with version: v4.1.3.stable.official\n\
        \n\
        Update your Godot engine version, or compile gdext against an older version.\n\
        For more information, read https://godot-rust.github.io/book/toolchain/compatibility.html.\n\
        \n";
    assert_eq!(negotiator.failure_message(), Some(expected.to_string()));
}

#[test]
fn legacy_signature_is_rejected_as_legacy() {
    let mut negotiator = Negotiator::new(info(4, 1, 0, "4.1"));
    let entry = HostEvent::EntryPoint { present: true, address_space: AddressSpace::Unified };
    assert_eq!(negotiator.advance(entry), Action::ReadMajorWord);
    assert_eq!(negotiator.advance(HostEvent::Word(4)), Action::ReadMinorWord);
    assert_eq!(negotiator.advance(HostEvent::Word(0)), Action::ReadLegacyVersion);
    let text = b"Godot Engine v4.0.3.stable.official".to_vec();
    assert_eq!(negotiator.advance(HostEvent::LegacyVersion(text)), Action::Abort);
    assert_eq!(negotiator.outcome(), Some(Err(Rejection::LegacyHost)));
    let expected = "gdext was compiled against a newer Godot version: 4.1\n\
        but loaded by legacy Godot binary, with version:  v4.0.3.stable.official\n\
        \n\
        Update your Godot engine version, or read https://godot-rust.github.io/book/toolchain/compatibility.html.\n\
        \n";
    assert_eq!(negotiator.failure_message(), Some(expected.to_string()));
}

#[test]
fn legacy_probe_ignores_a_version_report() {
    let mut negotiator = Negotiator::new(info(4, 1, 0, "4.1"));
    negotiator.advance(HostEvent::EntryPoint {
        present: true,
        address_space: AddressSpace::Unified,
    });
    negotiator.advance(HostEvent::Word(4));
    negotiator.advance(HostEvent::Word(0));
    let report = HostEvent::RuntimeVersion(host(4, 3, 0, "Godot Engine v4.3"));
    assert_eq!(negotiator.advance(report), Action::ReadLegacyVersion);
    assert_eq!(negotiator.current_phase(), Phase::AwaitLegacyVersion);
    assert_eq!(negotiator.outcome(), None);
}

#[test]
fn major_word_four_with_other_minor_word_is_modern() {
    let mut negotiator = Negotiator::new(info(4, 1, 0, "4.1"));
    negotiator.advance(HostEvent::EntryPoint {
        present: true,
        address_space: AddressSpace::Unified,
    });
    assert_eq!(negotiator.advance(HostEvent::Word(4)), Action::ReadMinorWord);
    assert_eq!(negotiator.advance(HostEvent::Word(7)), Action::QueryRuntimeVersion);
    let report = HostEvent::RuntimeVersion(host(4, 1, 0, "Godot Engine v4.1.stable"));
    assert_eq!(negotiator.advance(report), Action::LoadInterface);
}

#[test]
fn split_address_space_skips_the_probe() {
    let mut negotiator = Negotiator::new(info(4, 1, 0, "4.1"));
    let entry = HostEvent::EntryPoint { present: true, address_space: AddressSpace::Split };
    assert_eq!(negotiator.advance(entry), Action::QueryRuntimeVersion);
    assert_eq!(negotiator.current_phase(), Phase::AwaitRuntimeVersion);
}

#[test]
fn null_entry_point_is_rejected() {
    let mut negotiator = Negotiator::new(info(4, 1, 0, "4.1"));
    let entry = HostEvent::EntryPoint { present: false, address_space: AddressSpace::Unified };
    assert_eq!(negotiator.advance(entry), Action::Abort);
    assert_eq!(negotiator.outcome(), Some(Err(Rejection::NullEntryPoint)));
    assert_eq!(
        negotiator.failure_message(),
        Some("get_proc_address unexpectedly null".to_string())
    );
}

#[test]
fn unexpected_event_changes_nothing() {
    let mut negotiator = Negotiator::new(info(4, 1, 0, "4.1"));
    assert_eq!(negotiator.advance(HostEvent::Word(4)), Action::InspectEntryPoint);
    assert_eq!(negotiator.current_phase(), Phase::Start);
    negotiator.advance(HostEvent::EntryPoint {
        present: true,
        address_space: AddressSpace::Unified,
    });
    let text = HostEvent::LegacyVersion(b"Godot Engine v4.0".to_vec());
    assert_eq!(negotiator.advance(text), Action::ReadMajorWord);
    assert_eq!(negotiator.current_phase(), Phase::AwaitMajorWord);
}

#[test]
fn outcome_is_final() {
    let mut accepted = modern_host(info(1, 2, 0, "1.2.0"), host(1, 3, 0, "v1.3.0"));
    let older = HostEvent::RuntimeVersion(host(1, 0, 0, "v1.0.0"));
    assert_eq!(accepted.advance(older), Action::LoadInterface);
    assert_eq!(accepted.advance(HostEvent::Word(4)), Action::LoadInterface);
    assert_eq!(accepted.current_phase(), modern_host(info(1, 2, 0, "1.2.0"), host(1, 3, 0, "v1.3.0")).current_phase());

    let mut rejected = modern_host(info(1, 2, 0, "1.2.0"), host(1, 1, 9, "v1.1.9"));
    let newer = HostEvent::RuntimeVersion(host(2, 0, 0, "v2.0.0"));
    assert_eq!(rejected.advance(newer), Action::Abort);
    assert_eq!(rejected.outcome(), Some(Err(Rejection::OlderHost)));
}

#[test]
fn version_order_is_lexicographic() {
    let base = VersionTriple::new(4, 2, 1);
    assert!(VersionTriple::new(3, 9, 9).is_older_than(&base));
    assert!(VersionTriple::new(4, 1, 9).is_older_than(&base));
    assert!(VersionTriple::new(4, 2, 0).is_older_than(&base));
    assert!(!VersionTriple::new(4, 2, 1).is_older_than(&base));
    assert!(!VersionTriple::new(4, 2, 2).is_older_than(&base));
    assert!(!VersionTriple::new(4, 3, 0).is_older_than(&base));
    assert!(!VersionTriple::new(5, 0, 0).is_older_than(&base));
    assert!(VersionTriple::new(4, 2, 1).is_older_than(&VersionTriple::new(300, 0, 0)));
}

#[test]
fn entry_words_are_classified() {
    assert_eq!(classify_entry_words(4, 0), Generation::Legacy);
    assert_eq!(classify_entry_words(4, 1), Generation::Modern);
    assert_eq!(classify_entry_words(3, 0), Generation::Modern);
    assert_eq!(classify_entry_words(0, 4), Generation::Modern);
    assert_eq!(classify_entry_words(0x5548_4889, 0xe589_4855), Generation::Modern);
}

#[test]
fn version_string_loses_the_engine_prefix() {
    assert_eq!(read_version_string("Godot Engine v4.1.stable.official"), "v4.1.stable.official");
    assert_eq!(read_version_string("Godot Engine "), "");
    assert_eq!(read_version_string("Godot Engine Godot Engine x"), "Godot Engine x");
}

#[test]
fn version_string_without_prefix_is_kept() {
    assert_eq!(read_version_string("v4.1.stable.official"), "v4.1.stable.official");
    assert_eq!(read_version_string(""), "");
    assert_eq!(read_version_string("Godot"), "Godot");
    assert_eq!(read_version_string("Godot Engine"), "Godot Engine");
    assert_eq!(read_version_string("godot engine v4"), "godot engine v4");
    assert_eq!(read_version_string(" Godot Engine v4"), " Godot Engine v4");
}

#[test]
fn version_string_may_hold_any_text() {
    assert_eq!(read_version_string("Godot Engine v4.1 \u{fffd}\u{1f600}"), "v4.1 \u{fffd}\u{1f600}");
    assert_eq!(read_version_string("\u{1f600}Godot Engine v4"), "\u{1f600}Godot Engine v4");
}

#[test]
fn version_bytes_are_read_lossily() {
    assert_eq!(read_version_bytes(&b"Godot Engine v4.1.stable".to_vec()), "v4.1.stable");
    assert_eq!(read_version_bytes(&b"v4.1.stable".to_vec()), "v4.1.stable");
    assert_eq!(read_version_bytes(&Vec::new()), "");
    assert_eq!(read_version_bytes(&b"Godot Engine v4.\xff1".to_vec()), "v4.\u{fffd}1");
    assert_eq!(read_version_bytes(&b"\xffGodot Engine v4".to_vec()), "\u{fffd}Godot Engine v4");
    assert_eq!(read_version_bytes(&b"Godot\xc0Engine v4".to_vec()), "Godot\u{fffd}Engine v4");
    assert_eq!(
        read_version_bytes(&"Godot Engine v4 \u{1f600}".as_bytes().to_vec()),
        "v4 \u{1f600}"
    );
}

#[test]
fn ill_formed_version_text_reaches_the_diagnostic() {
    let mut negotiator = Negotiator::new(info(4, 1, 0, "4.1"));
    negotiator.advance(HostEvent::EntryPoint {
        present: true,
        address_space: AddressSpace::Unified,
    });
    negotiator.advance(HostEvent::Word(4));
    negotiator.advance(HostEvent::Word(0));
    negotiator.advance(HostEvent::LegacyVersion(b"Godot Engine v4.0\xfe".to_vec()));
    let expected = "gdext was compiled against a newer Godot version: 4.1\n\
        but loaded by legacy Godot binary, with version:  v4.0\u{fffd}\n\
        \n\
        Update your Godot engine version, or read https://godot-rust.github.io/book/toolchain/compatibility.html.\n\
        \n";
    assert_eq!(negotiator.failure_message(), Some(expected.to_string()));
}
