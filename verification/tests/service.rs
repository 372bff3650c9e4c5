use sanctifier_core::serve::{
    analyze_step, cache_key, find_contract_part, rejection_reply, AnalyzeAction, AnalyzeEvent,
    AnalyzeStage, ServeArgs,
};

#[test]
fn cache_key_is_md5_hex() {
    assert_eq!(cache_key(""), "d41d8cd98f00b204e9800998ecf8427e");
    assert_eq!(cache_key("abc"), "900150983cd24fb0d6963f7d28e17f72");
    assert_eq!(cache_key("é").len(), 32);
}

#[test]
fn socket_address_text_joins_bind_and_port() {
    let args = ServeArgs::new(9100, "127.0.0.1".to_string());
    assert_eq!(args.socket_address_text(), "127.0.0.1:9100");
    assert_eq!(args.port(), 9100);
    assert_eq!(args.bind(), "127.0.0.1");
    assert_eq!(ServeArgs::new(0, "::".to_string()).socket_address_text(), ":::0");
}

#[test]
fn contract_part_is_first_named_contract() {
    let p = |n: &str| Some(n.to_string());
    assert_eq!(find_contract_part(&vec![p("meta"), p("contract"), p("contract")]), Some(1));
    assert_eq!(find_contract_part(&vec![p("meta")]), None);
    assert_eq!(find_contract_part(&vec![p("meta"), None, p("contract")]), None);
    assert_eq!(find_contract_part(&vec![p("contract"), None]), Some(0));
}

#[test]
fn analyze_request_miss_then_store() {
    let (s, a) = analyze_step(
        AnalyzeStage::AwaitingParts,
        AnalyzeEvent::PartsCollected { parts: vec![Some("contract".to_string())] },
    );
    assert!(matches!(a, AnalyzeAction::ReadPart { index: 0 }));
    let (s, a) = analyze_step(s, AnalyzeEvent::ContractRead { bytes: Some(b"abc".to_vec()) });
    match a {
        AnalyzeAction::WriteTempFile { source } => assert_eq!(source, "abc"),
        _ => panic!("expected a temp file write"),
    }
    let (s, a) = analyze_step(s, AnalyzeEvent::TempFileWritten { ok: true });
    match a {
        AnalyzeAction::LookupCache { key } => assert_eq!(key, "900150983cd24fb0d6963f7d28e17f72"),
        _ => panic!("expected a cache lookup"),
    }
    let (s, a) = analyze_step(s, AnalyzeEvent::CacheChecked { hit: false });
    assert!(matches!(a, AnalyzeAction::AnalyzeTempFile));
    let (s, a) = analyze_step(s, AnalyzeEvent::AnalysisDone { ok: true });
    match a {
        AnalyzeAction::StoreAndReply { key } => assert_eq!(key, "900150983cd24fb0d6963f7d28e17f72"),
        _ => panic!("expected store and reply"),
    }
    assert!(matches!(s, AnalyzeStage::Finished));
}

#[test]
fn analyze_request_cache_hit() {
    let s = AnalyzeStage::CheckingCache { key: "k".to_string() };
    let (s, a) = analyze_step(s, AnalyzeEvent::CacheChecked { hit: true });
    assert!(matches!(a, AnalyzeAction::ReplyCached));
    assert!(matches!(s, AnalyzeStage::Finished));
}

#[test]
fn analyze_request_rejections() {
    let (_, a) = analyze_step(
        AnalyzeStage::AwaitingParts,
        AnalyzeEvent::PartsCollected { parts: vec![Some("other".to_string())] },
    );
    assert!(matches!(a, AnalyzeAction::Reject));
    let (_, a) = analyze_step(
        AnalyzeStage::ReadingContract,
        AnalyzeEvent::ContractRead { bytes: Some(vec![0xff, 0xfe]) },
    );
    assert!(matches!(a, AnalyzeAction::Reject));
    let (_, a) = analyze_step(AnalyzeStage::ReadingContract, AnalyzeEvent::ContractRead { bytes: None });
    assert!(matches!(a, AnalyzeAction::Reject));
    let (_, a) = analyze_step(
        AnalyzeStage::WritingTempFile { source: "x".to_string() },
        AnalyzeEvent::TempFileWritten { ok: false },
    );
    assert!(matches!(a, AnalyzeAction::Reject));
    let (_, a) = analyze_step(
        AnalyzeStage::Analyzing { key: "k".to_string() },
        AnalyzeEvent::AnalysisDone { ok: false },
    );
    assert!(matches!(a, AnalyzeAction::Reject));
    let (s, a) = analyze_step(AnalyzeStage::Finished, AnalyzeEvent::CacheChecked { hit: true });
    assert!(matches!(a, AnalyzeAction::Reject));
    assert!(matches!(s, AnalyzeStage::Finished));
}

#[test]
fn rejection_replies() {
    let r = rejection_reply(true);
    assert_eq!((r.status, r.error.as_str()), (404, "Not found"));
    let r = rejection_reply(false);
    assert_eq!((r.status, r.error.as_str()), (500, "Internal server error"));
}
