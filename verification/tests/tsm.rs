use regl::attesters::cca::{get_tsm_report, CcaError};
use regl::tsm::linuxtsm::{
    assemble_report, generation_err, LinuxTsmReportBuilder,
};
use regl::tsm::{TsmError, TsmReport};

// ---------------------------------------------------------------------------
// TsmError
// ---------------------------------------------------------------------------

#[test]
fn context_replaces_io_error_context_string() {
    // context() must update the displayed message for IOError.
    let io = std::io::Error::new(std::io::ErrorKind::PermissionDenied, "denied");
    let err = TsmError::from(io).context("opening tsm config");
    assert_eq!(err.to_string(), "opening tsm config");
}

#[test]
fn context_is_noop_for_unsupported_and_generation_error() {
    // context() should not alter variants it cannot enrich.
    let unsupported = TsmError::Unsupported.context("ignored");
    assert!(matches!(unsupported, TsmError::Unsupported));

    let gen_err = TsmError::GenerationError { exp: 1, got: 2 }.context("ignored");
    assert!(matches!(
        gen_err,
        TsmError::GenerationError { exp: 1, got: 2 }
    ));
}

#[test]
fn generation_error_display_contains_both_counter_values() {
    // The display format must include both exp and got so callers can diagnose races.
    let err = TsmError::GenerationError { exp: 3, got: 7 };
    let msg = err.to_string();
    assert!(msg.contains('3') && msg.contains('7'), "msg was: {msg}");
}

#[test]
fn from_utf8_error_produces_bytes_to_string_variant() {
    let utf8_err = String::from_utf8(vec![0xff, 0xfe]).unwrap_err();
    let tsm: TsmError = utf8_err.into();
    assert!(matches!(tsm, TsmError::BytesToStringError { .. }));
}

#[test]
fn from_parse_int_error_produces_string_to_int_variant() {
    let parse_err = "not-a-number".parse::<u32>().unwrap_err();
    let tsm: TsmError = parse_err.into();
    assert!(matches!(tsm, TsmError::StringToIntError { .. }));
}

#[test]
fn from_io_error_produces_io_error_variant() {
    let io = std::io::Error::new(std::io::ErrorKind::NotFound, "file missing");
    let tsm: TsmError = io.into();
    assert!(matches!(tsm, TsmError::IOError { .. }));
}

#[test]
fn io_error_with_context_preserves_source() {
    let io = std::io::Error::new(std::io::ErrorKind::PermissionDenied, "denied");
    let tsm: TsmError = io.into();
    let ctx = tsm.context("writing report");
    let msg = ctx.to_string();
    assert!(msg.contains("writing report"));
}

#[test]
fn context_on_bytes_to_string_error_updates_message() {
    let utf8_err = String::from_utf8(vec![0xff]).unwrap_err();
    let tsm: TsmError = utf8_err.into();
    let ctx = tsm.context("parsing outblob");
    assert!(ctx.to_string().contains("parsing outblob"));
}

#[test]
fn context_on_string_to_int_error_updates_message() {
    let parse_err = "abc".parse::<u32>().unwrap_err();
    let tsm: TsmError = parse_err.into();
    let ctx = tsm.context("reading generation counter");
    assert!(ctx.to_string().contains("reading generation counter"));
}

#[test]
fn custom_error_wraps_message() {
    let err = TsmError::custom("configuration missing");
    assert!(err.to_string().contains("configuration missing"));
}

#[test]
fn tsm_error_texts_match_their_variants() {
    assert_eq!(TsmError::Unsupported.to_string(), "TSM backend is unsupported");
    assert_eq!(
        TsmError::GenerationError { exp: 10, got: 0 }.to_string(),
        "inblob write race detected: expected 10 found 0"
    );
    assert_eq!(TsmError::custom("x").to_string(), "TSM error: x");
    let io = std::io::Error::new(std::io::ErrorKind::NotFound, "gone");
    assert_eq!(TsmError::from(io).to_string(), "I/O failed");
    let utf8: TsmError = String::from_utf8(vec![0xc3]).unwrap_err().into();
    assert_eq!(utf8.to_string(), "error converting bytes to string");
    let int: TsmError = "x".parse::<u32>().unwrap_err().into();
    assert_eq!(int.to_string(), "error converting string to integer");
}

#[test]
fn context_keeps_the_io_source() {
    let io = std::io::Error::new(std::io::ErrorKind::PermissionDenied, "denied");
    match TsmError::from(io).context("ctx") {
        TsmError::IOError { context, source } => {
            assert_eq!(context, "ctx");
            assert_eq!(source.kind(), std::io::ErrorKind::PermissionDenied);
        }
        other => panic!("expected IOError, got {other:?}"),
    }
    let custom = TsmError::custom("kept").context("ignored");
    assert_eq!(custom.to_string(), "TSM error: kept");
}

// ---------------------------------------------------------------------------
// generation_err / TsmReport
// ---------------------------------------------------------------------------

#[test]
fn generation_err_ok_when_exp_equals_got() {
    // No race: write count equals the kernel's generation counter.
    assert!(generation_err(0, 0).is_ok());
    assert!(generation_err(5, 5).is_ok());
}

#[test]
fn generation_err_returns_error_with_correct_fields() {
    // A mismatch must surface the exact exp/got values so callers can report them.
    let err = generation_err(2, 5).unwrap_err();
    match err {
        TsmError::GenerationError { exp, got } => {
            assert_eq!(exp, 2);
            assert_eq!(got, 5);
        }
        other => panic!("expected GenerationError, got {other:?}"),
    }
}

#[test]
fn tsm_report_default_has_empty_blobs() {
    // TsmReport::default() must initialise all three blobs to empty - a
    // non-empty default would silently carry stale data into callers.
    let report = TsmReport::default();
    assert!(report.outblob.is_empty());
    assert!(report.auxblob.is_empty());
    assert!(report.manifestblob.is_empty());
}

// ---------------------------------------------------------------------------
// Attribute reading
// ---------------------------------------------------------------------------

#[test]
fn read_to_string_trims_trailing_white_space() {
    let s = LinuxTsmReportBuilder::read_to_string("provider", false, true, Ok(b"arm_cca_guest\n".to_vec())).unwrap();
    assert_eq!(s, "arm_cca_guest");
    let s = LinuxTsmReportBuilder::read_to_string("provider", false, true, Ok("  x \t\u{a0}\r\n".as_bytes().to_vec())).unwrap();
    assert_eq!(s, "  x");
    let s = LinuxTsmReportBuilder::read_to_string("provider", false, true, Ok(Vec::new())).unwrap();
    assert_eq!(s, "");
}

#[test]
fn read_to_string_reports_invalid_utf8_and_io_errors() {
    match LinuxTsmReportBuilder::read_to_string("provider", false, true, Ok(vec![0xff, 0x00])) {
        Err(TsmError::BytesToStringError { context, .. }) => {
            assert_eq!(context, "failed to read \"provider\" as string")
        }
        other => panic!("unexpected {other:?}"),
    }
    let io = std::io::Error::new(std::io::ErrorKind::NotFound, "gone");
    match LinuxTsmReportBuilder::read_to_string("outblob", false, true, Err(io)) {
        Err(TsmError::IOError { context, .. }) => {
            assert_eq!(context, "failed to read from \"outblob\"")
        }
        other => panic!("unexpected {other:?}"),
    }
}

#[test]
fn read_to_int_parses_decimal_counters() {
    assert_eq!(LinuxTsmReportBuilder::read_to_int("generation", Ok(b"7\n".to_vec())).unwrap(), 7);
    assert_eq!(LinuxTsmReportBuilder::read_to_int("generation", Ok(b"+12".to_vec())).unwrap(), 12);
    assert_eq!(LinuxTsmReportBuilder::read_to_int("generation", Ok(b"4294967295".to_vec())).unwrap(), u32::MAX);
    for bad in [&b""[..], b"-1", b"4294967296", b"1a", b"+", b" 3"] {
        match LinuxTsmReportBuilder::read_to_int("generation", Ok(bad.to_vec())) {
            Err(TsmError::StringToIntError { context, .. }) => {
                assert_eq!(context, "failed to convert generation to integer")
            }
            other => panic!("unexpected {other:?} for {bad:?}"),
        }
    }
}

// ---------------------------------------------------------------------------
// The report protocol
// ---------------------------------------------------------------------------

fn instance() -> LinuxTsmReportBuilder {
    LinuxTsmReportBuilder::from_instance(
        "/sys/kernel/config/tsm/report/x".to_string(),
        Ok(b"arm_cca_guest\n".to_vec()),
        Ok(b"2\n".to_vec()),
    )
    .unwrap()
}

#[test]
fn instance_reads_provider_and_privlevel_floor() {
    let b = instance();
    assert_eq!(b.provider(), "arm_cca_guest");
    assert_eq!(b.privlevel_floor(), 2);
    assert_eq!(b.path(), "/sys/kernel/config/tsm/report/x");
    let bad = LinuxTsmReportBuilder::from_instance(
        "p".to_string(),
        Ok(b"x".to_vec()),
        Ok(b"two".to_vec()),
    );
    assert!(matches!(bad, Err(TsmError::StringToIntError { .. })));
}

#[test]
fn writes_come_in_protocol_order() {
    let b = instance().inblob(vec![1, 2, 3]);
    let w = b.writes();
    assert_eq!(w, vec![("inblob".to_string(), vec![1, 2, 3])]);

    let b = instance()
        .service_guid([9u8; 16])
        .inblob(vec![4])
        .service_provider("svc".to_string())
        .privlevel(12);
    let w = b.writes();
    let names: Vec<&str> = w.iter().map(|(n, _)| n.as_str()).collect();
    assert_eq!(names, ["privlevel", "service_provider", "service_guid", "inblob"]);
    assert_eq!(w[0].1, b"12".to_vec());
    assert_eq!(w[1].1, b"svc".to_vec());
    assert_eq!(w[2].1, vec![9u8; 16]);
    assert_eq!(w[3].1, vec![4]);
}

#[test]
fn each_write_must_be_confirmed_by_the_generation_counter() {
    let mut b = instance().privlevel(1).inblob(vec![0; 64]);
    assert!(b.check_generation(Ok(b"0".to_vec())).is_ok());
    b.record_write("privlevel", Ok(())).unwrap();
    assert!(b.check_generation(Ok(b"1\n".to_vec())).is_ok());
    b.record_write("inblob", Ok(())).unwrap();
    match b.check_generation(Ok(b"3\n".to_vec())) {
        Err(TsmError::GenerationError { exp, got }) => assert_eq!((exp, got), (2, 3)),
        other => panic!("unexpected {other:?}"),
    }
    let io = std::io::Error::new(std::io::ErrorKind::PermissionDenied, "no");
    match b.record_write("inblob", Err(io)) {
        Err(TsmError::IOError { context, .. }) => {
            assert_eq!(context, "failed to write to \"inblob\"")
        }
        other => panic!("unexpected {other:?}"),
    }
    assert!(b.check_generation(Ok(b"2".to_vec())).is_ok());
}

#[test]
fn report_needs_outblob_and_defaults_optional_blobs() {
    let r = assemble_report(Ok(vec![1]), Ok(None), Ok(Some(vec![3]))).unwrap();
    assert_eq!(r.outblob, vec![1]);
    assert!(r.auxblob.is_empty());
    assert_eq!(r.manifestblob, vec![3]);
    let io = std::io::Error::new(std::io::ErrorKind::NotFound, "gone");
    match assemble_report(Err(io), Ok(None), Ok(None)) {
        Err(TsmError::IOError { context, .. }) => {
            assert_eq!(context, "failed to read from \"outblob\"")
        }
        other => panic!("unexpected {other:?}"),
    }
}

#[test]
fn generation_reads_the_counter() {
    assert_eq!(LinuxTsmReportBuilder::generation(Ok(b"3\n".to_vec())).unwrap(), 3);
    match LinuxTsmReportBuilder::generation(Ok(b"three".to_vec())) {
        Err(TsmError::StringToIntError { context, .. }) => {
            assert_eq!(context, "failed to convert generation to integer")
        }
        other => panic!("expected StringToIntError, got {other:?}"),
    }
    let io = std::io::Error::new(std::io::ErrorKind::NotFound, "gone");
    match LinuxTsmReportBuilder::generation(Err(io)) {
        Err(TsmError::IOError { context, .. }) => {
            assert_eq!(context, "failed to read from \"generation\"")
        }
        other => panic!("expected IOError, got {other:?}"),
    }
}

struct EchoBuilder {
    inblob: Vec<u8>,
    fail: bool,
}

impl regl::tsm::TsmReportBuilder for EchoBuilder {
    fn provider(&self) -> String {
        "echo".to_string()
    }
    fn privlevel_floor(&self) -> u32 {
        0
    }
    fn inblob(self, blob: Vec<u8>) -> Self {
        EchoBuilder { inblob: blob, ..self }
    }
    fn privlevel(self, _lev: u32) -> Self {
        self
    }
    fn service_provider(self, _provider: String) -> Self {
        self
    }
    fn service_guid(self, _guid: [u8; 16]) -> Self {
        self
    }
    fn get_report(self) -> Result<TsmReport, TsmError> {
        if self.fail {
            return Err(TsmError::Unsupported);
        }
        Ok(TsmReport { outblob: self.inblob, auxblob: vec![1], manifestblob: vec![] })
    }
}

#[test]
fn get_tsm_report_returns_what_the_builder_reports() {
    let report =
        get_tsm_report(EchoBuilder { inblob: vec![], fail: false }, vec![7u8; 64]).unwrap();
    assert_eq!(report.outblob, vec![7u8; 64]);
    assert_eq!(report.auxblob, vec![1]);
    let err = get_tsm_report(EchoBuilder { inblob: vec![], fail: true }, vec![7u8; 64])
        .err()
        .unwrap();
    assert!(matches!(err, CcaError::Tsm(TsmError::Unsupported)));
}

#[test]
fn an_absent_optional_attribute_reads_as_empty() {
    let io = std::io::Error::new(std::io::ErrorKind::NotFound, "absent");
    assert_eq!(
        LinuxTsmReportBuilder::read_to_string("auxblob", true, false, Err(io)).unwrap(),
        ""
    );
    // A present optional attribute reads like any other.
    assert_eq!(
        LinuxTsmReportBuilder::read_to_string("auxblob", true, true, Ok(b"x \n".to_vec())).unwrap(),
        "x"
    );
    // An attribute that is not optional must be readable.
    let io = std::io::Error::new(std::io::ErrorKind::NotFound, "absent");
    match LinuxTsmReportBuilder::read_to_string("provider", false, false, Err(io)) {
        Err(TsmError::IOError { context, .. }) => {
            assert_eq!(context, "failed to read from \"provider\"")
        }
        other => panic!("expected IOError, got {other:?}"),
    }
}
