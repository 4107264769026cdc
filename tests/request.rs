use ws_session::request::{
    parse_channel, parse_crate_type, parse_edition, parse_mode, Channel, CrateType, Edition,
    ExecuteRequest, ExecuteRequestParseError, LibraryType, Mode, ValidatedExecuteRequest,
};

fn wire(channel: &str, mode: &str, edition: &str, crate_type: &str) -> ExecuteRequest {
    ExecuteRequest {
        channel: channel.to_string(),
        mode: mode.to_string(),
        edition: edition.to_string(),
        crate_type: crate_type.to_string(),
        tests: false,
        code: "fn main(){println!(\"hi\");}".to_string(),
        backtrace: true,
    }
}

#[test]
fn parses_every_channel() {
    assert_eq!(parse_channel("stable"), Ok(Channel::Stable));
    assert_eq!(parse_channel("beta"), Ok(Channel::Beta));
    assert_eq!(parse_channel("nightly"), Ok(Channel::Nightly));
    assert_eq!(parse_channel("nonsense"), Err("nonsense".to_string()));
    assert_eq!(parse_channel(""), Err(String::new()));
}

#[test]
fn parses_modes_and_editions() {
    assert_eq!(parse_mode("debug"), Ok(Mode::Debug));
    assert_eq!(parse_mode("release"), Ok(Mode::Release));
    assert_eq!(parse_mode("Debug"), Err("Debug".to_string()));
    assert_eq!(parse_edition("2015"), Ok(Edition::Rust2015));
    assert_eq!(parse_edition("2018"), Ok(Edition::Rust2018));
    assert_eq!(parse_edition("2021"), Ok(Edition::Rust2021));
    assert_eq!(parse_edition("2024"), Ok(Edition::Rust2024));
    assert_eq!(parse_edition("2019"), Err("2019".to_string()));
}

#[test]
fn parses_crate_types() {
    assert_eq!(parse_crate_type("bin"), Ok(CrateType::Binary));
    assert_eq!(parse_crate_type("lib"), Ok(CrateType::Library(LibraryType::Lib)));
    assert_eq!(parse_crate_type("dylib"), Ok(CrateType::Library(LibraryType::Dylib)));
    assert_eq!(parse_crate_type("rlib"), Ok(CrateType::Library(LibraryType::Rlib)));
    assert_eq!(parse_crate_type("staticlib"), Ok(CrateType::Library(LibraryType::Staticlib)));
    assert_eq!(parse_crate_type("cdylib"), Ok(CrateType::Library(LibraryType::Cdylib)));
    assert_eq!(parse_crate_type("proc-macro"), Ok(CrateType::Library(LibraryType::ProcMacro)));
    assert_eq!(parse_crate_type("exe"), Err("exe".to_string()));
}

#[test]
fn validates_happy_request() {
    let v = ValidatedExecuteRequest::try_from(wire("stable", "debug", "2021", "bin")).unwrap();
    assert_eq!(v.channel, Channel::Stable);
    assert_eq!(v.mode, Mode::Debug);
    assert_eq!(v.edition, Edition::Rust2021);
    assert_eq!(v.crate_type, CrateType::Binary);
    assert!(!v.tests);
    assert!(v.backtrace);
    assert_eq!(v.code, "fn main(){println!(\"hi\");}");
}

#[test]
fn bad_channel_is_reported_first() {
    let e = ValidatedExecuteRequest::try_from(wire("nonsense", "nope", "1999", "exe")).unwrap_err();
    assert!(matches!(e, ExecuteRequestParseError::Channel { ref value } if value == "nonsense"));
}

#[test]
fn each_field_error_names_its_field() {
    let e = ValidatedExecuteRequest::try_from(wire("beta", "fast", "2021", "bin")).unwrap_err();
    assert!(matches!(e, ExecuteRequestParseError::Mode { ref value } if value == "fast"));
    let e = ValidatedExecuteRequest::try_from(wire("beta", "release", "1999", "bin")).unwrap_err();
    assert!(matches!(e, ExecuteRequestParseError::Edition { ref value } if value == "1999"));
    let e = ValidatedExecuteRequest::try_from(wire("beta", "release", "2018", "exe")).unwrap_err();
    assert!(matches!(e, ExecuteRequestParseError::CrateType { ref value } if value == "exe"));
}

#[test]
fn canonical_names_round_trip() {
    let v = ValidatedExecuteRequest::try_from(wire("nightly", "release", "2024", "proc-macro")).unwrap();
    assert_eq!(v.channel, Channel::Nightly);
    assert_eq!(v.mode, Mode::Release);
    assert_eq!(v.edition, Edition::Rust2024);
    assert_eq!(v.crate_type, CrateType::Library(LibraryType::ProcMacro));
}
