use vstd::prelude::*;

verus! {

/// Release channel of the toolchain that runs a job.
#[derive(Clone, Copy, Debug, PartialEq, Eq, Structural)]
pub enum Channel {
    Stable,
    Beta,
    Nightly,
}

/// Compilation profile.
#[derive(Clone, Copy, Debug, PartialEq, Eq, Structural)]
pub enum Mode {
    Debug,
    Release,
}

/// Language edition.
#[derive(Clone, Copy, Debug, PartialEq, Eq, Structural)]
pub enum Edition {
    Rust2015,
    Rust2018,
    Rust2021,
    Rust2024,
}

/// Kind of library a crate builds as.
#[derive(Clone, Copy, Debug, PartialEq, Eq, Structural)]
pub enum LibraryType {
    Lib,
    Dylib,
    Rlib,
    Staticlib,
    Cdylib,
    ProcMacro,
}

/// Kind of crate being built.
#[derive(Clone, Copy, Debug, PartialEq, Eq, Structural)]
pub enum CrateType {
    Binary,
    Library(LibraryType),
}

/// `a@ == b@`, decided on owned copies.
fn str_eq(a: &str, b: &str) -> (r: bool)
    ensures
        r == (a@ == b@),
{
    let x = a.to_owned();
    let y = b.to_owned();
    x == y
}

pub open spec fn channel_name(c: Channel) -> Seq<char> {
    match c {
        Channel::Stable => "stable"@,
        Channel::Beta => "beta"@,
        Channel::Nightly => "nightly"@,
    }
}

/// The channel whose canonical name is `s`, if any.
pub open spec fn channel_of(s: Seq<char>) -> Option<Channel> {
    if s == channel_name(Channel::Stable) {
        Some(Channel::Stable)
    } else if s == channel_name(Channel::Beta) {
        Some(Channel::Beta)
    } else if s == channel_name(Channel::Nightly) {
        Some(Channel::Nightly)
    } else {
        None
    }
}

/// Parses a channel name; on failure the offending text comes back.
pub fn parse_channel(s: &str) -> (r: Result<Channel, String>)
    ensures
        match r {
            Ok(c) => channel_of(s@) == Some(c),
            Err(v) => channel_of(s@).is_none() && v@ == s@,
        },
{
    if str_eq(s, "stable") {
        Ok(Channel::Stable)
    } else if str_eq(s, "beta") {
        Ok(Channel::Beta)
    } else if str_eq(s, "nightly") {
        Ok(Channel::Nightly)
    } else {
        Err(s.to_owned())
    }
}


pub open spec fn mode_name(m: Mode) -> Seq<char> {
    match m {
        Mode::Debug => "debug"@,
        Mode::Release => "release"@,
    }
}

/// The mode whose canonical name is `s`, if any.
pub open spec fn mode_of(s: Seq<char>) -> Option<Mode> {
    if s == mode_name(Mode::Debug) {
        Some(Mode::Debug)
    } else if s == mode_name(Mode::Release) {
        Some(Mode::Release)
    } else {
        None
    }
}

/// Parses a mode name; on failure the offending text comes back.
pub fn parse_mode(s: &str) -> (r: Result<Mode, String>)
    ensures
        match r {
            Ok(m) => mode_of(s@) == Some(m),
            Err(v) => mode_of(s@).is_none() && v@ == s@,
        },
{
    if str_eq(s, "debug") {
        Ok(Mode::Debug)
    } else if str_eq(s, "release") {
        Ok(Mode::Release)
    } else {
        Err(s.to_owned())
    }
}

pub open spec fn edition_name(e: Edition) -> Seq<char> {
    match e {
        Edition::Rust2015 => "2015"@,
        Edition::Rust2018 => "2018"@,
        Edition::Rust2021 => "2021"@,
        Edition::Rust2024 => "2024"@,
    }
}

/// The edition whose canonical name is `s`, if any.
pub open spec fn edition_of(s: Seq<char>) -> Option<Edition> {
    if s == edition_name(Edition::Rust2015) {
        Some(Edition::Rust2015)
    } else if s == edition_name(Edition::Rust2018) {
        Some(Edition::Rust2018)
    } else if s == edition_name(Edition::Rust2021) {
        Some(Edition::Rust2021)
    } else if s == edition_name(Edition::Rust2024) {
        Some(Edition::Rust2024)
    } else {
        None
    }
}

/// Parses an edition name; on failure the offending text comes back.
pub fn parse_edition(s: &str) -> (r: Result<Edition, String>)
    ensures
        match r {
            Ok(e) => edition_of(s@) == Some(e),
            Err(v) => edition_of(s@).is_none() && v@ == s@,
        },
{
    if str_eq(s, "2015") {
        Ok(Edition::Rust2015)
    } else if str_eq(s, "2018") {
        Ok(Edition::Rust2018)
    } else if str_eq(s, "2021") {
        Ok(Edition::Rust2021)
    } else if str_eq(s, "2024") {
        Ok(Edition::Rust2024)
    } else {
        Err(s.to_owned())
    }
}

pub open spec fn crate_type_name(c: CrateType) -> Seq<char> {
    match c {
        CrateType::Binary => "bin"@,
        CrateType::Library(LibraryType::Lib) => "lib"@,
        CrateType::Library(LibraryType::Dylib) => "dylib"@,
        CrateType::Library(LibraryType::Rlib) => "rlib"@,
        CrateType::Library(LibraryType::Staticlib) => "staticlib"@,
        CrateType::Library(LibraryType::Cdylib) => "cdylib"@,
        CrateType::Library(LibraryType::ProcMacro) => "proc-macro"@,
    }
}

/// The crate type whose canonical name is `s`, if any.
pub open spec fn crate_type_of(s: Seq<char>) -> Option<CrateType> {
    if s == crate_type_name(CrateType::Binary) {
        Some(CrateType::Binary)
    } else if s == crate_type_name(CrateType::Library(LibraryType::Lib)) {
        Some(CrateType::Library(LibraryType::Lib))
    } else if s == crate_type_name(CrateType::Library(LibraryType::Dylib)) {
        Some(CrateType::Library(LibraryType::Dylib))
    } else if s == crate_type_name(CrateType::Library(LibraryType::Rlib)) {
        Some(CrateType::Library(LibraryType::Rlib))
    } else if s == crate_type_name(CrateType::Library(LibraryType::Staticlib)) {
        Some(CrateType::Library(LibraryType::Staticlib))
    } else if s == crate_type_name(CrateType::Library(LibraryType::Cdylib)) {
        Some(CrateType::Library(LibraryType::Cdylib))
    } else if s == crate_type_name(CrateType::Library(LibraryType::ProcMacro)) {
        Some(CrateType::Library(LibraryType::ProcMacro))
    } else {
        None
    }
}

/// Parses a crate type name; on failure the offending text comes back.
pub fn parse_crate_type(s: &str) -> (r: Result<CrateType, String>)
    ensures
        match r {
            Ok(c) => crate_type_of(s@) == Some(c),
            Err(v) => crate_type_of(s@).is_none() && v@ == s@,
        },
{
    if str_eq(s, "bin") {
        Ok(CrateType::Binary)
    } else if str_eq(s, "lib") {
        Ok(CrateType::Library(LibraryType::Lib))
    } else if str_eq(s, "dylib") {
        Ok(CrateType::Library(LibraryType::Dylib))
    } else if str_eq(s, "rlib") {
        Ok(CrateType::Library(LibraryType::Rlib))
    } else if str_eq(s, "staticlib") {
        Ok(CrateType::Library(LibraryType::Staticlib))
    } else if str_eq(s, "cdylib") {
        Ok(CrateType::Library(LibraryType::Cdylib))
    } else if str_eq(s, "proc-macro") {
        Ok(CrateType::Library(LibraryType::ProcMacro))
    } else {
        Err(s.to_owned())
    }
}

/// An execute request as the client sends it: every field still text.
#[derive(Debug)]
pub struct ExecuteRequest {
    pub channel: String,
    pub mode: String,
    pub edition: String,
    pub crate_type: String,
    pub tests: bool,
    pub code: String,
    pub backtrace: bool,
}

/// An execute request whose fields all name known values.
#[derive(Debug)]
pub struct ValidatedExecuteRequest {
    pub channel: Channel,
    pub mode: Mode,
    pub edition: Edition,
    pub crate_type: CrateType,
    pub tests: bool,
    pub backtrace: bool,
    pub code: String,
}

/// Which field of an execute request failed to parse, with its text.
#[derive(Debug)]
pub enum ExecuteRequestParseError {
    Channel { value: String },
    CrateType { value: String },
    Mode { value: String },
    Edition { value: String },
}

/// What validating a wire request gives: fields are checked in the order
/// channel, mode, edition, crate type, and the first failure is reported.
pub open spec fn validate_spec(
    channel: Seq<char>,
    mode: Seq<char>,
    edition: Seq<char>,
    crate_type: Seq<char>,
) -> Result<(Channel, Mode, Edition, CrateType), ExecuteRequestParseErrorKind> {
    match (channel_of(channel), mode_of(mode), edition_of(edition), crate_type_of(crate_type)) {
        (None, _, _, _) => Err(ExecuteRequestParseErrorKind::Channel),
        (Some(_), None, _, _) => Err(ExecuteRequestParseErrorKind::Mode),
        (Some(_), Some(_), None, _) => Err(ExecuteRequestParseErrorKind::Edition),
        (Some(_), Some(_), Some(_), None) => Err(ExecuteRequestParseErrorKind::CrateType),
        (Some(c), Some(m), Some(e), Some(t)) => Ok((c, m, e, t)),
    }
}

/// The field an [`ExecuteRequestParseError`] names, without its text.
pub enum ExecuteRequestParseErrorKind {
    Channel,
    CrateType,
    Mode,
    Edition,
}

impl ExecuteRequestParseError {
    pub open spec fn kind(&self) -> ExecuteRequestParseErrorKind {
        match self {
            ExecuteRequestParseError::Channel { .. } => ExecuteRequestParseErrorKind::Channel,
            ExecuteRequestParseError::CrateType { .. } => ExecuteRequestParseErrorKind::CrateType,
            ExecuteRequestParseError::Mode { .. } => ExecuteRequestParseErrorKind::Mode,
            ExecuteRequestParseError::Edition { .. } => ExecuteRequestParseErrorKind::Edition,
        }
    }

    /// The text that failed to parse.
    pub open spec fn value(&self) -> Seq<char> {
        match self {
            ExecuteRequestParseError::Channel { value } => value@,
            ExecuteRequestParseError::CrateType { value } => value@,
            ExecuteRequestParseError::Mode { value } => value@,
            ExecuteRequestParseError::Edition { value } => value@,
        }
    }
}

impl ValidatedExecuteRequest {
    /// Validates a wire request; `tests`, `backtrace` and `code` pass through.
    pub fn try_from(value: ExecuteRequest) -> (r: Result<ValidatedExecuteRequest, ExecuteRequestParseError>)
        ensures
            match (r, validate_spec(value.channel@, value.mode@, value.edition@, value.crate_type@)) {
                (Ok(v), Ok((c, m, e, t))) => v.channel == c && v.mode == m && v.edition == e
                    && v.crate_type == t && v.tests == value.tests && v.backtrace == value.backtrace
                    && v.code@ == value.code@,
                (Err(err), Err(k)) => err.kind() == k && err.value() == match k {
                    ExecuteRequestParseErrorKind::Channel => value.channel@,
                    ExecuteRequestParseErrorKind::Mode => value.mode@,
                    ExecuteRequestParseErrorKind::Edition => value.edition@,
                    ExecuteRequestParseErrorKind::CrateType => value.crate_type@,
                },
                _ => false,
            },
    {
        let ExecuteRequest { channel, mode, edition, crate_type, tests, code, backtrace } = value;
        let channel = match parse_channel(channel.as_str()) {
            Ok(c) => c,
            Err(value) => return Err(ExecuteRequestParseError::Channel { value }),
        };
        let mode = match parse_mode(mode.as_str()) {
            Ok(m) => m,
            Err(value) => return Err(ExecuteRequestParseError::Mode { value }),
        };
        let edition = match parse_edition(edition.as_str()) {
            Ok(e) => e,
            Err(value) => return Err(ExecuteRequestParseError::Edition { value }),
        };
        let crate_type = match parse_crate_type(crate_type.as_str()) {
            Ok(t) => t,
            Err(value) => return Err(ExecuteRequestParseError::CrateType { value }),
        };
        Ok(ValidatedExecuteRequest { channel, mode, edition, crate_type, tests, backtrace, code })
    }
}

/// Every field value's canonical name parses back to that value, so a
/// validated request written out with canonical names validates to the same
/// fields.
pub proof fn lemma_request_round_trip(c: Channel, m: Mode, e: Edition, t: CrateType)
    ensures
        channel_of(channel_name(c)) == Some(c),
        mode_of(mode_name(m)) == Some(m),
        edition_of(edition_name(e)) == Some(e),
        crate_type_of(crate_type_name(t)) == Some(t),
        validate_spec(channel_name(c), mode_name(m), edition_name(e), crate_type_name(t))
            == Ok::<_, ExecuteRequestParseErrorKind>((c, m, e, t)),
{
    reveal_strlit("stable");
    reveal_strlit("beta");
    reveal_strlit("nightly");
    reveal_strlit("debug");
    reveal_strlit("release");
    reveal_strlit("2015");
    reveal_strlit("2018");
    reveal_strlit("2021");
    reveal_strlit("2024");
    reveal_strlit("bin");
    reveal_strlit("lib");
    reveal_strlit("dylib");
    reveal_strlit("rlib");
    reveal_strlit("staticlib");
    reveal_strlit("cdylib");
    reveal_strlit("proc-macro");
    assert("2015"@[3] == '5' && "2018"@[3] == '8' && "2021"@[3] == '1' && "2024"@[3] == '4');
    assert("bin"@[0] == 'b' && "lib"@[0] == 'l');
    assert("stable"@.len() == 6 && "beta"@.len() == 4 && "nightly"@.len() == 7);
    assert("debug"@.len() == 5 && "release"@.len() == 7);
    assert("bin"@.len() == 3 && "lib"@.len() == 3 && "dylib"@.len() == 5 && "rlib"@.len() == 4);
    assert("staticlib"@.len() == 9 && "cdylib"@.len() == 6 && "proc-macro"@.len() == 10);
}

} // verus!
