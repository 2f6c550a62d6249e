//! The configuration of a service: what each setting is when the
//! environment gives it, and what it is when the environment does not.
//! Reading the environment is the caller's business; the settings arrive
//! here as optional texts.

use vstd::prelude::*;
use vstd::string::{StrSliceExecFns, StringExecFns};
use crate::error::AppError;

verus! {

/// The port on which the service listens when none is set.
pub const DEFAULT_PORT: u16 = 3000;

/// The number of seconds for which a browser may keep the answer to a
/// preflight request, when none is set.
pub const DEFAULT_MAX_AGE_SECONDS: u64 = 3600;

/// The number that `str::parse::<u16>` reads from a text, where it reads
/// one.
pub uninterp spec fn port_of_text(text: Seq<char>) -> Option<u16>;

/// The number that `str::parse::<u64>` reads from a text, where it reads
/// one.
pub uninterp spec fn seconds_of_text(text: Seq<char>) -> Option<u64>;

/// `str::parse::<u16>`: the number that the text spells in decimal, or
/// nothing where the text spells none that fits.
#[verifier::external_body]
fn parse_port(text: &str) -> (port: Option<u16>)
    ensures
        port == port_of_text(text@),
{
    text.parse::<u16>().ok()
}

/// `str::parse::<u64>`: the number that the text spells in decimal, or
/// nothing where the text spells none that fits.
#[verifier::external_body]
fn parse_seconds(text: &str) -> (seconds: Option<u64>)
    ensures
        seconds == seconds_of_text(text@),
{
    text.parse::<u64>().ok()
}

/// Which origins a browser may call the service from.
#[derive(Debug, PartialEq, Eq)]
pub enum AllowedOrigins {
    /// Every origin.
    Any,
    /// The origins of a list, in the order of the list.
    List(Vec<String>),
}

/// The settings of cross-origin access.
#[derive(Debug, PartialEq, Eq)]
pub struct CorsConfig {
    pub allowed_origins: AllowedOrigins,
    pub allow_credentials: bool,
    pub max_age_seconds: u64,
}

/// The settings of a service.
#[derive(Debug, PartialEq, Eq)]
pub struct AppConfig {
    pub database_url: String,
    pub port: u16,
    pub cors: CorsConfig,
}

/// The settings as the environment gives them, each possibly absent.
#[derive(Debug, PartialEq, Eq)]
pub struct Settings {
    pub database_url: Option<String>,
    pub port: Option<String>,
    pub cors_allowed_origins: Option<String>,
    pub cors_allow_credentials: Option<String>,
    pub cors_max_age: Option<String>,
}

/// The port of a setting that was read as `read`: the default where the
/// setting is absent, the number where it spells one.
pub open spec fn port_outcome(read: Option<Option<u16>>) -> Option<u16> {
    match read {
        None => Some(DEFAULT_PORT),
        Some(port) => port,
    }
}

/// The port to listen on, from what was read of the setting: the default
/// where the setting is absent, the number where it spells one, and a
/// `ConfigError` where it spells none.
pub fn port_from(read: Option<Option<u16>>) -> (res: Result<u16, AppError>)
    ensures
        res is Ok <==> port_outcome(read) is Some,
        res is Ok ==> res->Ok_0 == port_outcome(read)->0,
        res is Err ==> res->Err_0 is ConfigError && res->Err_0->ConfigError_0@ == "Invalid PORT"@,
{
    match read {
        None => Ok(DEFAULT_PORT),
        Some(Some(port)) => Ok(port),
        Some(None) => Err(AppError::ConfigError(String::from_str("Invalid PORT"))),
    }
}

/// What was read of a port setting.
pub open spec fn port_read(setting: Option<String>) -> Option<Option<u16>> {
    match setting {
        None => None,
        Some(text) => Some(port_of_text(text@)),
    }
}

/// The port to listen on: `DEFAULT_PORT` where the setting is absent, the
/// number that the setting spells, or a `ConfigError` where it spells none.
pub fn resolve_port(setting: &Option<String>) -> (res: Result<u16, AppError>)
    ensures
        res is Ok <==> port_outcome(port_read(*setting)) is Some,
        res is Ok ==> res->Ok_0 == port_outcome(port_read(*setting))->0,
        res is Err ==> res->Err_0 is ConfigError && res->Err_0->ConfigError_0@ == "Invalid PORT"@,
        *setting is None ==> res == Ok::<u16, AppError>(DEFAULT_PORT),
{
    match setting {
        None => port_from(None),
        Some(text) => port_from(Some(parse_port(text.as_str()))),
    }
}

/// The number of seconds of a setting that was read as `read`: the default
/// where the setting is absent or spells no number.
pub open spec fn max_age_outcome(read: Option<Option<u64>>) -> u64 {
    match read {
        Some(Some(seconds)) => seconds,
        _ => DEFAULT_MAX_AGE_SECONDS,
    }
}

/// The number of seconds to keep a preflight answer, from what was read of
/// the setting: the number where it spells one, the default in every other
/// case.
pub fn max_age_from(read: Option<Option<u64>>) -> (seconds: u64)
    ensures
        seconds == max_age_outcome(read),
{
    match read {
        Some(Some(seconds)) => seconds,
        _ => DEFAULT_MAX_AGE_SECONDS,
    }
}

/// What was read of a setting of seconds.
pub open spec fn seconds_read(setting: Option<String>) -> Option<Option<u64>> {
    match setting {
        None => None,
        Some(text) => Some(seconds_of_text(text@)),
    }
}

/// The number of seconds to keep a preflight answer: the number that the
/// setting spells, or `DEFAULT_MAX_AGE_SECONDS` where the setting is absent
/// or spells none.
pub fn resolve_max_age(setting: &Option<String>) -> (seconds: u64)
    ensures
        seconds == max_age_outcome(seconds_read(*setting)),
        *setting is None ==> seconds == DEFAULT_MAX_AGE_SECONDS,
{
    match setting {
        None => max_age_from(None),
        Some(text) => max_age_from(Some(parse_seconds(text.as_str()))),
    }
}

/// Whether credentials are allowed under a setting: they are, unless the
/// setting is the word `false`.
pub open spec fn credentials_allowed(setting: Option<String>) -> bool {
    match setting {
        Some(text) => text@ != "false"@,
        None => true,
    }
}

/// Whether credentials are allowed: yes where the setting is absent, is the
/// word `true`, or is no truth value at all; no where it is the word
/// `false`.
pub fn resolve_allow_credentials(setting: &Option<String>) -> (allowed: bool)
    ensures
        allowed == credentials_allowed(*setting),
{
    match setting {
        Some(text) => {
            let denial = String::from_str("false");
            !(*text == denial)
        },
        None => true,
    }
}

/// Whether `c` is white space, as `char::is_whitespace` tells it.
pub uninterp spec fn is_white_space(c: char) -> bool;

/// `char::is_whitespace`: whether the character has the Unicode property
/// `White_Space`.
#[verifier::external_body]
fn white_space(c: char) -> (white: bool)
    ensures
        white == is_white_space(c),
{
    c.is_whitespace()
}

/// Whether a character may stand in the value of a header: a tab, or any
/// character from the space on but the delete character.
pub open spec fn is_header_char(c: char) -> bool {
    (c as u32 >= 32 && c as u32 != 127) || c as u32 == 9
}

/// Whether a text can be the value of a header: every character of it may
/// stand in one.
pub open spec fn is_header_text(text: Seq<char>) -> bool {
    forall|i: int| 0 <= i < text.len() ==> is_header_char(#[trigger] text[i])
}

/// `http::HeaderValue::from_str`, as axum hands it on, asked only whether it
/// succeeds. It does unless a byte of the text is below 32 and no tab, or is
/// 127. A character beyond 127 is written in bytes beyond 127, so the text
/// is accepted exactly when each of its characters is a tab, or is at or
/// above the space and not the delete character.
#[verifier::external_body]
fn header_value_accepts(text: &str) -> (accepted: bool)
    ensures
        accepted == is_header_text(text@),
{
    axum::http::HeaderValue::from_str(text).is_ok()
}

/// The parts of a text between its commas, in their order. A text without a
/// comma is its own single part; a comma at either end borders an empty
/// part.
pub open spec fn comma_parts(text: Seq<char>) -> Seq<Seq<char>>
    decreases text.len(),
{
    if text.len() == 0 {
        seq![Seq::empty()]
    } else {
        let before = comma_parts(text.drop_last());
        if text.last() == ',' {
            before.push(Seq::empty())
        } else {
            before.drop_last().push(before.last().push(text.last()))
        }
    }
}

/// A text has one part more than it has commas, and no part holds a comma.
pub proof fn lemma_comma_parts(text: Seq<char>)
    ensures
        comma_parts(text).len() == text.filter(|c: char| c == ',').len() + 1,
        forall|i: int, j: int|
            0 <= i < comma_parts(text).len() && 0 <= j < comma_parts(text)[i].len()
                ==> #[trigger] comma_parts(text)[i][j] != ',',
    decreases text.len(),
{
    reveal(Seq::filter);
    if text.len() > 0 {
        lemma_comma_parts(text.drop_last());
        let before = comma_parts(text.drop_last());
        let parts = comma_parts(text);
        assert forall|i: int, j: int|
            0 <= i < parts.len() && 0 <= j < parts[i].len() implies #[trigger] parts[i][j]
            != ',' by {
            if i < before.len() - 1 {
                assert(parts[i] == before[i]);
                assert(before[i][j] != ',');
            } else if text.last() != ',' {
                if j < before.last().len() {
                    assert(before[before.len() - 1][j] != ',');
                }
            } else if i < before.len() {
                assert(parts[i] == before[i]);
                assert(before[i][j] != ',');
            }
        }
    }
}

/// A text without the white space at its start.
pub open spec fn trimmed_start(text: Seq<char>) -> Seq<char>
    decreases text.len(),
{
    if text.len() > 0 && is_white_space(text.first()) {
        trimmed_start(text.drop_first())
    } else {
        text
    }
}

/// A text without the white space at its end.
pub open spec fn trimmed_end(text: Seq<char>) -> Seq<char>
    decreases text.len(),
{
    if text.len() > 0 && is_white_space(text.last()) {
        trimmed_end(text.drop_last())
    } else {
        text
    }
}

/// A text without the white space at its start and at its end.
pub open spec fn trimmed(text: Seq<char>) -> Seq<char> {
    trimmed_end(trimmed_start(text))
}

/// Where white space fills a text up to a position and ends there, the text
/// without the white space at its start begins at that position.
proof fn lemma_trimmed_start(text: Seq<char>, from: int)
    requires
        0 <= from <= text.len(),
        forall|i: int| 0 <= i < from ==> is_white_space(#[trigger] text[i]),
        from < text.len() ==> !is_white_space(text[from]),
    ensures
        trimmed_start(text) == text.skip(from),
    decreases from,
{
    if from == 0 {
        assert(text.skip(0) =~= text);
    } else {
        let rest = text.drop_first();
        assert forall|i: int| 0 <= i < from - 1 implies is_white_space(#[trigger] rest[i]) by {
            assert(rest[i] == text[i + 1]);
        }
        lemma_trimmed_start(rest, from - 1);
        assert(rest.skip(from - 1) =~= text.skip(from));
    }
}

/// Where white space fills a text from a position on and begins there, the
/// text without the white space at its end stops at that position.
proof fn lemma_trimmed_end(text: Seq<char>, to: int)
    requires
        0 <= to <= text.len(),
        forall|i: int| to <= i < text.len() ==> is_white_space(#[trigger] text[i]),
        to > 0 ==> !is_white_space(text[to - 1]),
    ensures
        trimmed_end(text) == text.take(to),
    decreases text.len() - to,
{
    if to == text.len() {
        assert(text.take(to) =~= text);
    } else {
        let rest = text.drop_last();
        lemma_trimmed_end(rest, to);
        assert(rest.take(to) =~= text.take(to));
    }
}

/// The positions between which a text is kept when the white space at its
/// ends is cut off, from a flag for each character that says whether it is
/// white space: the first holds the first character that is none, the second
/// follows the last that is none. Where every character is white space,
/// both are the length of the text.
pub fn kept_range(white: &Vec<bool>) -> (range: (usize, usize))
    ensures
        range.0 <= range.1 <= white@.len(),
        forall|i: int| 0 <= i < range.0 ==> #[trigger] white@[i],
        range.0 < white@.len() ==> !white@[range.0 as int],
        forall|i: int| range.1 <= i < white@.len() ==> #[trigger] white@[i],
        range.1 > range.0 ==> !white@[range.1 - 1],
{
    let len = white.len();
    let mut from: usize = 0;
    while from < len && white[from]
        invariant
            from <= len,
            len == white@.len(),
            forall|i: int| 0 <= i < from ==> #[trigger] white@[i],
        decreases len - from,
    {
        from += 1;
    }
    let mut to: usize = len;
    while to > from && white[to - 1]
        invariant
            from <= to <= len,
            len == white@.len(),
            forall|i: int| to <= i < len ==> #[trigger] white@[i],
        decreases to,
    {
        to -= 1;
    }
    (from, to)
}

/// The text without the white space at its start and at its end.
pub fn trim(text: &str) -> (inner: String)
    ensures
        inner@ == trimmed(text@),
{
    let len = text.unicode_len();
    let mut white: Vec<bool> = Vec::new();
    let mut at: usize = 0;
    while at < len
        invariant
            at <= len,
            len == text@.len(),
            white@.len() == at,
            forall|i: int| 0 <= i < at ==> #[trigger] white@[i] == is_white_space(text@[i]),
        decreases len - at,
    {
        white.push(white_space(text.get_char(at)));
        at += 1;
    }
    let (from, to) = kept_range(&white);
    proof {
        assert forall|i: int| 0 <= i < from implies is_white_space(#[trigger] text@[i]) by {
            assert(white@[i]);
        }
        lemma_trimmed_start(text@, from as int);
        let tail = text@.skip(from as int);
        assert forall|i: int| to - from <= i < tail.len() implies is_white_space(
            #[trigger] tail[i],
        ) by {
            assert(tail[i] == text@[i + from]);
            assert(white@[i + from]);
        }
        if to > from {
            assert(tail[to - from - 1] == text@[to - 1]);
        }
        lemma_trimmed_end(tail, to - from);
        assert(tail.take(to - from) =~= text@.subrange(from as int, to as int));
    }
    text.substring_char(from, to).to_owned()
}

/// The parts of a text between its commas, in their order.
pub fn split_on_commas(text: &str) -> (parts: Vec<String>)
    ensures
        parts@.len() == comma_parts(text@).len(),
        forall|i: int| 0 <= i < parts@.len() ==> (#[trigger] parts@[i])@ == comma_parts(text@)[i],
{
    let len = text.unicode_len();
    let mut parts: Vec<String> = Vec::new();
    let mut start: usize = 0;
    let mut at: usize = 0;
    proof {
        assert(text@.take(0) =~= Seq::<char>::empty());
        assert(text@.subrange(0, 0) =~= Seq::<char>::empty());
    }
    while at < len
        invariant
            start <= at <= len,
            len == text@.len(),
            comma_parts(text@.take(at as int)).len() == parts@.len() + 1,
            forall|i: int|
                0 <= i < parts@.len() ==> (#[trigger] parts@[i])@ == comma_parts(
                    text@.take(at as int),
                )[i],
            comma_parts(text@.take(at as int)).last() == text@.subrange(start as int, at as int),
        decreases len - at,
    {
        let ghost before = comma_parts(text@.take(at as int));
        proof {
            assert(text@.take(at + 1).drop_last() =~= text@.take(at as int));
            assert(text@.take(at + 1).last() == text@[at as int]);
        }
        if text.get_char(at) == ',' {
            parts.push(text.substring_char(start, at).to_owned());
            start = at + 1;
            proof {
                assert(text@.subrange(start as int, at + 1) =~= Seq::<char>::empty());
            }
        } else {
            proof {
                assert(text@.subrange(start as int, at + 1) =~= text@.subrange(
                    start as int,
                    at as int,
                ).push(text@[at as int]));
            }
        }
        at += 1;
    }
    proof {
        assert(text@.take(at as int) =~= text@);
    }
    parts.push(text.substring_char(start, len).to_owned());
    parts
}

/// The origins that a list names: the parts of the list between its commas,
/// each without the white space around it.
pub open spec fn listed_origins(list: Seq<char>) -> Seq<Seq<char>> {
    comma_parts(list).map_values(|part: Seq<char>| trimmed(part))
}

/// Whether every origin of a list can be the value of a header.
pub open spec fn origins_are_header_texts(list: Seq<char>) -> bool {
    forall|i: int|
        0 <= i < listed_origins(list).len() ==> is_header_text(#[trigger] listed_origins(list)[i])
}

/// The texts of a list of strings.
pub open spec fn texts(strings: Seq<String>) -> Seq<Seq<char>> {
    strings.map_values(|s: String| s@)
}

/// The origins that a list names, or a `ConfigError` where one of them
/// cannot be the value of a header.
pub fn parse_origin_list(list: &str) -> (res: Result<Vec<String>, AppError>)
    ensures
        res is Ok <==> origins_are_header_texts(list@),
        res is Ok ==> texts(res->Ok_0@) == listed_origins(list@),
        res is Err ==> res->Err_0 is ConfigError && res->Err_0->ConfigError_0@
            == "Invalid CORS origin"@,
{
    let parts = split_on_commas(list);
    let mut origins: Vec<String> = Vec::new();
    let mut at: usize = 0;
    while at < parts.len()
        invariant
            at <= parts@.len(),
            parts@.len() == comma_parts(list@).len(),
            forall|i: int|
                0 <= i < parts@.len() ==> (#[trigger] parts@[i])@ == comma_parts(list@)[i],
            origins@.len() == at,
            forall|i: int| 0 <= i < at ==> (#[trigger] origins@[i])@ == listed_origins(list@)[i],
            forall|i: int| 0 <= i < at ==> is_header_text(#[trigger] listed_origins(list@)[i]),
        decreases parts@.len() - at,
    {
        let origin = trim(parts[at].as_str());
        assert(origin@ == listed_origins(list@)[at as int]);
        if !header_value_accepts(origin.as_str()) {
            return Err(AppError::ConfigError(String::from_str("Invalid CORS origin")));
        }
        origins.push(origin);
        at += 1;
    }
    assert(texts(origins@) =~= listed_origins(list@));
    Ok(origins)
}

/// Whether a setting of origins admits every origin: it does where it is
/// absent or a lone asterisk.
pub open spec fn admits_any_origin(setting: Option<String>) -> bool {
    match setting {
        Some(text) => text@ == "*"@,
        None => true,
    }
}

/// The origins that a setting admits, where the setting can be read: every
/// origin, or those of its list.
pub open spec fn origins_outcome(setting: Option<String>) -> Option<Option<Seq<Seq<char>>>> {
    if admits_any_origin(setting) {
        Some(None)
    } else if origins_are_header_texts(setting->0@) {
        Some(Some(listed_origins(setting->0@)))
    } else {
        None
    }
}

/// The origins that an `AllowedOrigins` admits: `None` for every origin,
/// else the texts of its list.
pub open spec fn origins_of(origins: AllowedOrigins) -> Option<Seq<Seq<char>>> {
    match origins {
        AllowedOrigins::Any => None,
        AllowedOrigins::List(list) => Some(texts(list@)),
    }
}

/// The origins that may call the service: every origin where the setting
/// is absent or a lone asterisk, else those that the setting lists between
/// commas; a `ConfigError` where one of these cannot be the value of a
/// header.
pub fn resolve_allowed_origins(setting: &Option<String>) -> (res: Result<AllowedOrigins, AppError>)
    ensures
        res is Ok <==> origins_outcome(*setting) is Some,
        res is Ok ==> origins_of(res->Ok_0) == origins_outcome(*setting)->0,
        res is Err ==> res->Err_0 is ConfigError && res->Err_0->ConfigError_0@
            == "Invalid CORS origin"@,
{
    match setting {
        Some(text) => {
            let any = String::from_str("*");
            if *text == any {
                Ok(AllowedOrigins::Any)
            } else {
                match parse_origin_list(text.as_str()) {
                    Ok(list) => Ok(AllowedOrigins::List(list)),
                    Err(error) => Err(error),
                }
            }
        },
        None => Ok(AllowedOrigins::Any),
    }
}

/// The settings of cross-origin access. They fail, with a `ConfigError`,
/// only where an origin of the list cannot be the value of a header: a
/// credentials flag or a number of seconds that cannot be read gives way to
/// its default.
pub fn load_cors_config(settings: &Settings) -> (res: Result<CorsConfig, AppError>)
    ensures
        res is Ok <==> origins_outcome(settings.cors_allowed_origins) is Some,
        res is Ok ==> {
            let cors = res->Ok_0;
            &&& origins_of(cors.allowed_origins) == origins_outcome(
                settings.cors_allowed_origins,
            )->0
            &&& cors.allow_credentials == credentials_allowed(settings.cors_allow_credentials)
            &&& cors.max_age_seconds == max_age_outcome(seconds_read(settings.cors_max_age))
        },
        res is Err ==> res->Err_0 is ConfigError && res->Err_0->ConfigError_0@
            == "Invalid CORS origin"@,
{
    let allowed_origins = match resolve_allowed_origins(&settings.cors_allowed_origins) {
        Ok(origins) => origins,
        Err(error) => {
            return Err(error);
        },
    };
    Ok(
        CorsConfig {
            allowed_origins,
            allow_credentials: resolve_allow_credentials(&settings.cors_allow_credentials),
            max_age_seconds: resolve_max_age(&settings.cors_max_age),
        },
    )
}

/// The settings of a service. They fail with a `ConfigError`: where the
/// address of the store is absent; else where the port spells no number;
/// else where an origin of the list cannot be the value of a header; and in
/// no other case.
pub fn load_config(settings: &Settings) -> (res: Result<AppConfig, AppError>)
    ensures
        res is Ok <==> {
            &&& settings.database_url is Some
            &&& port_outcome(port_read(settings.port)) is Some
            &&& origins_outcome(settings.cors_allowed_origins) is Some
        },
        res is Ok ==> {
            let config = res->Ok_0;
            &&& config.database_url@ == settings.database_url->0@
            &&& config.port == port_outcome(port_read(settings.port))->0
            &&& origins_of(config.cors.allowed_origins) == origins_outcome(
                settings.cors_allowed_origins,
            )->0
            &&& config.cors.allow_credentials == credentials_allowed(
                settings.cors_allow_credentials,
            )
            &&& config.cors.max_age_seconds == max_age_outcome(
                seconds_read(settings.cors_max_age),
            )
        },
        res is Err ==> res->Err_0 is ConfigError && res->Err_0->ConfigError_0@ == (
        if settings.database_url is None {
            "DATABASE_URL must be set"@
        } else if port_outcome(port_read(settings.port)) is None {
            "Invalid PORT"@
        } else {
            "Invalid CORS origin"@
        }),
{
    let database_url = match &settings.database_url {
        Some(url) => url.clone(),
        None => {
            return Err(AppError::ConfigError(String::from_str("DATABASE_URL must be set")));
        },
    };
    let port = match resolve_port(&settings.port) {
        Ok(port) => port,
        Err(error) => {
            return Err(error);
        },
    };
    let cors = match load_cors_config(settings) {
        Ok(cors) => cors,
        Err(error) => {
            return Err(error);
        },
    };
    Ok(AppConfig { database_url, port, cors })
}

} // verus!
