//! Settings, read from the variables of the environment with a default for
//! all but the database.

use vstd::prelude::*;
use crate::text::{
    given, text_view, texts_of, chars_of, decimal_text, push_decimal, push_text, slice_of, split_on, split_text, str_eq,
    lemma_lowercase_of_ascii, lowercase, string_of, to_lowercase, trim, trimmed, views_of,
};

verus! {

/// Whether the portal runs for development or in production.
#[derive(Debug, Clone, Copy, PartialEq, Eq, Structural)]
pub enum Environment {
    Development,
    Production,
}

/// The settings of the portal.
#[derive(Debug, Clone)]
pub struct Config {
    /// Address that the server binds to.
    pub host: String,
    /// Port that the server binds to.
    pub port: u16,
    /// Where the database is.
    pub database_url: String,
    /// Directory under which uploads are kept.
    pub upload_dir: String,
    /// Directory of the frontend's files.
    pub frontend_dir: String,
    /// Hours that a session lasts.
    pub session_expiry_hours: u64,
    /// Most bytes that one upload may have.
    pub max_upload_size: usize,
    /// Origins that may call the portal from a browser.
    pub cors_origins: Vec<String>,
    /// Development or production.
    pub environment: Environment,
    /// Beginnings of the addresses of peers that are trusted to say whom
    /// they forward for.
    pub trusted_proxies: Vec<String>,
}

/// Why the settings could not be read.
#[derive(Debug)]
pub enum ConfigError {
    Missing(String),
    Invalid(String),
}

impl ConfigError {
    /// The sentence of the error.
    pub open spec fn message_text(self) -> Seq<char> {
        match self {
            ConfigError::Missing(what) => "Missing configuration: "@ + what@,
            ConfigError::Invalid(what) => "Invalid configuration: "@ + what@,
        }
    }

    /// The sentence of the error.
    pub fn message(&self) -> (s: String)
        ensures
            s@ == self.message_text(),
    {
        let mut s = String::new();
        match self {
            ConfigError::Missing(what) => {
                push_text(&mut s, "Missing configuration: ");
                push_text(&mut s, what.as_str());
            },
            ConfigError::Invalid(what) => {
                push_text(&mut s, "Invalid configuration: ");
                push_text(&mut s, what.as_str());
            },
        }
        s
    }
}

impl Config {
    /// Whether the portal runs in production.
    pub fn is_production(&self) -> (r: bool)
        ensures
            r == (self.environment == Environment::Production),
    {
        match self.environment {
            Environment::Production => true,
            Environment::Development => false,
        }
    }

    /// The address that the server listens on: host, colon, port.
    pub fn server_addr(&self) -> (addr: String)
        ensures
            addr@ == self.host@ + ":"@ + decimal_text(self.port as nat),
    {
        let mut addr = String::new();
        push_text(&mut addr, self.host.as_str());
        push_text(&mut addr, ":");
        push_decimal(&mut addr, self.port as u64);
        proof {
            assert(addr@ =~= self.host@ + ":"@ + decimal_text(self.port as nat));
        }
        addr
    }
}

// ---------------------------------------------------------------------------
// Variables
// ---------------------------------------------------------------------------

/// The variables of the environment, by name and value.
#[derive(Debug)]
pub struct Variables {
    pub pairs: Vec<(String, String)>,
}

/// The value of the first variable of the name from position `from` on.
pub open spec fn lookup_from(pairs: Seq<(String, String)>, name: Seq<char>, from: int) -> Option<
    Seq<char>,
>
    decreases pairs.len() - from,
{
    if from < 0 || from >= pairs.len() {
        None
    } else if pairs[from].0@ == name {
        Some(pairs[from].1@)
    } else {
        lookup_from(pairs, name, from + 1)
    }
}

/// The value of a variable, if it is set.
pub open spec fn lookup(pairs: Seq<(String, String)>, name: Seq<char>) -> Option<Seq<char>> {
    lookup_from(pairs, name, 0)
}

/// The first of two values that is there.
pub open spec fn or_else(first: Option<Seq<char>>, second: Option<Seq<char>>) -> Option<Seq<char>> {
    match first {
        Some(v) => Some(v),
        None => second,
    }
}

/// The value that is there, else the default.
pub open spec fn or_default(value: Option<Seq<char>>, default: Seq<char>) -> Seq<char> {
    match value {
        Some(v) => v,
        None => default,
    }
}

impl Variables {
    /// The value of a variable, if it is set.
    pub fn get(&self, name: &str) -> (value: Option<&str>)
        ensures
            given(value) == lookup(self.pairs@, name@),
    {
        let mut i: usize = 0;
        while i < self.pairs.len()
            invariant
                i <= self.pairs.len(),
                lookup(self.pairs@, name@) == lookup_from(self.pairs@, name@, i as int),
            decreases self.pairs.len() - i,
        {
            if str_eq(self.pairs[i].0.as_str(), name) {
                return Some(self.pairs[i].1.as_str());
            }
            i = i + 1;
        }
        None
    }

    /// The value of the first of two variables that is set.
    pub fn get_either(&self, first: &str, second: &str) -> (value: Option<&str>)
        ensures
            given(value) == or_else(lookup(self.pairs@, first@), lookup(self.pairs@, second@)),
    {
        match self.get(first) {
            Some(v) => Some(v),
            None => self.get(second),
        }
    }
}

// ---------------------------------------------------------------------------
// Numbers
// ---------------------------------------------------------------------------

/// A decimal digit.
pub open spec fn is_digit(c: char) -> bool {
    '0' <= c && c <= '9'
}

/// The number that decimal digits stand for.
pub open spec fn digits_value(digits: Seq<char>) -> nat
    decreases digits.len(),
{
    if digits.len() == 0 {
        0
    } else {
        digits_value(digits.drop_last()) * 10 + (digits.last() as nat - '0' as nat) as nat
    }
}

/// The digits of a number as it is written: what follows a plus sign at the
/// start, else all of it.
pub open spec fn number_digits(s: Seq<char>) -> Seq<char> {
    if s.len() > 0 && s[0] == '+' {
        s.skip(1)
    } else {
        s
    }
}

/// The number that a text stands for, if it is one and is at most `max`: an
/// optional plus sign and then digits, at least one and nothing else.
pub open spec fn parsed_number(s: Seq<char>, max: u64) -> Option<u64> {
    let digits = number_digits(s);
    if digits.len() == 0 || !(forall|i: int| 0 <= i < digits.len() ==> is_digit(#[trigger] digits[i]))
        || digits_value(digits) > max {
        None
    } else {
        Some(digits_value(digits) as u64)
    }
}

fn digit_value(c: char) -> (r: Option<u64>)
    ensures
        r is Some <==> is_digit(c),
        r matches Some(d) ==> d == (c as nat - '0' as nat) && d <= 9,
{
    let n: u32 = c as u32;
    if 0x30 <= n && n <= 0x39 {
        Some((n - 0x30) as u64)
    } else {
        None
    }
}

/// The number that a text stands for, if it is one and is at most `max`.
pub fn parse_number(s: &str, max: u64) -> (r: Option<u64>)
    ensures
        r == parsed_number(s@, max),
{
    let text = chars_of(s);
    let start: usize = if text.len() > 0 && text[0] == '+' {
        1
    } else {
        0
    };
    let digits = slice_of(text.as_slice(), start, text.len());
    proof {
        assert(digits@ =~= number_digits(s@));
    }
    if digits.len() == 0 {
        return None;
    }
    let mut value: u64 = 0;
    let mut overflow = false;
    let mut i: usize = 0;
    while i < digits.len()
        invariant
            i <= digits.len(),
            digits@ == number_digits(s@),
            digits@.len() > 0,
            forall|k: int| 0 <= k < i ==> is_digit(#[trigger] digits@[k]),
            !overflow ==> value == digits_value(digits@.take(i as int)) && value <= max,
            overflow ==> digits_value(digits@.take(i as int)) > max,
        decreases digits.len() - i,
    {
        let c = digits[i];
        let d: u64 = match digit_value(c) {
            Some(d) => d,
            None => {
                proof {
                    assert(!is_digit(digits@[i as int]));
                }
                return None;
            },
        };
        proof {
            assert(is_digit(digits@[i as int]));
            assert(digits@.take(i + 1).drop_last() =~= digits@.take(i as int));
            assert(digits@.take(i + 1).last() == c);
        }
        if !overflow {
            if d > max || value > (max - d) / 10 {
                overflow = true;
                proof {
                    assert(value * 10 + d > max) by (nonlinear_arith)
                        requires
                            value > (max - d) / 10 || d > max,
                            d <= 9,
                    ;
                }
            } else {
                proof {
                    assert(value * 10 + d <= max) by (nonlinear_arith)
                        requires
                            value <= (max - d) / 10,
                            d <= max,
                    ;
                }
                value = value * 10 + d;
            }
        } else {
            proof {
                let before = digits_value(digits@.take(i as int));
                assert(before * 10 + d >= before) by (nonlinear_arith);
            }
        }
        i = i + 1;
    }
    proof {
        assert(digits@.take(i as int) =~= digits@);
    }
    if overflow {
        None
    } else {
        Some(value)
    }
}

// ---------------------------------------------------------------------------
// Lists and paths
// ---------------------------------------------------------------------------

/// The items of a list that is separated by commas, each trimmed.
pub open spec fn list_items(s: Seq<char>) -> Seq<Seq<char>> {
    Seq::new(split_text(s, ',').len(), |i: int| trimmed(split_text(s, ',')[i]))
}

/// The items that are not empty, in their order.
pub open spec fn non_empty(items: Seq<Seq<char>>) -> Seq<Seq<char>>
    decreases items.len(),
{
    if items.len() == 0 {
        items
    } else if items.last().len() == 0 {
        non_empty(items.drop_last())
    } else {
        non_empty(items.drop_last()).push(items.last())
    }
}

/// The items of a list that is separated by commas, each trimmed; with
/// `keep_empty` unset, the empty ones are left out.
pub fn parse_list(s: &str, keep_empty: bool) -> (items: Vec<String>)
    ensures
        texts_of(items@) == if keep_empty {
            list_items(s@)
        } else {
            non_empty(list_items(s@))
        },
{
    let text = chars_of(s);
    let pieces = split_on(text.as_slice(), ',');
    let mut items: Vec<String> = Vec::new();
    let mut i: usize = 0;
    proof {
        assert(list_items(s@).take(0) =~= Seq::<Seq<char>>::empty());
        assert(texts_of(items@) =~= Seq::<Seq<char>>::empty());
    }
    while i < pieces.len()
        invariant
            i <= pieces.len(),
            views_of(pieces@) == split_text(s@, ','),
            texts_of(items@) == if keep_empty {
                list_items(s@).take(i as int)
            } else {
                non_empty(list_items(s@).take(i as int))
            },
        decreases pieces.len() - i,
    {
        let item = trim(pieces[i].as_slice());
        proof {
            assert(views_of(pieces@)[i as int] == pieces@[i as int]@);
            assert(list_items(s@).take(i + 1).drop_last() =~= list_items(s@).take(i as int));
            assert(list_items(s@).take(i + 1).last() == item@);
        }
        let ghost before = texts_of(items@);
        if keep_empty || item.len() > 0 {
            items.push(string_of(item.as_slice()));
            proof {
                assert(texts_of(items@) =~= before.push(item@));
                if keep_empty {
                    assert(list_items(s@).take(i + 1) =~= list_items(s@).take(i as int).push(
                        item@,
                    ));
                }
            }
        }
        i = i + 1;
    }
    proof {
        assert(list_items(s@).take(i as int) =~= list_items(s@));
    }
    items
}

/// A path without the slashes at its end.
pub open spec fn without_trailing_slashes(s: Seq<char>) -> Seq<char>
    decreases s.len(),
{
    if s.len() > 0 && s.last() == '/' {
        without_trailing_slashes(s.drop_last())
    } else {
        s
    }
}

fn strip_trailing_slashes(s: &str) -> (r: Vec<char>)
    ensures
        r@ == without_trailing_slashes(s@),
{
    let text = chars_of(s);
    let mut end: usize = text.len();
    proof {
        assert(text@.take(end as int) =~= text@);
    }
    while end > 0 && text[end - 1] == '/'
        invariant
            end <= text.len(),
            without_trailing_slashes(text@) == without_trailing_slashes(text@.take(end as int)),
        decreases end,
    {
        proof {
            assert(text@.take(end as int).drop_last() =~= text@.take(end - 1));
            if end == text.len() {
                assert(text@.take(end as int) =~= text@);
            }
        }
        end = end - 1;
    }
    proof {
        if end == text.len() {
            assert(text@.take(end as int) =~= text@);
        }
    }
    slice_of(text.as_slice(), 0, end)
}

// ---------------------------------------------------------------------------
// Reading the settings
// ---------------------------------------------------------------------------

/// Development or production, as the variable `ENVIRONMENT` says: production
/// for `production` and `prod` in any case of the letters, else development.
pub open spec fn environment_of(pairs: Seq<(String, String)>) -> Environment {
    let named = lowercase(or_default(lookup(pairs, "ENVIRONMENT"@), "development"@));
    if named == "production"@ || named == "prod"@ {
        Environment::Production
    } else {
        Environment::Development
    }
}

/// The case of the letters does not matter: `PROD` and `Production` mean
/// production as `prod` and `production` do.
pub proof fn lemma_production_in_any_case(pairs: Seq<(String, String)>)
    requires
        lookup(pairs, "ENVIRONMENT"@) matches Some(named) && (named == "PROD"@ || named
            == "Production"@ || named == "prod"@ || named == "production"@),
    ensures
        environment_of(pairs) == Environment::Production,
{
    reveal_strlit("PROD");
    reveal_strlit("Production");
    reveal_strlit("prod");
    reveal_strlit("production");
    let named = lookup(pairs, "ENVIRONMENT"@)->0;
    if named == "PROD"@ || named == "prod"@ {
        lemma_lowercase_of_ascii(named, "prod"@);
    } else {
        lemma_lowercase_of_ascii(named, "production"@);
    }
}

/// One part of the database's address: the first of two variables that is
/// set.
pub open spec fn part(pairs: Seq<(String, String)>, first: Seq<char>, second: Seq<char>) -> Option<
    Seq<char>,
> {
    or_else(lookup(pairs, first), lookup(pairs, second))
}

/// The database's address put together from its parts, where host, user,
/// password and name are set; the port is 5432 where it is not set.
pub open spec fn composed_database_url(pairs: Seq<(String, String)>) -> Option<Seq<char>> {
    let host = part(pairs, "DATABASE_SERVER_HOST"@, "APP_DATABASE_SERVER"@);
    let port = or_default(part(pairs, "DATABASE_SERVER_PORT"@, "APP_DATABASE_PORT"@), "5432"@);
    let user = part(pairs, "DATABASE_SERVER_USER"@, "APP_DATABASE_USER"@);
    let password = part(pairs, "DATABASE_PASSWORD"@, "APP_DATABASE_PASSWORD"@);
    let name = part(pairs, "DATABASE_DB"@, "APP_DATABASE_DB"@);
    if host is Some && user is Some && password is Some && name is Some {
        Some(
            "postgres://"@ + user->0 + ":"@ + password->0 + "@"@ + host->0 + ":"@ + port + "/"@
                + name->0,
        )
    } else {
        None
    }
}

/// The database's address: `DATABASE_URL`, else `DATABASE_SERVER_FULL`, else
/// the address put together from its parts.
pub open spec fn database_url_of(pairs: Seq<(String, String)>) -> Option<Seq<char>> {
    or_else(
        or_else(lookup(pairs, "DATABASE_URL"@), lookup(pairs, "DATABASE_SERVER_FULL"@)),
        composed_database_url(pairs),
    )
}

/// The upload directory: `UPLOAD_DIR`, else `uploads` under `DATA_PATH`, else
/// `/app/uploads`.
pub open spec fn upload_dir_of(pairs: Seq<(String, String)>) -> Seq<char> {
    match lookup(pairs, "UPLOAD_DIR"@) {
        Some(dir) => dir,
        None => match lookup(pairs, "DATA_PATH"@) {
            Some(path) => without_trailing_slashes(path) + "/uploads"@,
            None => "/app/uploads"@,
        },
    }
}

/// The number that a variable holds, where it holds one that is at most
/// `max`; else the default.
pub open spec fn number_of(
    pairs: Seq<(String, String)>,
    name: Seq<char>,
    max: u64,
    default: u64,
) -> u64 {
    match lookup(pairs, name) {
        Some(text) => match parsed_number(text, max) {
            Some(n) => n,
            None => default,
        },
        None => default,
    }
}

/// What is told when the database's address is missing.
pub open spec fn missing_database() -> Seq<char> {
    "DATABASE_URL, DATABASE_SERVER_FULL, or DATABASE_SERVER_HOST + DATABASE_SERVER_PORT + DATABASE_SERVER_USER + DATABASE_PASSWORD + DATABASE_DB is required"@
}

/// The settings are those that the variables give.
pub open spec fn configured(pairs: Seq<(String, String)>, config: Config) -> bool {
    &&& config.host@ == or_default(lookup(pairs, "HOST"@), "0.0.0.0"@)
    &&& config.port == number_of(pairs, "PORT"@, 65535, 8080)
    &&& Some(config.database_url@) == database_url_of(pairs)
    &&& config.upload_dir@ == upload_dir_of(pairs)
    &&& config.frontend_dir@ == or_default(lookup(pairs, "FRONTEND_DIR"@), "./frontend"@)
    &&& config.session_expiry_hours == number_of(
        pairs,
        "SESSION_EXPIRY_HOURS"@,
        0xffff_ffff_ffff_ffff,
        8,
    )
    &&& config.max_upload_size == number_of(
        pairs,
        "MAX_UPLOAD_SIZE"@,
        usize::MAX as u64,
        52428800,
    )
    &&& texts_of(config.cors_origins@) == match lookup(pairs, "CORS_ORIGINS"@) {
        Some(list) => list_items(list),
        None => seq!["http://localhost:8080"@],
    }
    &&& config.environment == environment_of(pairs)
    &&& texts_of(config.trusted_proxies@) == match lookup(pairs, "TRUSTED_PROXIES"@) {
        Some(list) => non_empty(list_items(list)),
        None => Seq::<Seq<char>>::empty(),
    }
}

fn number_from(variables: &Variables, name: &str, max: u64, default: u64) -> (n: u64)
    requires
        default <= max,
    ensures
        n == number_of(variables.pairs@, name@, max, default),
        n <= max,
{
    match variables.get(name) {
        Some(text) => match parse_number(text, max) {
            Some(n) => n,
            None => default,
        },
        None => default,
    }
}

fn text_from(variables: &Variables, name: &str, default: &str) -> (s: String)
    ensures
        s@ == or_default(lookup(variables.pairs@, name@), default@),
{
    match variables.get(name) {
        Some(text) => text.to_owned(),
        None => default.to_owned(),
    }
}

fn compose_database_url(variables: &Variables) -> (url: Option<String>)
    ensures
        text_view(url) == composed_database_url(variables.pairs@),
{
    let host = match variables.get_either("DATABASE_SERVER_HOST", "APP_DATABASE_SERVER") {
        Some(v) => v,
        None => {
            return None;
        },
    };
    let port = match variables.get_either("DATABASE_SERVER_PORT", "APP_DATABASE_PORT") {
        Some(v) => v,
        None => "5432",
    };
    let user = match variables.get_either("DATABASE_SERVER_USER", "APP_DATABASE_USER") {
        Some(v) => v,
        None => {
            return None;
        },
    };
    let password = match variables.get_either("DATABASE_PASSWORD", "APP_DATABASE_PASSWORD") {
        Some(v) => v,
        None => {
            return None;
        },
    };
    let name = match variables.get_either("DATABASE_DB", "APP_DATABASE_DB") {
        Some(v) => v,
        None => {
            return None;
        },
    };
    let mut url = String::new();
    push_text(&mut url, "postgres://");
    push_text(&mut url, user);
    push_text(&mut url, ":");
    push_text(&mut url, password);
    push_text(&mut url, "@");
    push_text(&mut url, host);
    push_text(&mut url, ":");
    push_text(&mut url, port);
    push_text(&mut url, "/");
    push_text(&mut url, name);
    proof {
        assert(url@ =~= "postgres://"@ + user@ + ":"@ + password@ + "@"@ + host@ + ":"@ + port@
            + "/"@ + name@);
    }
    Some(url)
}

impl Config {
    /// The settings that the variables of the environment give. Only the
    /// database's address has no default: without it there are no settings.
    pub fn from_env(variables: &Variables) -> (r: Result<Config, ConfigError>)
        ensures
            match r {
                Ok(config) => configured(variables.pairs@, config),
                Err(e) => database_url_of(variables.pairs@) is None && (e matches ConfigError::Missing(
                    what,
                ) && what@ == missing_database()),
            },
    {
        let named = to_lowercase(
            match variables.get("ENVIRONMENT") {
                Some(v) => v,
                None => "development",
            },
        );
        let environment = if str_eq(named.as_str(), "production") || str_eq(
            named.as_str(),
            "prod",
        ) {
            Environment::Production
        } else {
            Environment::Development
        };
        let database_url = match variables.get_either("DATABASE_URL", "DATABASE_SERVER_FULL") {
            Some(url) => url.to_owned(),
            None => match compose_database_url(variables) {
                Some(url) => url,
                None => {
                    return Err(
                        ConfigError::Missing(
                            "DATABASE_URL, DATABASE_SERVER_FULL, or DATABASE_SERVER_HOST + DATABASE_SERVER_PORT + DATABASE_SERVER_USER + DATABASE_PASSWORD + DATABASE_DB is required".to_owned(),
                        ),
                    );
                },
            },
        };
        let upload_dir = match variables.get("UPLOAD_DIR") {
            Some(dir) => dir.to_owned(),
            None => match variables.get("DATA_PATH") {
                Some(path) => {
                    let base = strip_trailing_slashes(path);
                    let mut dir = string_of(base.as_slice());
                    push_text(&mut dir, "/uploads");
                    dir
                },
                None => "/app/uploads".to_owned(),
            },
        };
        let cors_origins = match variables.get("CORS_ORIGINS") {
            Some(list) => parse_list(list, true),
            None => {
                let mut origins: Vec<String> = Vec::new();
                origins.push("http://localhost:8080".to_owned());
                proof {
                    assert(texts_of(origins@) =~= seq!["http://localhost:8080"@]);
                }
                origins
            },
        };
        let trusted_proxies = match variables.get("TRUSTED_PROXIES") {
            Some(list) => parse_list(list, false),
            None => {
                let none: Vec<String> = Vec::new();
                proof {
                    assert(texts_of(none@) =~= Seq::<Seq<char>>::empty());
                }
                none
            },
        };
        let port = number_from(variables, "PORT", 65535, 8080);
        let max_upload_size = number_from(variables, "MAX_UPLOAD_SIZE", usize::MAX as u64, 52428800);
        Ok(
            Config {
                host: text_from(variables, "HOST", "0.0.0.0"),
                port: port as u16,
                database_url,
                upload_dir,
                frontend_dir: text_from(variables, "FRONTEND_DIR", "./frontend"),
                session_expiry_hours: number_from(
                    variables,
                    "SESSION_EXPIRY_HOURS",
                    0xffff_ffff_ffff_ffff,
                    8,
                ),
                max_upload_size: max_upload_size as usize,
                cors_origins,
                environment,
                trusted_proxies,
            },
        )
    }
}

} // verus!
