//! Settings of the ingestion pipeline and their defaults.

use vstd::prelude::*;

verus! {

/// Resolution, in dots per inch, at which pages are rasterized when none is configured.
pub const DEFAULT_DPI: i32 = 300;

/// The language hint used when none is configured: `eng`.
pub open spec fn default_language() -> Seq<char> {
    seq!['e', 'n', 'g']
}

/// How to reach the persistence backend.
#[derive(Debug, PartialEq, Eq)]
pub struct DbConfig {
    pub hostname: String,
    pub username: String,
    pub password: String,
}

/// Settings of the recognition fallback.
#[derive(Debug, PartialEq, Eq)]
pub struct OcrConfig {
    /// Language hint handed to the recognition engine.
    pub lang: String,
    /// Resolution at which pages are rasterized.
    pub dpi: i32,
}

/// Where documents arrive and where they are kept.
#[derive(Debug, PartialEq, Eq)]
pub struct PathsConfig {
    /// Root of permanent storage.
    pub data: String,
    /// The watched inbox.
    pub consumption: String,
}

/// All settings of one pipeline.
#[derive(Debug, PartialEq, Eq)]
pub struct Config {
    pub db: DbConfig,
    pub ocr: OcrConfig,
    pub paths: PathsConfig,
}

impl DbConfig {
    /// True of the settings that `new` returns: every field empty.
    pub open spec fn is_default(&self) -> bool {
        &&& self.hostname@ == Seq::<char>::empty()
        &&& self.username@ == Seq::<char>::empty()
        &&& self.password@ == Seq::<char>::empty()
    }

    pub fn new() -> (c: DbConfig)
        ensures
            c.is_default(),
    {
        DbConfig { hostname: String::new(), username: String::new(), password: String::new() }
    }
}

/// The address of the database of `db`: scheme, user, password, host and
/// the port 5432.
pub open spec fn connection_url_of(db: &DbConfig) -> Seq<char> {
    seq!['p', 'o', 's', 't', 'g', 'r', 'e', 's', ':', '/', '/'] + db.username@ + seq![':']
        + db.password@ + seq!['@'] + db.hostname@ + seq![':', '5', '4', '3', '2']
}

impl DbConfig {
    /// The address under which the database is reached.
    pub fn connection_url(&self) -> (url: String)
        ensures
            url@ == connection_url_of(self),
    {
        proof {
            reveal_strlit("postgres://");
            reveal_strlit(":");
            reveal_strlit("@");
            reveal_strlit(":5432");
        }
        let mut url = String::from_str("postgres://");
        url.append(self.username.as_str());
        url.append(":");
        url.append(self.password.as_str());
        url.append("@");
        url.append(self.hostname.as_str());
        url.append(":5432");
        assert(url@ =~= connection_url_of(self));
        url
    }
}

impl OcrConfig {
    /// True of the settings that `new` returns: `eng` at 300 dpi.
    pub open spec fn is_default(&self) -> bool {
        &&& self.lang@ == default_language()
        &&& self.dpi == DEFAULT_DPI
    }

    pub fn new() -> (c: OcrConfig)
        ensures
            c.is_default(),
    {
        proof {
            reveal_strlit("eng");
        }
        let lang = String::from_str("eng");
        assert(lang@ =~= default_language());
        OcrConfig { lang, dpi: DEFAULT_DPI }
    }
}

impl PathsConfig {
    /// True of the settings that `new` returns: both paths empty.
    pub open spec fn is_default(&self) -> bool {
        &&& self.data@ == Seq::<char>::empty()
        &&& self.consumption@ == Seq::<char>::empty()
    }

    pub fn new() -> (c: PathsConfig)
        ensures
            c.is_default(),
    {
        PathsConfig { data: String::new(), consumption: String::new() }
    }
}

impl Config {
    /// True of the settings that `new` returns: the defaults of every section.
    pub open spec fn is_default(&self) -> bool {
        &&& self.db.is_default()
        &&& self.ocr.is_default()
        &&& self.paths.is_default()
    }

    pub fn new() -> (c: Config)
        ensures
            c.is_default(),
    {
        Config { db: DbConfig::new(), ocr: OcrConfig::new(), paths: PathsConfig::new() }
    }
}

} // verus!
