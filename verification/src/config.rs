//! Configuration of folder pairs, defaults and retention, and its validation.

use vstd::prelude::*;

use crate::error::Error;
use crate::paths::{ends_with, no_prefix_marks, path_push, project_data_dir, pushed_with};
use crate::text::{clone_opt_string, concat2, concat3, is_blank, is_blank_text, str_eq};

verus! {

pub const DEFAULT_RETENTION_DAYS: u32 = 4;

pub const DEFAULT_CONCURRENCY: usize = 4;

pub const DEFAULT_RETRY_COUNT: u32 = 3;

pub const DEFAULT_RETRY_BACKOFF_MS: u64 = 500;

pub const DEFAULT_PURGE_GRACE_DAYS: u32 = 14;

/// How source and destination files are compared.
#[derive(Debug, Clone, Copy, PartialEq, Eq, Structural)]
pub enum CompareMode {
    SizeMtime,
    Hash,
}

impl Default for CompareMode {
    fn default() -> (r: Self)
        ensures
            r == CompareMode::SizeMtime,
    {
        CompareMode::SizeMtime
    }
}

/// What retention does with a qualifying source file.
#[derive(Debug, Clone, Copy, PartialEq, Eq, Structural)]
pub enum RetentionMode {
    Quarantine,
    Permanent,
}

impl Default for RetentionMode {
    fn default() -> (r: Self)
        ensures
            r == RetentionMode::Quarantine,
    {
        RetentionMode::Quarantine
    }
}

/// Retention policy for a folder pair.
#[derive(Debug)]
pub struct RetentionConfig {
    pub enabled: bool,
    pub dry_run: bool,
    pub retention_days: u32,
    pub mode: RetentionMode,
    pub quarantine_dir: Option<String>,
    pub purge_grace_days: u32,
}

impl Clone for RetentionConfig {
    fn clone(&self) -> (r: Self)
        ensures
            r == *self,
    {
        RetentionConfig {
            enabled: self.enabled,
            dry_run: self.dry_run,
            retention_days: self.retention_days,
            mode: self.mode,
            quarantine_dir: clone_opt_string(&self.quarantine_dir),
            purge_grace_days: self.purge_grace_days,
        }
    }
}

/// The safe retention policy: disabled, dry run, quarantine after four days.
pub open spec fn safe_retention(r: RetentionConfig) -> bool {
    &&& !r.enabled
    &&& r.dry_run
    &&& r.retention_days == DEFAULT_RETENTION_DAYS
    &&& r.mode == RetentionMode::Quarantine
    &&& r.quarantine_dir is None
    &&& r.purge_grace_days == DEFAULT_PURGE_GRACE_DAYS
}

impl Default for RetentionConfig {
    fn default() -> (r: Self)
        ensures
            safe_retention(r),
    {
        RetentionConfig {
            enabled: false,
            dry_run: true,
            retention_days: DEFAULT_RETENTION_DAYS,
            mode: RetentionMode::Quarantine,
            quarantine_dir: None,
            purge_grace_days: DEFAULT_PURGE_GRACE_DAYS,
        }
    }
}

/// Value of an omitted `dry_run`.
pub fn default_true() -> (r: bool)
    ensures
        r,
{
    true
}

/// Value of an omitted `retention_days`.
pub fn default_retention_days() -> (r: u32)
    ensures
        r == DEFAULT_RETENTION_DAYS,
{
    DEFAULT_RETENTION_DAYS
}

/// Value of an omitted `purge_grace_days`.
pub fn default_purge_grace_days() -> (r: u32)
    ensures
        r == DEFAULT_PURGE_GRACE_DAYS,
{
    DEFAULT_PURGE_GRACE_DAYS
}

/// Value of an omitted `concurrency`.
pub fn default_concurrency() -> (r: usize)
    ensures
        r == DEFAULT_CONCURRENCY,
{
    DEFAULT_CONCURRENCY
}

/// Value of an omitted `retry_count`.
pub fn default_retry_count() -> (r: u32)
    ensures
        r == DEFAULT_RETRY_COUNT,
{
    DEFAULT_RETRY_COUNT
}

/// Value of an omitted `retry_backoff_ms`.
pub fn default_retry_backoff_ms() -> (r: u64)
    ensures
        r == DEFAULT_RETRY_BACKOFF_MS,
{
    DEFAULT_RETRY_BACKOFF_MS
}

/// Value of an omitted `heartbeat_secs`.
pub fn default_heartbeat_secs() -> (r: u64)
    ensures
        r == 10,
{
    10
}

/// Value of an omitted `log_level`.
pub fn default_log_level() -> (r: String)
    ensures
        r@ == "info"@,
{
    String::from_str("info")
}

/// Settings that apply to every pair unless the pair overrides them.
#[derive(Debug)]
pub struct DefaultsConfig {
    pub concurrency: usize,
    pub retry_count: u32,
    pub retry_backoff_ms: u64,
    pub compare_mode: CompareMode,
    pub retention: RetentionConfig,
    pub heartbeat_secs: u64,
}

impl Default for DefaultsConfig {
    fn default() -> (r: Self)
        ensures
            r.concurrency == DEFAULT_CONCURRENCY,
            r.retry_count == DEFAULT_RETRY_COUNT,
            r.retry_backoff_ms == DEFAULT_RETRY_BACKOFF_MS,
            r.compare_mode == CompareMode::SizeMtime,
            safe_retention(r.retention),
            r.heartbeat_secs == 10,
    {
        DefaultsConfig {
            concurrency: DEFAULT_CONCURRENCY,
            retry_count: DEFAULT_RETRY_COUNT,
            retry_backoff_ms: DEFAULT_RETRY_BACKOFF_MS,
            compare_mode: CompareMode::SizeMtime,
            retention: RetentionConfig::default(),
            heartbeat_secs: 10,
        }
    }
}

/// One source folder synced one way into one destination folder.
#[derive(Debug)]
pub struct PairConfig {
    pub id: String,
    pub source: String,
    pub destination: String,
    pub concurrency: Option<usize>,
    pub retention: Option<RetentionConfig>,
}

/// The whole configuration.
#[derive(Debug)]
pub struct Config {
    pub state_db: Option<String>,
    pub log_level: String,
    pub audit_log: Option<String>,
    pub defaults: DefaultsConfig,
    pub pairs: Vec<PairConfig>,
}

/// The message of a retention policy that quarantines for real without a quarantine
/// directory, if `r` is such a policy.
pub open spec fn retention_error(r: RetentionConfig, pair_id: Seq<char>) -> Option<Seq<char>> {
    if r.enabled && !r.dry_run && r.mode == RetentionMode::Quarantine && (r.quarantine_dir is None
        || r.quarantine_dir->0@.len() == 0) {
        Some(
            "pair "@ + pair_id
                + ": quarantine_dir is required when retention is enabled with mode=quarantine and dry_run=false"@,
        )
    } else {
        None
    }
}

/// The retention policy that applies to a pair.
pub open spec fn retention_for(c: Config, p: PairConfig) -> RetentionConfig {
    match p.retention {
        Some(r) => r,
        None => c.defaults.retention,
    }
}

/// Some pair before index `i` has the id of pair `i`.
pub open spec fn id_seen_before(c: Config, i: int) -> bool {
    exists|j: int| 0 <= j < i && #[trigger] c.pairs@[j].id@ == c.pairs@[i].id@
}

/// The first problem of pair `i`, if any.
pub open spec fn pair_error(c: Config, i: int) -> Option<Seq<char>> {
    let p = c.pairs@[i];
    if is_blank_text(p.id@) {
        Some("pair id must not be empty"@)
    } else if id_seen_before(c, i) {
        Some("duplicate pair id: "@ + p.id@)
    } else if p.source@.len() == 0 {
        Some("pair "@ + p.id@ + ": source path is empty"@)
    } else if p.destination@.len() == 0 {
        Some("pair "@ + p.id@ + ": destination path is empty"@)
    } else {
        retention_error(retention_for(c, p), p.id@)
    }
}

/// The first problem among the pairs from index `i` on.
pub open spec fn pairs_error_from(c: Config, i: int) -> Option<Seq<char>>
    decreases c.pairs@.len() - i,
{
    if i < 0 || i >= c.pairs@.len() {
        None
    } else if pair_error(c, i) is Some {
        pair_error(c, i)
    } else {
        pairs_error_from(c, i + 1)
    }
}

/// The first problem of a configuration, in the order in which validation looks.
pub open spec fn config_error(c: Config) -> Option<Seq<char>> {
    if c.pairs@.len() == 0 {
        Some("at least one [[pairs]] entry is required"@)
    } else if pairs_error_from(c, 0) is Some {
        pairs_error_from(c, 0)
    } else if c.defaults.concurrency == 0 {
        Some("defaults.concurrency must be >= 1"@)
    } else {
        None
    }
}

/// `r` reports exactly the problem `problem`, as a configuration error.
pub open spec fn reports(r: Result<(), Error>, problem: Option<Seq<char>>) -> bool {
    match problem {
        None => r is Ok,
        Some(m) => r matches Err(Error::Config(msg)) && msg@ == m,
    }
}

/// The index of the first pair with id `id`, if any.
pub open spec fn first_pair_with_id(c: Config, id: Seq<char>, i: int) -> bool {
    &&& 0 <= i < c.pairs@.len()
    &&& c.pairs@[i].id@ == id
    &&& forall|j: int| 0 <= j < i ==> #[trigger] c.pairs@[j].id@ != id
}

impl RetentionConfig {
    /// Refuses a policy that would quarantine for real without a quarantine directory.
    pub fn validate_for_pair(&self, pair_id: &str) -> (r: Result<(), Error>)
        ensures
            reports(r, retention_error(*self, pair_id@)),
    {
        let missing_dir = match &self.quarantine_dir {
            Some(p) => p.as_str().is_empty(),
            None => true,
        };
        if self.enabled && !self.dry_run && self.mode == RetentionMode::Quarantine && missing_dir {
            return Err(
                Error::Config(
                    concat3(
                        "pair ",
                        pair_id,
                        ": quarantine_dir is required when retention is enabled with mode=quarantine and dry_run=false",
                    ),
                ),
            );
        }
        Ok(())
    }
}

impl Config {
    /// Checks the configuration: at least one pair; every pair with a non-blank, unique
    /// id, non-empty paths and a usable retention policy; concurrency of at least one.
    /// The first problem found is reported.
    pub fn validate(&self) -> (r: Result<(), Error>)
        ensures
            reports(r, config_error(*self)),
    {
        if self.pairs.len() == 0 {
            return Err(Error::Config(String::from_str("at least one [[pairs]] entry is required")));
        }
        let n = self.pairs.len();
        let mut i: usize = 0;
        while i < n
            invariant
                n == self.pairs@.len(),
                0 <= i <= n,
                pairs_error_from(*self, 0) == pairs_error_from(*self, i as int),
            decreases n - i,
        {
            let pair = &self.pairs[i];
            if is_blank(pair.id.as_str()) {
                return Err(Error::Config(String::from_str("pair id must not be empty")));
            }
            let mut j: usize = 0;
            while j < i
                invariant
                    n == self.pairs@.len(),
                    i < n,
                    j <= i,
                    *pair == self.pairs@[i as int],
                    pairs_error_from(*self, 0) == pairs_error_from(*self, i as int),
                    !is_blank_text(self.pairs@[i as int].id@),
                    forall|k: int| 0 <= k < j ==> #[trigger] self.pairs@[k].id@ != self.pairs@[i as int].id@,
                decreases i - j,
            {
                if str_eq(self.pairs[j].id.as_str(), pair.id.as_str()) {
                    assert(self.pairs@[j as int].id@ == self.pairs@[i as int].id@);
                    assert(id_seen_before(*self, i as int));
                    return Err(Error::Config(concat2("duplicate pair id: ", pair.id.as_str())));
                }
                j = j + 1;
            }
            if pair.source.as_str().is_empty() {
                return Err(Error::Config(concat3("pair ", pair.id.as_str(), ": source path is empty")));
            }
            if pair.destination.as_str().is_empty() {
                return Err(
                    Error::Config(concat3("pair ", pair.id.as_str(), ": destination path is empty")),
                );
            }
            let checked = match &pair.retention {
                Some(r) => r.validate_for_pair(pair.id.as_str()),
                None => self.defaults.retention.validate_for_pair(pair.id.as_str()),
            };
            match checked {
                Ok(()) => {},
                Err(e) => return Err(e),
            }
            i = i + 1;
        }
        if self.defaults.concurrency == 0 {
            return Err(Error::Config(String::from_str("defaults.concurrency must be >= 1")));
        }
        Ok(())
    }

    /// Where the state database lives: the configured path, else the default one.
    pub fn state_db_path(&self) -> (r: String)
        ensures
            self.state_db matches Some(p) ==> r == p,
            self.state_db is None ==> ends_with(r@, "state.db"@),
            self.state_db is None ==> exists|d: Option<Seq<char>>| #[trigger] state_db_path_in_dir(d, r@),
    {
        match &self.state_db {
            Some(p) => p.clone(),
            None => default_state_db_path(),
        }
    }

    /// The first pair with the given id.
    pub fn pair(&self, id: &str) -> (r: Result<&PairConfig, Error>)
        ensures
            r matches Ok(p) ==> exists|i: int| first_pair_with_id(*self, id@, i) && *p == self.pairs@[i],
            r matches Err(e) ==> e matches Error::PairNotFound(m) && m@ == id@ && forall|i: int|
                0 <= i < self.pairs@.len() ==> #[trigger] self.pairs@[i].id@ != id@,
    {
        let n = self.pairs.len();
        let mut i: usize = 0;
        while i < n
            invariant
                n == self.pairs@.len(),
                i <= n,
                forall|j: int| 0 <= j < i ==> #[trigger] self.pairs@[j].id@ != id@,
            decreases n - i,
        {
            if str_eq(self.pairs[i].id.as_str(), id) {
                assert(first_pair_with_id(*self, id@, i as int));
                return Ok(&self.pairs[i]);
            }
            i = i + 1;
        }
        Err(Error::PairNotFound(String::from_str(id)))
    }

    /// The retention policy of a pair: its own, else the default one.
    pub fn effective_retention(&self, pair: &PairConfig) -> (r: RetentionConfig)
        ensures
            r == retention_for(*self, *pair),
    {
        match &pair.retention {
            Some(r) => r.clone(),
            None => self.defaults.retention.clone(),
        }
    }

    /// The worker count of a pair: its own, else the default, and at least one.
    pub fn effective_concurrency(&self, pair: &PairConfig) -> (r: usize)
        ensures
            r == (match pair.concurrency {
                Some(c) => if c == 0 { 1 } else { c },
                None => if self.defaults.concurrency == 0 { 1 } else { self.defaults.concurrency },
            }),
            r >= 1,
    {
        let c = match pair.concurrency {
            Some(c) => c,
            None => self.defaults.concurrency,
        };
        if c == 0 {
            1
        } else {
            c
        }
    }
}

/// Where the state database lies given the application's data directory: `state.db`
/// adjoined to that directory, or `ferrisync-state.db` (in the working directory) where
/// the platform has none.
pub open spec fn state_db_path_in_dir(data_dir: Option<Seq<char>>, r: Seq<char>) -> bool {
    match data_dir {
        None => r == "ferrisync-state.db"@,
        Some(d) => ends_with(r, "state.db"@) && (no_prefix_marks(d) ==> (r == pushed_with(d, "state.db"@, '/')
            || r == pushed_with(d, "state.db"@, '\\'))),
    }
}

/// The state database's path below a data directory (`None` where the platform has
/// none).
pub fn state_db_path_in(data_dir: Option<String>) -> (r: String)
    ensures
        state_db_path_in_dir(
            match data_dir {
                Some(d) => Some(d@),
                None => None,
            },
            r@,
        ),
{
    proof {
        reveal_strlit("state.db");
        reveal_strlit(".");
        reveal_strlit("..");
    }
    match data_dir {
        Some(dir) => {
            assert(crate::paths::is_plain_name("state.db"@));
            path_push(dir.as_str(), "state.db")
        },
        None => String::from_str("ferrisync-state.db"),
    }
}

/// The default location of the state database: `state.db` in the application's data
/// directory, or `ferrisync-state.db` where the platform has none. Which directory that
/// is depends on the user's environment.
pub fn default_state_db_path() -> (r: String)
    ensures
        exists|d: Option<Seq<char>>| #[trigger] state_db_path_in_dir(d, r@),
        ends_with(r@, "state.db"@),
{
    proof {
        reveal_strlit("state.db");
        reveal_strlit("ferrisync-state.db");
    }
    let dir = project_data_dir("com", "Ferrisync", "Ferrisync");
    let ghost d = match &dir {
        Some(x) => Some(x@),
        None => None::<Seq<char>>,
    };
    let r = state_db_path_in(dir);
    proof {
        assert(state_db_path_in_dir(d, r@));
        if d is None {
            assert("ferrisync-state.db"@.subrange(10, 18) =~= "state.db"@);
        }
    }
    r
}

} // verus!

verus! {

proof fn lemma_no_error_from(c: Config, k: int, i: int)
    requires
        0 <= k <= i < c.pairs@.len(),
        pairs_error_from(c, k) is None,
    ensures
        pair_error(c, i) is None,
    decreases i - k,
{
    if k < i {
        lemma_no_error_from(c, k + 1, i);
    }
}

/// A configuration that validates has at least one pair, unique non-blank pair ids,
/// non-empty source and destination paths, a usable retention policy for every pair
/// and a default concurrency of at least one.
pub proof fn law_valid_config_is_well_formed(c: Config)
    requires
        config_error(c) is None,
    ensures
        c.pairs@.len() > 0,
        c.defaults.concurrency >= 1,
        forall|i: int|
            0 <= i < c.pairs@.len() ==> {
                &&& !is_blank_text(#[trigger] c.pairs@[i].id@)
                &&& c.pairs@[i].source@.len() > 0
                &&& c.pairs@[i].destination@.len() > 0
                &&& retention_error(retention_for(c, c.pairs@[i]), c.pairs@[i].id@) is None
            },
        forall|i: int, j: int|
            0 <= i < j < c.pairs@.len() ==> #[trigger] c.pairs@[i].id@ != #[trigger] c.pairs@[j].id@,
{
    assert forall|i: int| 0 <= i < c.pairs@.len() implies {
        &&& !is_blank_text(#[trigger] c.pairs@[i].id@)
        &&& c.pairs@[i].source@.len() > 0
        &&& c.pairs@[i].destination@.len() > 0
        &&& retention_error(retention_for(c, c.pairs@[i]), c.pairs@[i].id@) is None
    } by {
        lemma_no_error_from(c, 0, i);
    }
    assert forall|i: int, j: int| 0 <= i < j < c.pairs@.len() implies #[trigger] c.pairs@[i].id@
        != #[trigger] c.pairs@[j].id@ by {
        lemma_no_error_from(c, 0, j);
        if c.pairs@[i].id@ == c.pairs@[j].id@ {
            assert(id_seen_before(c, j));
        }
    }
}

} // verus!

verus! {

/// The pairs a command works on: the one with the given id (an error if none has it),
/// else all of them in order.
pub fn selected_pairs<'a>(config: &'a Config, pair: &Option<String>) -> (r: Result<Vec<&'a PairConfig>, Error>)
    ensures
        pair is None ==> (r matches Ok(v) && v@.len() == config.pairs@.len() && forall|i: int|
            0 <= i < v@.len() ==> *#[trigger] v@[i] == config.pairs@[i]),
        pair matches Some(id) ==> match r {
            Ok(v) => v@.len() == 1 && exists|i: int| first_pair_with_id(*config, id@, i) && *v@[0] == config.pairs@[i],
            Err(e) => e matches Error::PairNotFound(m) && m@ == id@ && forall|i: int|
                0 <= i < config.pairs@.len() ==> #[trigger] config.pairs@[i].id@ != id@,
        },
{
    match pair {
        Some(id) => match config.pair(id.as_str()) {
            Ok(p) => {
                let mut v: Vec<&'a PairConfig> = Vec::new();
                v.push(p);
                Ok(v)
            },
            Err(e) => Err(e),
        },
        None => {
            let mut v: Vec<&'a PairConfig> = Vec::new();
            let n = config.pairs.len();
            let mut i: usize = 0;
            while i < n
                invariant
                    n == config.pairs@.len(),
                    i <= n,
                    v@.len() == i,
                    forall|k: int| 0 <= k < i ==> *#[trigger] v@[k] == config.pairs@[k],
                decreases n - i,
            {
                v.push(&config.pairs[i]);
                i = i + 1;
            }
            Ok(v)
        },
    }
}

} // verus!
