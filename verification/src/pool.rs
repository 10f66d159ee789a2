//! The connection pool and the two conversations held over a leased
//! connection: writing an entry and scanning for a key.
//!
//! The pool is `mobc`'s, over `redis` connections. Nothing in this module
//! waits on the store: it builds the pool, and it decides, reply by reply,
//! what is sent next. The caller leases the connection, sends and awaits.

use vstd::prelude::*;

use crate::errors::{Error, ErrorKind};

verus! {

/// `redis::RedisError`, of which only its words for the failure are used.
#[verifier::external_type_specification]
#[verifier::external_body]
pub struct ExRedisError(mobc_redis::redis::RedisError);

/// `redis::Client`, which is handed from `redis::Client::open` to the pool unread.
#[verifier::external_type_specification]
#[verifier::external_body]
pub struct ExRedisClient(mobc_redis::redis::Client);

/// The pool of store connections that all requests share: a `mobc::Pool` of
/// `redis` connections. The library makes it and hands it on; leasing a
/// connection from `inner` is left to the program, since it has to be awaited.
#[verifier::external_body]
pub struct MobcPool {
    pub inner: mobc::Pool<mobc_redis::RedisConnectionManager>,
}

/// The connections that the service's pool may hold open at once.
pub const CACHE_POOL_MAX_OPEN: u64 = 16;

/// The idle connections that the service's pool keeps between uses.
pub const CACHE_POOL_MAX_IDLE: u64 = 8;

/// The seconds a borrower waits for a connection of the service's pool.
pub const CACHE_POOL_TIMEOUT_SECONDS: u64 = 1;

/// The seconds a connection of the service's pool lives.
pub const CACHE_POOL_EXPIRE_SECONDS: u64 = 60;

/// The largest number of connections a pool can be asked to hold open.
pub const POOL_MAX_OPEN_LIMIT: u64 = 0x1fff_ffff;

/// The limits a pool is made with.
#[derive(Debug, Clone, Copy, PartialEq, Eq, Structural)]
pub struct PoolConfig {
    /// How many connections may be open at once; 0 sets no limit.
    pub max_open: u64,
    /// How many idle connections are kept between uses; 0 keeps as many as may be open.
    pub max_idle: u64,
    /// How long a borrower waits for a connection before it is turned away.
    pub get_timeout_seconds: u64,
    /// How old a connection may grow before it is retired instead of reused.
    pub max_lifetime_seconds: u64,
}

impl PoolConfig {
    /// The limits a pool can be made with: both durations positive, no more
    /// idle connections than open ones, and an open limit the pool can count.
    pub open spec fn spec_is_valid(self) -> bool {
        &&& self.get_timeout_seconds > 0
        &&& self.max_lifetime_seconds > 0
        &&& self.max_open <= POOL_MAX_OPEN_LIMIT
        &&& (self.max_open == 0 || self.max_idle <= self.max_open)
    }

    /// The limits that the service runs with.
    pub open spec fn spec_standard() -> PoolConfig {
        PoolConfig {
            max_open: CACHE_POOL_MAX_OPEN,
            max_idle: CACHE_POOL_MAX_IDLE,
            get_timeout_seconds: CACHE_POOL_TIMEOUT_SECONDS,
            max_lifetime_seconds: CACHE_POOL_EXPIRE_SECONDS,
        }
    }

    /// The limits that the service runs with: 16 open and 8 idle connections,
    /// one second to wait for a connection, sixty seconds of life for each.
    #[verifier::when_used_as_spec(spec_standard)]
    pub fn standard() -> (config: PoolConfig)
        ensures
            config == PoolConfig::spec_standard(),
            config.spec_is_valid(),
    {
        PoolConfig {
            max_open: CACHE_POOL_MAX_OPEN,
            max_idle: CACHE_POOL_MAX_IDLE,
            get_timeout_seconds: CACHE_POOL_TIMEOUT_SECONDS,
            max_lifetime_seconds: CACHE_POOL_EXPIRE_SECONDS,
        }
    }

    /// Whether a pool can be made with these limits.
    #[verifier::when_used_as_spec(spec_is_valid)]
    pub fn is_valid(self) -> (valid: bool)
        ensures
            valid == self.spec_is_valid(),
    {
        self.get_timeout_seconds > 0 && self.max_lifetime_seconds > 0 && self.max_open
            <= POOL_MAX_OPEN_LIMIT && (self.max_open == 0 || self.max_idle <= self.max_open)
    }
}

/// Whether `redis::Client::open` makes a client from the URI.
pub uninterp spec fn store_uri_accepted(uri: Seq<char>) -> bool;

/// The limits that a pool was made with.
pub uninterp spec fn pool_limits(pool: MobcPool) -> PoolConfig;

/// Calls `redis::Client::open`, which parses the URI and connects to nothing.
#[verifier::external_body]
fn open_client(uri: &str) -> (r: Result<mobc_redis::redis::Client, mobc_redis::redis::RedisError>)
    ensures
        r is Ok <==> store_uri_accepted(uri@),
{
    mobc_redis::redis::Client::open(uri)
}

/// Calls `mobc::Pool::builder` and sets the four limits before `build`,
/// which opens no connection. The builder refuses a zero duration and the
/// pool cannot count beyond `POOL_MAX_OPEN_LIMIT`; it lowers an idle limit
/// that exceeds the open limit, which valid limits never ask of it.
#[verifier::external_body]
fn build_pool(client: mobc_redis::redis::Client, config: PoolConfig) -> (pool: MobcPool)
    requires
        config.spec_is_valid(),
    ensures
        pool_limits(pool) == config,
{
    let manager = mobc_redis::RedisConnectionManager::new(client);
    let builder = mobc::Pool::builder()
        .get_timeout(Some(std::time::Duration::from_secs(config.get_timeout_seconds)))
        .max_open(config.max_open)
        .max_idle(config.max_idle)
        .max_lifetime(Some(std::time::Duration::from_secs(config.max_lifetime_seconds)));
    MobcPool { inner: builder.build(manager) }
}

/// Makes a pool for the store at `uri` with the given limits. No connection
/// is opened before the first lease.
pub fn connect_with(uri: &str, config: PoolConfig) -> (r: Result<MobcPool, Error>)
    requires
        config.spec_is_valid(),
    ensures
        r is Ok <==> store_uri_accepted(uri@),
        r matches Ok(pool) ==> pool_limits(pool) == config,
        r matches Err(e) ==> *e.kind() == ErrorKind::StoreClientError,
{
    match open_client(uri) {
        Ok(client) => Ok(build_pool(client, config)),
        Err(cause) => Err(Error::with_detail(ErrorKind::StoreClientError, cause.to_string())),
    }
}

/// Makes the pool that the service runs with.
pub fn connect(uri: &str) -> (r: Result<MobcPool, Error>)
    ensures
        r is Ok <==> store_uri_accepted(uri@),
        r matches Ok(pool) ==> pool_limits(pool) == PoolConfig::spec_standard(),
        r matches Err(e) ==> *e.kind() == ErrorKind::StoreClientError,
{
    connect_with(uri, PoolConfig::standard())
}

/// A key/value pair of the store with its time to live.
#[derive(Debug, Clone, PartialEq, Eq)]
pub struct CacheEntry {
    pub key: String,
    pub value: String,
    /// The seconds after which the store drops the entry; 0 keeps it for good.
    pub ttl_seconds: usize,
}

/// Where the writing of one entry stands.
#[derive(Debug, Clone, Copy, PartialEq, Eq, Structural)]
pub enum WriteState {
    /// The value is being set; the entry is to live for `ttl_seconds`.
    Setting { ttl_seconds: usize },
    /// The value is set and an expiry of `seconds` is being attached.
    Expiring { seconds: usize },
    /// Every command was carried out.
    Written,
    /// The store failed a command. Nothing is sent after that.
    Failed,
}

/// What the writer of an entry does next.
#[derive(Debug, Clone, Copy, PartialEq, Eq, Structural)]
pub enum WriteAction {
    /// Send `SET key value`.
    SetValue,
    /// Send `EXPIRE key seconds`.
    SetExpiry { seconds: usize },
    /// Report success.
    Finish,
    /// Report `ErrorKind::StoreCommandError`.
    Fail,
}

/// The state that follows when the store has answered the command that
/// `state` stands for: `acknowledged` says whether it was carried out. An
/// expiry is attached only where the time to live is positive, and only once
/// the value is set. A writing that has ended stays as it is.
pub open spec fn write_next(state: WriteState, acknowledged: bool) -> WriteState {
    match state {
        WriteState::Setting { ttl_seconds } => if !acknowledged {
            WriteState::Failed
        } else if ttl_seconds > 0 {
            WriteState::Expiring { seconds: ttl_seconds }
        } else {
            WriteState::Written
        },
        WriteState::Expiring { .. } => if acknowledged {
            WriteState::Written
        } else {
            WriteState::Failed
        },
        ended => ended,
    }
}

/// What is to be done in a state.
pub open spec fn write_action(state: WriteState) -> WriteAction {
    match state {
        WriteState::Setting { .. } => WriteAction::SetValue,
        WriteState::Expiring { seconds } => WriteAction::SetExpiry { seconds },
        WriteState::Written => WriteAction::Finish,
        WriteState::Failed => WriteAction::Fail,
    }
}

/// The state reached from `state` over a run of replies.
pub open spec fn write_run(state: WriteState, replies: Seq<bool>) -> WriteState
    decreases replies.len(),
{
    if replies.len() == 0 {
        state
    } else {
        write_next(write_run(state, replies.drop_last()), replies.last())
    }
}

/// Begins the writing of an entry that is to live for `ttl_seconds`, or for
/// good where that is 0: the value is set first.
pub fn write_start(ttl_seconds: usize) -> (begun: (WriteState, WriteAction))
    ensures
        begun.0 == (WriteState::Setting { ttl_seconds }),
        begun.1 == WriteAction::SetValue,
{
    (WriteState::Setting { ttl_seconds }, WriteAction::SetValue)
}

/// Takes the store's answer to the last command and says what follows.
pub fn write_step(state: WriteState, acknowledged: bool) -> (next: (WriteState, WriteAction))
    ensures
        next.0 == write_next(state, acknowledged),
        next.1 == write_action(next.0),
{
    let state = match state {
        WriteState::Setting { ttl_seconds } => {
            if !acknowledged {
                WriteState::Failed
            } else if ttl_seconds > 0 {
                WriteState::Expiring { seconds: ttl_seconds }
            } else {
                WriteState::Written
            }
        },
        WriteState::Expiring { .. } => {
            if acknowledged {
                WriteState::Written
            } else {
                WriteState::Failed
            }
        },
        WriteState::Written => WriteState::Written,
        WriteState::Failed => WriteState::Failed,
    };
    let action = match state {
        WriteState::Setting { .. } => WriteAction::SetValue,
        WriteState::Expiring { seconds } => WriteAction::SetExpiry { seconds },
        WriteState::Written => WriteAction::Finish,
        WriteState::Failed => WriteAction::Fail,
    };
    (state, action)
}

/// What the writing came to, once it has ended.
pub fn write_outcome(state: WriteState) -> (outcome: Option<Result<(), ErrorKind>>)
    ensures
        outcome == match state {
            WriteState::Written => Some(Ok::<(), ErrorKind>(())),
            WriteState::Failed => Some(Err::<(), ErrorKind>(ErrorKind::StoreCommandError)),
            _ => None::<Result<(), ErrorKind>>,
        },
{
    match state {
        WriteState::Written => Some(Ok(())),
        WriteState::Failed => Some(Err(ErrorKind::StoreCommandError)),
        _ => None,
    }
}

/// An entry without a time to live is never given an expiry, whatever the
/// store answers.
pub proof fn no_expiry_without_ttl(replies: Seq<bool>)
    ensures
        !(write_run(WriteState::Setting { ttl_seconds: 0 }, replies) is Expiring),
        !(write_action(write_run(WriteState::Setting { ttl_seconds: 0 }, replies)) is SetExpiry),
        write_run(WriteState::Setting { ttl_seconds: 0 }, replies) is Setting ==> replies.len()
            == 0,
    decreases replies.len(),
{
    if replies.len() > 0 {
        no_expiry_without_ttl(replies.drop_last());
    }
}

/// With a positive time to live the acknowledged value is followed by the
/// expiry of exactly that many seconds, and the entry counts as written once
/// that is acknowledged too.
pub proof fn expiry_follows_value(ttl_seconds: usize)
    requires
        ttl_seconds > 0,
    ensures
        write_action(write_run(WriteState::Setting { ttl_seconds }, seq![true])) == (
        WriteAction::SetExpiry { seconds: ttl_seconds }),
        write_run(WriteState::Setting { ttl_seconds }, seq![true, true]) == WriteState::Written,
{
    let start = WriteState::Setting { ttl_seconds };
    let one = seq![true];
    let two = seq![true, true];
    assert(one.drop_last() =~= Seq::<bool>::empty());
    assert(two.drop_last() =~= one);
    assert(write_run(start, one.drop_last()) == start);
    assert(write_run(start, one) == (WriteState::Expiring { seconds: ttl_seconds }));
}

/// A writing that has ended is not moved by further replies: after a failure
/// nothing changes the outcome, and nothing is sent.
pub proof fn ended_writing_stays(state: WriteState, replies: Seq<bool>)
    requires
        state is Written || state is Failed,
    ensures
        write_run(state, replies) == state,
    decreases replies.len(),
{
    if replies.len() > 0 {
        ended_writing_stays(state, replies.drop_last());
    }
}

/// Where a scan for a key stands.
#[derive(Debug, Clone, Copy, PartialEq, Eq, Structural)]
pub enum ScanState {
    /// The page at `cursor` is being fetched.
    Fetching { cursor: u64 },
    /// A page yielded a key.
    Found,
    /// The store ended the scan and no page yielded a key.
    Exhausted,
    /// The store failed to deliver a page.
    Failed,
}

/// What the store answered to the request for a page.
#[derive(Debug, Clone, Copy, PartialEq, Eq, Structural)]
pub enum PageReply {
    /// A page of `keys` matching keys, and the cursor of the page after it;
    /// the cursor 0 says that there is none.
    Page { cursor: u64, keys: usize },
    /// The request failed.
    Failure,
}

/// What the scanner does next.
#[derive(Debug, Clone, Copy, PartialEq, Eq, Structural)]
pub enum ScanAction {
    /// Send `SCAN cursor MATCH pattern`.
    Fetch { cursor: u64 },
    /// Report whether a key matches.
    Report { found: bool },
    /// Report `ErrorKind::StoreCommandError`.
    Fail,
}

/// The state that follows a reply. The first key ends the scan; an empty page
/// leads to the page at the cursor it names, or ends the scan where it names
/// none; a failure ends it at once. A scan that has ended stays as it is.
pub open spec fn scan_next(state: ScanState, reply: PageReply) -> ScanState {
    match state {
        ScanState::Fetching { .. } => match reply {
            PageReply::Failure => ScanState::Failed,
            PageReply::Page { cursor, keys } => if keys > 0 {
                ScanState::Found
            } else if cursor == 0 {
                ScanState::Exhausted
            } else {
                ScanState::Fetching { cursor }
            },
        },
        ended => ended,
    }
}

/// What is to be done in a state.
pub open spec fn scan_action(state: ScanState) -> ScanAction {
    match state {
        ScanState::Fetching { cursor } => ScanAction::Fetch { cursor },
        ScanState::Found => ScanAction::Report { found: true },
        ScanState::Exhausted => ScanAction::Report { found: false },
        ScanState::Failed => ScanAction::Fail,
    }
}

/// The state reached from `state` over a run of replies.
pub open spec fn scan_run(state: ScanState, replies: Seq<PageReply>) -> ScanState
    decreases replies.len(),
{
    if replies.len() == 0 {
        state
    } else {
        scan_next(scan_run(state, replies.drop_last()), replies.last())
    }
}

/// Begins a scan: the first page is the one at cursor 0.
pub fn scan_start() -> (begun: (ScanState, ScanAction))
    ensures
        begun.0 == (ScanState::Fetching { cursor: 0 }),
        begun.1 == (ScanAction::Fetch { cursor: 0 }),
{
    (ScanState::Fetching { cursor: 0 }, ScanAction::Fetch { cursor: 0 })
}

/// Takes the store's answer to the last request and says what follows.
pub fn scan_step(state: ScanState, reply: PageReply) -> (next: (ScanState, ScanAction))
    ensures
        next.0 == scan_next(state, reply),
        next.1 == scan_action(next.0),
{
    let state = match state {
        ScanState::Fetching { .. } => match reply {
            PageReply::Failure => ScanState::Failed,
            PageReply::Page { cursor, keys } => {
                if keys > 0 {
                    ScanState::Found
                } else if cursor == 0 {
                    ScanState::Exhausted
                } else {
                    ScanState::Fetching { cursor }
                }
            },
        },
        ScanState::Found => ScanState::Found,
        ScanState::Exhausted => ScanState::Exhausted,
        ScanState::Failed => ScanState::Failed,
    };
    let action = match state {
        ScanState::Fetching { cursor } => ScanAction::Fetch { cursor },
        ScanState::Found => ScanAction::Report { found: true },
        ScanState::Exhausted => ScanAction::Report { found: false },
        ScanState::Failed => ScanAction::Fail,
    };
    (state, action)
}

/// What the scan came to, once it has ended.
pub fn scan_outcome(state: ScanState) -> (outcome: Option<Result<bool, ErrorKind>>)
    ensures
        outcome == match state {
            ScanState::Found => Some(Ok::<bool, ErrorKind>(true)),
            ScanState::Exhausted => Some(Ok::<bool, ErrorKind>(false)),
            ScanState::Failed => Some(Err::<bool, ErrorKind>(ErrorKind::StoreCommandError)),
            ScanState::Fetching { .. } => None::<Result<bool, ErrorKind>>,
        },
{
    match state {
        ScanState::Found => Some(Ok(true)),
        ScanState::Exhausted => Some(Ok(false)),
        ScanState::Failed => Some(Err(ErrorKind::StoreCommandError)),
        ScanState::Fetching { .. } => None,
    }
}

/// Whether the replies are the pages of one scan that the store carried
/// through: every page but the last names a successor, the last names none.
pub open spec fn is_full_scan(replies: Seq<PageReply>) -> bool {
    &&& replies.len() > 0
    &&& forall|i: int| 0 <= i < replies.len() ==> #[trigger] replies[i] is Page
    &&& forall|i: int| 0 <= i < replies.len() - 1 ==> (#[trigger] replies[i])->cursor != 0
    &&& replies.last()->cursor == 0
}

/// Whether one of the pages yielded a key.
pub open spec fn some_page_has_key(replies: Seq<PageReply>) -> bool {
    exists|i: int| 0 <= i < replies.len() && (#[trigger] replies[i])->keys > 0
}

/// While no page has yielded a key and every page has named a successor, the
/// scanner is fetching the page that the last reply named.
pub proof fn scan_keeps_fetching(replies: Seq<PageReply>)
    requires
        forall|i: int| 0 <= i < replies.len() ==> #[trigger] replies[i] is Page,
        forall|i: int| 0 <= i < replies.len() ==> (#[trigger] replies[i])->cursor != 0,
        !some_page_has_key(replies),
    ensures
        scan_run(ScanState::Fetching { cursor: 0 }, replies) == (ScanState::Fetching {
            cursor: if replies.len() == 0 {
                0
            } else {
                replies.last()->cursor
            },
        }),
    decreases replies.len(),
{
    if replies.len() > 0 {
        let head = replies.drop_last();
        assert(!some_page_has_key(head)) by {
            if some_page_has_key(head) {
                let i: int = choose|i: int| 0 <= i < head.len() && (#[trigger] head[i])->keys > 0;
                assert(replies[i]->keys > 0);
            }
        }
        assert forall|i: int| 0 <= i < head.len() implies (#[trigger] head[i])->cursor != 0 by {
            assert(head[i] == replies[i]);
        }
        assert forall|i: int| 0 <= i < head.len() implies #[trigger] head[i] is Page by {
            assert(head[i] == replies[i]);
        }
        scan_keeps_fetching(head);
        let last = replies[replies.len() - 1];
        assert(last is Page);
        assert(last->cursor != 0);
        assert(!(last->keys > 0));
    }
}

/// The scan ends with the first page that yields a key: the match is
/// reported at once and no page behind it is asked for.
pub proof fn scan_stops_at_first_key(replies: Seq<PageReply>, page: PageReply)
    requires
        forall|i: int| 0 <= i < replies.len() ==> #[trigger] replies[i] is Page,
        forall|i: int| 0 <= i < replies.len() ==> (#[trigger] replies[i])->cursor != 0,
        !some_page_has_key(replies),
        page is Page,
        page->keys > 0,
    ensures
        scan_run(ScanState::Fetching { cursor: 0 }, replies.push(page)) == ScanState::Found,
        scan_action(scan_run(ScanState::Fetching { cursor: 0 }, replies.push(page))) == (
        ScanAction::Report { found: true }),
{
    scan_keeps_fetching(replies);
    assert(replies.push(page).drop_last() =~= replies);
}

/// A scan that has ended is not moved by further replies.
pub proof fn ended_scan_stays(state: ScanState, replies: Seq<PageReply>)
    requires
        !(state is Fetching),
    ensures
        scan_run(state, replies) == state,
    decreases replies.len(),
{
    if replies.len() > 0 {
        ended_scan_stays(state, replies.drop_last());
    }
}

/// Splitting a run of replies in two gives the same state as the whole run.
pub proof fn scan_run_split(state: ScanState, first: Seq<PageReply>, second: Seq<PageReply>)
    ensures
        scan_run(state, first + second) == scan_run(scan_run(state, first), second),
    decreases second.len(),
{
    if second.len() == 0 {
        assert(first + second =~= first);
    } else {
        scan_run_split(state, first, second.drop_last());
        assert((first + second).drop_last() =~= first + second.drop_last());
        assert((first + second).last() == second.last());
    }
}

/// Over the pages of a full scan the scanner reports a match exactly if one
/// of the pages yielded a key; it reports none only after the last page.
pub proof fn scan_finds_any_key(replies: Seq<PageReply>)
    requires
        is_full_scan(replies),
    ensures
        scan_run(ScanState::Fetching { cursor: 0 }, replies) == if some_page_has_key(replies) {
            ScanState::Found
        } else {
            ScanState::Exhausted
        },
{
    let start = ScanState::Fetching { cursor: 0 };
    if some_page_has_key(replies) {
        // The first page with a key ends the scan; the pages behind it change nothing.
        let k: int = first_page_with_key(replies, replies.len() as int);
        let before = replies.subrange(0, k);
        let rest = replies.subrange(k + 1, replies.len() as int);
        assert(!some_page_has_key(before)) by {
            if some_page_has_key(before) {
                let i: int = choose|i: int| 0 <= i < before.len() && (#[trigger] before[i])->keys > 0;
                assert(before[i] == replies[i]);
            }
        }
        assert forall|i: int| 0 <= i < before.len() implies (#[trigger] before[i])->cursor
            != 0 by {
            assert(before[i] == replies[i]);
        }
        assert forall|i: int| 0 <= i < before.len() implies #[trigger] before[i] is Page by {
            assert(before[i] == replies[i]);
        }
        scan_stops_at_first_key(before, replies[k]);
        let upto = before.push(replies[k]);
        assert(upto + rest =~= replies);
        scan_run_split(start, upto, rest);
        ended_scan_stays(ScanState::Found, rest);
    } else {
        let head = replies.drop_last();
        assert(!some_page_has_key(head)) by {
            if some_page_has_key(head) {
                let i: int = choose|i: int| 0 <= i < head.len() && (#[trigger] head[i])->keys > 0;
                assert(replies[i]->keys > 0);
            }
        }
        assert forall|i: int| 0 <= i < head.len() implies (#[trigger] head[i])->cursor != 0 by {
            assert(head[i] == replies[i]);
        }
        assert forall|i: int| 0 <= i < head.len() implies #[trigger] head[i] is Page by {
            assert(head[i] == replies[i]);
        }
        scan_keeps_fetching(head);
        let last = replies[replies.len() - 1];
        assert(last is Page);
        assert(!(last->keys > 0));
    }
}

/// The index of the first page among the first `n` that yielded a key.
proof fn first_page_with_key(replies: Seq<PageReply>, n: int) -> (k: int)
    requires
        0 <= n <= replies.len(),
        exists|i: int| 0 <= i < n && (#[trigger] replies[i])->keys > 0,
    ensures
        0 <= k < n,
        replies[k]->keys > 0,
        forall|i: int| 0 <= i < k ==> !((#[trigger] replies[i])->keys > 0),
    decreases n,
{
    if exists|i: int| 0 <= i < n - 1 && (#[trigger] replies[i])->keys > 0 {
        first_page_with_key(replies, n - 1)
    } else {
        n - 1
    }
}

} // verus!
