use vstd::prelude::*;
use crate::manager::ChangeEvent;
use crate::parser::RawPayload;

verus! {

/// Delay before the first resubscription after losing the store, in milliseconds.
pub const BACKOFF_BASE_MS: u64 = 100;

/// Longest delay between resubscription attempts, in milliseconds.
pub const BACKOFF_MAX_MS: u64 = 30000;

/// Delay before resubscription attempt `n` (counted from 1): doubling from the base, capped.
pub open spec fn backoff_delay(n: nat) -> nat
    decreases n,
{
    if n <= 1 {
        BACKOFF_BASE_MS as nat
    } else {
        let d = 2 * backoff_delay((n - 1) as nat);
        if d > BACKOFF_MAX_MS {
            BACKOFF_MAX_MS as nat
        } else {
            d
        }
    }
}

/// The delay lies between the base and the cap.
pub proof fn lemma_backoff_bounded(n: nat)
    ensures
        BACKOFF_BASE_MS <= backoff_delay(n) <= BACKOFF_MAX_MS,
    decreases n,
{
    if n > 1 {
        lemma_backoff_bounded((n - 1) as nat);
    }
}

/// Once the cap is reached, the delay stays there.
proof fn lemma_backoff_capped(n: nat, m: nat)
    requires
        backoff_delay(n) == BACKOFF_MAX_MS,
        n <= m,
    ensures
        backoff_delay(m) == BACKOFF_MAX_MS,
    decreases m - n,
{
    if n < m {
        lemma_backoff_capped(n, (m - 1) as nat);
        lemma_backoff_bounded((m - 1) as nat);
    }
}

/// The delay before resubscription attempt `n`.
pub fn backoff_for(n: u32) -> (r: u64)
    ensures
        r == backoff_delay(n as nat),
{
    let mut d: u64 = BACKOFF_BASE_MS;
    let mut k: u32 = 1;
    while k < n && d < BACKOFF_MAX_MS
        invariant
            1 <= k,
            k <= n || k == 1,
            d == backoff_delay(k as nat),
            d <= BACKOFF_MAX_MS,
        decreases n - k,
    {
        proof {
            lemma_backoff_bounded(k as nat);
        }
        d = if 2 * d > BACKOFF_MAX_MS {
            BACKOFF_MAX_MS
        } else {
            2 * d
        };
        k = k + 1;
    }
    proof {
        if k < n {
            lemma_backoff_capped(k as nat, n as nat);
        } else if n == 0 {
            assert(backoff_delay(0) == backoff_delay(1));
        }
    }
    d
}

/// The reader's knowledge of one watched path.
pub struct ReaderView {
    pub path: Seq<char>,
    pub connected: bool,
    pub last_version: Option<u64>,
    pub resync_pending: bool,
    pub attempts: u32,
}

/// Whether a watch notification at `version` is passed on: only while connected, and only a
/// version newer than every one passed on before.
pub open spec fn notification_emits(st: ReaderView, version: u64) -> bool {
    st.connected && (st.last_version is None || version > st.last_version->Some_0)
}

/// Whether a point read at `version` is passed on. The first read after a reconnection replays
/// the current version even when it was passed on before; any other read passes on only a newer
/// version.
pub open spec fn fetch_emits(st: ReaderView, version: u64) -> bool {
    if st.resync_pending {
        st.last_version is None || version >= st.last_version->Some_0
    } else {
        st.last_version is None || version > st.last_version->Some_0
    }
}

/// The state after a point read at `version`.
pub open spec fn after_fetch(st: ReaderView, version: u64) -> ReaderView {
    ReaderView {
        last_version: if fetch_emits(st, version) {
            Some(version)
        } else {
            st.last_version
        },
        resync_pending: false,
        ..st
    }
}

/// The state after the store connection is lost or a resubscription fails.
pub open spec fn after_disconnect(st: ReaderView) -> ReaderView {
    ReaderView {
        connected: false,
        resync_pending: true,
        attempts: if st.attempts == u32::MAX {
            u32::MAX
        } else {
            (st.attempts + 1) as u32
        },
        ..st
    }
}

/// The state after the subscription is back.
pub open spec fn after_reconnect(st: ReaderView) -> ReaderView {
    ReaderView { connected: true, attempts: 0, ..st }
}

/// Decides, for one watched path, which store results become change events and how long to
/// wait before resubscribing after the store is lost. The store calls themselves are made by
/// the caller.
pub struct WatchReader {
    path: String,
    connected: bool,
    last_version: Option<u64>,
    resync_pending: bool,
    attempts: u32,
}

impl View for WatchReader {
    type V = ReaderView;

    closed spec fn view(&self) -> ReaderView {
        ReaderView {
            path: self.path@,
            connected: self.connected,
            last_version: self.last_version,
            resync_pending: self.resync_pending,
            attempts: self.attempts,
        }
    }
}

impl WatchReader {
    /// A reader for `path` whose first point read is passed on.
    pub fn new(path: String) -> (r: WatchReader)
        ensures
            r@ == (ReaderView {
                path: path@,
                connected: true,
                last_version: None,
                resync_pending: true,
                attempts: 0,
            }),
    {
        WatchReader { path, connected: true, last_version: None, resync_pending: true, attempts: 0 }
    }

    fn event(&self, raw: RawPayload, version: u64) -> (r: ChangeEvent)
        ensures
            r.path@ == self.path@,
            r.version == version,
            r.raw == raw,
    {
        ChangeEvent { path: self.path.clone(), version, raw }
    }

    /// A watch notification carrying `raw` at `version`.
    pub fn on_notification(&mut self, raw: RawPayload, version: u64) -> (r: Option<ChangeEvent>)
        ensures
            notification_emits(old(self)@, version) ==> final(self)@ == (ReaderView {
                last_version: Some(version),
                ..old(self)@
            }),
            !notification_emits(old(self)@, version) ==> final(self)@ == old(self)@,
            r is Some <==> notification_emits(old(self)@, version),
            r matches Some(ev) ==> ev.path@ == old(self)@.path && ev.version == version && ev.raw
                == raw,
    {
        if self.connected && match self.last_version {
            None => true,
            Some(v) => version > v,
        } {
            self.last_version = Some(version);
            Some(self.event(raw, version))
        } else {
            None
        }
    }

    /// A point read returned `raw` at `version`.
    pub fn on_fetched(&mut self, raw: RawPayload, version: u64) -> (r: Option<ChangeEvent>)
        ensures
            final(self)@ == after_fetch(old(self)@, version),
            r is Some <==> fetch_emits(old(self)@, version),
            r matches Some(ev) ==> ev.path@ == old(self)@.path && ev.version == version && ev.raw
                == raw,
    {
        let emits = match self.last_version {
            None => true,
            Some(v) => if self.resync_pending {
                version >= v
            } else {
                version > v
            },
        };
        self.resync_pending = false;
        if emits {
            self.last_version = Some(version);
            Some(self.event(raw, version))
        } else {
            None
        }
    }

    /// The store connection was lost, or a resubscription failed: returns how long to wait
    /// before the next attempt. The next point read after reconnecting replays the current
    /// version.
    pub fn on_disconnected(&mut self) -> (r: u64)
        ensures
            final(self)@ == after_disconnect(old(self)@),
            r == backoff_delay(final(self)@.attempts as nat),
    {
        self.connected = false;
        self.resync_pending = true;
        self.attempts = self.attempts.saturating_add(1);
        backoff_for(self.attempts)
    }

    /// The subscription is back; the caller now makes a point read.
    pub fn on_reconnected(&mut self)
        ensures
            final(self)@ == after_reconnect(old(self)@),
    {
        self.connected = true;
        self.attempts = 0;
    }
}

} // verus!
