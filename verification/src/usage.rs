//! The data engine: from the blocks that `ccusage blocks --json` reports to
//! the state the widget displays.
//!
//! `usedTokens` is the exact source of truth. The five-hour cap is never
//! guessed: a percentage exists only when the user configured a limit.
//! Burn rates (tokens per minute) are fractional and are carried outside the
//! library; a state names the block whose burn rate it shows.

use vstd::prelude::*;
use crate::config::{Config, accepted_limit};
use crate::text::{decode_lossy, first_line, spec_first_line, utf8_lossy};

verus! {

/// The component token counts of a block.
#[derive(Clone, Copy, Debug, PartialEq, Eq, Structural)]
pub struct TokenCounts {
    pub input_tokens: u64,
    pub output_tokens: u64,
    pub cache_creation_input_tokens: u64,
    pub cache_read_input_tokens: u64,
}

/// One block of `ccusage` output (only the fields the gauge reads).
#[derive(Clone, Debug)]
pub struct Block {
    pub is_active: bool,
    pub is_gap: bool,
    pub end_time: Option<String>,
    pub total_tokens: u64,
    pub token_counts: Option<TokenCounts>,
}

/// The parsed output of `ccusage blocks --json`.
#[derive(Clone, Debug)]
pub struct CcOut {
    pub blocks: Vec<Block>,
}

/// A percentage held exactly as its two terms: `used / limit * 100`.
#[derive(Clone, Copy, Debug, PartialEq, Eq, Structural)]
pub struct Percent {
    pub used: u64,
    pub limit: u64,
}

/// The display state emitted to the widget.
#[derive(Clone, Debug)]
pub struct UsageState {
    /// Exact token count from ccusage: always trustworthy.
    pub used_tokens: u64,
    /// User-configured cap; `None` when unset.
    pub limit: Option<u64>,
    /// `used_tokens / limit * 100`, or `None` when no limit is set.
    pub percent: Option<Percent>,
    /// Seconds until the current window resets.
    pub reset_in_seconds: i64,
    pub is_active: bool,
    /// Present only when ccusage could not be read.
    pub error: Option<String>,
    /// The index of the block whose burn rate the widget shows.
    pub active_block: Option<usize>,
}

impl TokenCounts {
    pub open spec fn sum(self) -> int {
        self.input_tokens + self.output_tokens + self.cache_creation_input_tokens
            + self.cache_read_input_tokens
    }
}

impl Block {
    /// Tokens used in this block: ccusage's `totalTokens` when it is
    /// positive, else the sum of the component counts, else zero.
    pub open spec fn spec_used(self) -> int {
        if self.total_tokens > 0 {
            self.total_tokens as int
        } else {
            match self.token_counts {
                Some(tc) => tc.sum(),
                None => 0,
            }
        }
    }

    /// The token count of this block fits in a `u64`.
    pub open spec fn used_fits(self) -> bool {
        self.spec_used() <= u64::MAX
    }

    /// A block that counts: active and not a gap.
    pub open spec fn is_live(self) -> bool {
        self.is_active && !self.is_gap
    }

    /// The token count of this block as a `u64`: exact when it fits, and
    /// otherwise wrapped modulo 2^64, as the gauge's release build sums it
    /// (the widget never panics).
    pub open spec fn spec_used_u64(self) -> u64 {
        (self.spec_used() % 0x1_0000_0000_0000_0000) as u64
    }

    /// Tokens used in this block. Prefers ccusage's `totalTokens`; if it is
    /// absent (older or edge output), sums the component counts.
    pub fn used(&self) -> (r: u64)
        ensures
            r == self.spec_used_u64(),
            self.used_fits() ==> r == self.spec_used(),
    {
        if self.total_tokens > 0 {
            return self.total_tokens;
        }
        match &self.token_counts {
            Some(tc) => {
                let s: u128 = tc.input_tokens as u128 + tc.output_tokens as u128
                    + tc.cache_creation_input_tokens as u128
                    + tc.cache_read_input_tokens as u128;
                (s % 0x1_0000_0000_0000_0000u128) as u64
            },
            None => 0,
        }
    }
}

/// `i` is the first live block of `blocks`.
pub open spec fn is_first_live(blocks: Seq<Block>, i: int) -> bool {
    &&& 0 <= i < blocks.len()
    &&& blocks[i].is_live()
    &&& forall|j: int| 0 <= j < i ==> !(#[trigger] blocks[j]).is_live()
}

/// The index of the first live block, if any.
pub open spec fn first_live(blocks: Seq<Block>) -> Option<int> {
    if exists|i: int| is_first_live(blocks, i) {
        Some(choose|i: int| is_first_live(blocks, i))
    } else {
        None
    }
}

/// The index of the first block that is active and not a gap.
pub fn find_live(blocks: &Vec<Block>) -> (r: Option<usize>)
    ensures
        match r {
            Some(k) => first_live(blocks@) == Some(k as int) && is_first_live(blocks@, k as int),
            None => first_live(blocks@) is None,
        },
{
    let n = blocks.len();
    let mut i: usize = 0;
    while i < n
        invariant
            n == blocks@.len(),
            i <= n,
            forall|j: int| 0 <= j < i ==> !(#[trigger] blocks@[j]).is_live(),
        decreases n - i,
    {
        if blocks[i].is_active && !blocks[i].is_gap {
            assert(is_first_live(blocks@, i as int));
            let ghost k = choose|k: int| is_first_live(blocks@, k);
            assert(k == i) by {
                if k < i {
                    assert(!blocks@[k].is_live());
                } else if k > i {
                    assert(!blocks@[i as int].is_live());
                }
            }
            return Some(i);
        }
        i = i + 1;
    }
    assert(!exists|k: int| is_first_live(blocks@, k)) by {
        if exists|k: int| is_first_live(blocks@, k) {
            let k = choose|k: int| is_first_live(blocks@, k);
            assert(!blocks@[k].is_live());
        }
    }
    None
}

/// The Unix timestamp (seconds) of an RFC 3339 date-and-time, as chrono
/// reads it; `None` where chrono refuses the text.
pub uninterp spec fn rfc3339_timestamp(s: Seq<char>) -> Option<i64>;

/// chrono's `DateTime::parse_from_rfc3339`, followed by `DateTime::timestamp`
/// on the parsed value.
///
/// Claimed: the result is `rfc3339_timestamp` of the text, so equal texts give
/// equal results; and a timestamp lies strictly between -2^48 and 2^48, since
/// chrono computes it as `(days - 719_163) * 86_400 + seconds` from an `i32`
/// day count and a `u32` count of seconds since midnight. Which texts parse,
/// and to what, is not stated.
#[verifier::external_body]
fn parse_rfc3339_timestamp(s: &str) -> (r: Option<i64>)
    ensures
        r == rfc3339_timestamp(s@),
        r matches Some(t) ==> -0x1_0000_0000_0000 < t < 0x1_0000_0000_0000,
{
    match chrono::DateTime::parse_from_rfc3339(s) {
        Ok(d) => Some(d.timestamp()),
        Err(_) => None,
    }
}

/// Seconds from `now` until `end`, both RFC 3339, clamped at 0; 0 when
/// either does not parse.
pub open spec fn spec_seconds_until(end: Seq<char>, now: Seq<char>) -> int {
    match (rfc3339_timestamp(end), rfc3339_timestamp(now)) {
        (Some(e), Some(n)) => if e - n > 0 { e - n } else { 0 },
        _ => 0,
    }
}

/// Seconds from `now` until `end` (both RFC 3339). Clamped at 0.
pub fn seconds_until(end: &str, now: &str) -> (r: i64)
    ensures
        r == spec_seconds_until(end@, now@),
        r >= 0,
{
    let e = parse_rfc3339_timestamp(end);
    let n = parse_rfc3339_timestamp(now);
    match (e, n) {
        (Some(e), Some(n)) => {
            let d = e - n;
            if d > 0 { d } else { 0 }
        },
        _ => 0,
    }
}

/// Seconds until the reset of block `b`, seen at `now`.
pub open spec fn spec_reset_in(b: Block, now: Seq<char>) -> int {
    match b.end_time {
        Some(end) => spec_seconds_until(end@, now),
        None => 0,
    }
}

/// The percentage shown for `used` tokens against `limit`.
pub open spec fn spec_percent(used: u64, limit: Option<u64>) -> Option<Percent> {
    match limit {
        Some(l) => Some(Percent { used, limit: l }),
        None => None,
    }
}

/// The state shown when no block is live: nothing used, no percentage, but
/// the configured limit still surfaced.
pub open spec fn is_idle_state(s: UsageState, limit: Option<u64>) -> bool {
    &&& s.used_tokens == 0
    &&& s.limit == limit
    &&& s.percent is None
    &&& s.reset_in_seconds == 0
    &&& !s.is_active
    &&& s.error is None
    &&& s.active_block is None
}

/// The state shown for live block `i` of `blocks`, seen at `now`.
pub open spec fn is_live_state(
    s: UsageState,
    blocks: Seq<Block>,
    i: int,
    limit: Option<u64>,
    now: Seq<char>,
) -> bool {
    &&& s.used_tokens == blocks[i].spec_used_u64()
    &&& s.limit == limit
    &&& s.percent == spec_percent(s.used_tokens, limit)
    &&& s.reset_in_seconds == spec_reset_in(blocks[i], now)
    &&& s.is_active
    &&& s.error is None
    &&& s.active_block matches Some(k) && k as int == i
}

/// The state that `ccusage` output `out` maps to under `cfg`, seen at `now`.
pub open spec fn is_mapped_state(s: UsageState, out: CcOut, cfg: Config, now: Seq<char>) -> bool {
    let limit = accepted_limit(cfg.limit);
    match first_live(out.blocks@) {
        None => is_idle_state(s, limit),
        Some(i) => is_live_state(s, out.blocks@, i, limit, now),
    }
}

/// Pure mapping from parsed ccusage output to display state. The first block
/// that is active and not a gap is reported; `now` (RFC 3339) is injected.
pub fn map_state(out: &CcOut, cfg: &Config, now: String) -> (r: UsageState)
    ensures
        is_mapped_state(r, *out, *cfg, now@),
{
    let limit = match cfg.limit {
        Some(l) => if l > 0 { Some(l) } else { None },
        None => None,
    };
    match find_live(&out.blocks) {
        None => UsageState {
            used_tokens: 0,
            limit,
            percent: None,
            reset_in_seconds: 0,
            is_active: false,
            error: None,
            active_block: None,
        },
        Some(i) => {
            let b = &out.blocks[i];
            let used = b.used();
            // Percent only when a valid limit exists: never guessed.
            let percent = match limit {
                Some(l) => Some(Percent { used, limit: l }),
                None => None,
            };
            let reset_in = match &b.end_time {
                Some(end) => seconds_until(end.as_str(), now.as_str()),
                None => 0,
            };
            UsageState {
                used_tokens: used,
                limit,
                percent,
                reset_in_seconds: reset_in,
                is_active: true,
                error: None,
                active_block: Some(i),
            }
        },
    }
}

/// The state reported when ccusage could not be run or read: the configured
/// limit as it stands, the error, and nothing else.
pub open spec fn is_failed_state(s: UsageState, cfg: Config, message: Seq<char>) -> bool {
    &&& s.used_tokens == 0
    &&& s.limit == cfg.limit
    &&& s.percent is None
    &&& s.reset_in_seconds == 0
    &&& !s.is_active
    &&& s.error matches Some(e) && e@ == message
    &&& s.active_block is None
}

/// One fetch, after the outside work: `fetched` is the parsed ccusage output,
/// or the message of the failure to run or parse it. Never fails; failures
/// surface in `error`.
pub fn fetch_state(cfg: &Config, fetched: Result<CcOut, String>, now: String) -> (r: UsageState)
    ensures
        match fetched {
            Ok(out) => is_mapped_state(r, out, *cfg, now@),
            Err(message) => is_failed_state(r, *cfg, message@),
        },
{
    match fetched {
        Ok(out) => map_state(&out, cfg, now),
        Err(message) => UsageState {
            used_tokens: 0,
            limit: cfg.limit,
            percent: None,
            reset_in_seconds: 0,
            is_active: false,
            error: Some(message),
            active_block: None,
        },
    }
}

/// The outcome of running `ccusage blocks --json`, from its exit status and
/// its raw output streams: its standard output when it succeeded, else the
/// first line of its standard error, or `"ccusage failed"` when there is none.
/// Both streams are decoded leniently, invalid UTF-8 being replaced.
pub fn ccusage_output(success: bool, stdout: &[u8], stderr: &[u8]) -> (r: Result<String, String>)
    ensures
        success ==> (r matches Ok(o) && o@ == utf8_lossy(stdout@)),
        !success ==> (r matches Err(e) && e@ == (match spec_first_line(utf8_lossy(stderr@)) {
            Some(l) => l,
            None => "ccusage failed"@,
        })),
{
    if !success {
        let text = decode_lossy(stderr);
        let head = match first_line(text.as_str()) {
            Some(l) => l,
            None => String::from_str("ccusage failed"),
        };
        return Err(head);
    }
    Ok(decode_lossy(stdout))
}

} // verus!

verus! {

/// The token count shown is exact: it is the block's `totalTokens` when
/// positive, else the sum of its component counts, whenever that fits in a
/// `u64`.
pub proof fn shown_count_is_exact(s: UsageState, out: CcOut, cfg: Config, now: Seq<char>, i: int)
    requires
        is_mapped_state(s, out, cfg, now),
        first_live(out.blocks@) == Some(i),
        out.blocks@[i].used_fits(),
    ensures
        s.is_active,
        s.used_tokens == out.blocks@[i].spec_used(),
{
}

/// No percentage is ever guessed: when the configuration holds no limit, or
/// a limit of zero, the mapped state shows no limit and no percentage.
pub proof fn no_limit_no_percent(s: UsageState, out: CcOut, cfg: Config, now: Seq<char>)
    requires
        is_mapped_state(s, out, cfg, now),
        cfg.limit is None || cfg.limit == Some(0u64),
    ensures
        s.limit is None,
        s.percent is None,
{
}

/// Once a positive limit is configured and a block is live, the percentage
/// is shown, and it is the exact token count against that limit.
pub proof fn limit_set_shows_percent(
    s: UsageState,
    out: CcOut,
    cfg: Config,
    now: Seq<char>,
    limit: u64,
)
    requires
        is_mapped_state(s, out, cfg, now),
        cfg.limit == Some(limit),
        limit > 0,
        first_live(out.blocks@) is Some,
    ensures
        s.is_active,
        s.limit == Some(limit),
        s.percent == Some(Percent { used: s.used_tokens, limit }),
{
}

/// With no live block the gauge is idle: nothing used, no percentage, no
/// countdown, while the configured (positive) limit is still surfaced.
pub proof fn no_live_block_is_idle(s: UsageState, out: CcOut, cfg: Config, now: Seq<char>)
    requires
        is_mapped_state(s, out, cfg, now),
        forall|i: int| 0 <= i < out.blocks@.len() ==> !(#[trigger] out.blocks@[i]).is_live(),
    ensures
        !s.is_active,
        s.used_tokens == 0,
        s.percent is None,
        s.reset_in_seconds == 0,
        s.limit == accepted_limit(cfg.limit),
{
    assert(!exists|k: int| is_first_live(out.blocks@, k)) by {
        if exists|k: int| is_first_live(out.blocks@, k) {
            let k = choose|k: int| is_first_live(out.blocks@, k);
            assert(!out.blocks@[k].is_live());
        }
    }
}

/// The reset countdown is never negative, whatever the times given.
pub proof fn countdown_is_never_negative(s: UsageState, out: CcOut, cfg: Config, now: Seq<char>)
    requires
        is_mapped_state(s, out, cfg, now),
    ensures
        s.reset_in_seconds >= 0,
{
}

/// A fetch that failed keeps the configured limit as it stands and reports
/// no usage and no percentage.
pub proof fn failed_fetch_shows_no_usage(s: UsageState, cfg: Config, message: Seq<char>)
    requires
        is_failed_state(s, cfg, message),
    ensures
        s.used_tokens == 0,
        s.percent is None,
        !s.is_active,
        s.limit == cfg.limit,
        s.error is Some,
{
}

} // verus!

verus! {

/// A block's count is its `totalTokens` whenever that is positive, whatever
/// component counts it also carries. Without a positive total it is the sum
/// of its four component counts, wrapped to 64 bits, or 0 when it carries
/// none.
pub proof fn block_count_prefers_total(b: Block)
    ensures
        b.total_tokens > 0 ==> b.spec_used_u64() == b.total_tokens,
        b.total_tokens == 0 && b.token_counts is None ==> b.spec_used_u64() == 0,
        b.total_tokens == 0 && b.token_counts is Some ==> b.spec_used_u64() as int == (
        b.token_counts.unwrap().input_tokens + b.token_counts.unwrap().output_tokens
            + b.token_counts.unwrap().cache_creation_input_tokens
            + b.token_counts.unwrap().cache_read_input_tokens) % 0x1_0000_0000_0000_0000,
{
}

/// When both texts are RFC 3339 date-times, the countdown is the exact
/// number of seconds from `now` to `end` when `end` is later, and 0
/// otherwise; when either does not parse, it is 0.
pub proof fn countdown_is_timestamp_difference(end: Seq<char>, now: Seq<char>)
    ensures
        rfc3339_timestamp(end) matches Some(e) ==> (rfc3339_timestamp(now) matches Some(n)
            ==> spec_seconds_until(end, now) == (if e > n {
            e - n
        } else {
            0
        })),
        rfc3339_timestamp(end) is None ==> spec_seconds_until(end, now) == 0,
        rfc3339_timestamp(now) is None ==> spec_seconds_until(end, now) == 0,
{
}

/// If block `i` is live, some block is the first live one.
proof fn live_block_has_first(blocks: Seq<Block>, i: int)
    requires
        0 <= i < blocks.len(),
        blocks[i].is_active && !blocks[i].is_gap,
    ensures
        exists|k: int| is_first_live(blocks, k),
    decreases i,
{
    if forall|j: int| 0 <= j < i ==> !(#[trigger] blocks[j]).is_live() {
        assert(is_first_live(blocks, i));
    } else {
        let j = choose|j: int| 0 <= j < i && (#[trigger] blocks[j]).is_live();
        live_block_has_first(blocks, j);
    }
}

/// The gauge reports on the first block that is active and not a gap: it is
/// active exactly when such a block exists, the block it names is one, and
/// every earlier block is inactive or a gap. Its count and countdown are that
/// block's: its token count, and the seconds from `now` to its end time.
pub proof fn reports_first_active_block(s: UsageState, out: CcOut, cfg: Config, now: Seq<char>)
    requires
        is_mapped_state(s, out, cfg, now),
    ensures
        s.is_active <==> exists|i: int|
            0 <= i < out.blocks@.len() && (#[trigger] out.blocks@[i]).is_active
                && !out.blocks@[i].is_gap,
        s.is_active <==> s.active_block is Some,
        s.active_block matches Some(k) ==> {
            &&& k < out.blocks@.len()
            &&& out.blocks@[k as int].is_active
            &&& !out.blocks@[k as int].is_gap
            &&& forall|j: int|
                0 <= j < k ==> !((#[trigger] out.blocks@[j]).is_active && !out.blocks@[j].is_gap)
            &&& s.used_tokens == out.blocks@[k as int].spec_used_u64()
            &&& (out.blocks@[k as int].end_time matches Some(e) ==> s.reset_in_seconds
                == spec_seconds_until(e@, now))
            &&& (out.blocks@[k as int].end_time is None ==> s.reset_in_seconds == 0)
        },
        s.error is None,
{
    let blocks = out.blocks@;
    if exists|i: int| 0 <= i < blocks.len() && (#[trigger] blocks[i]).is_active && !blocks[i].is_gap {
        let i = choose|i: int| 0 <= i < blocks.len() && (#[trigger] blocks[i]).is_active && !blocks[i].is_gap;
        live_block_has_first(blocks, i);
    }
    if let Some(k) = first_live(blocks) {
        assert(is_first_live(blocks, k));
        assert forall|j: int| 0 <= j < k implies !((#[trigger] blocks[j]).is_active
            && !blocks[j].is_gap) by {
            assert(!blocks[j].is_live());
        }
    }
}

} // verus!
