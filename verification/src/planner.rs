//! Range planning: reading the remote tip from the metadata envelope and
//! computing the effective chunk-aligned sync window.

use vstd::prelude::*;
use vstd::arithmetic::div_mod::{
    lemma_fundamental_div_mod, lemma_mod_bound, lemma_mod_multiples_vanish, lemma_small_mod,
};

use crate::error::CdnError;
use crate::BLOCKS_PER_FILE;
use crate::NETWORK_ID;
use crate::SAFETY_MARGIN;

verus! {

/// The string that the metadata envelope decodes to, if it decodes at all.
pub uninterp spec fn envelope_string_of(bytes: Seq<u8>) -> Option<Seq<char>>;

/// The `exclusive_height` field of the metadata JSON document, if the
/// string parses as a JSON object carrying that field as an integer.
pub uninterp spec fn latest_exclusive_height_of(text: Seq<char>) -> Option<u64>;

/// Relies on `bincode::deserialize::<String>`: the decode reads the given
/// bytes alone, so equal bytes always decode to the same string (or fail
/// the same way).
#[verifier::external_body]
fn decode_envelope(bytes: &[u8]) -> (r: Option<String>)
    ensures
        r matches Some(s) ==> envelope_string_of(bytes@) == Some(s@),
        r is None ==> envelope_string_of(bytes@) is None,
{
    bincode::deserialize::<String>(bytes).ok()
}

/// Relies on `serde_json::from_str::<serde_json::Value>`,
/// `serde_json::Value::get` and `serde_json::Value::as_u64`: parsing the
/// text and reading its `exclusive_height` field depend on the text alone.
#[verifier::external_body]
fn parse_exclusive_height(text: &str) -> (r: Option<u64>)
    ensures
        r == latest_exclusive_height_of(text@),
{
    let value: serde_json::Value = match serde_json::from_str(text) {
        Ok(value) => value,
        Err(_) => return None,
    };
    match value.get("exclusive_height") {
        Some(field) => field.as_u64(),
        None => None,
    }
}

/// Rounding `x` down to a multiple of `chunk` lands on an aligned value at
/// most `chunk - 1` below `x`.
proof fn lemma_round_down_aligned(x: int, chunk: int)
    requires
        0 <= x,
        0 < chunk,
    ensures
        (x - x % chunk) % chunk == 0,
        x - x % chunk <= x < x - x % chunk + chunk,
        0 <= x % chunk <= x,
{
    lemma_fundamental_div_mod(x, chunk);
    lemma_mod_multiples_vanish(x / chunk, 0, chunk);
    lemma_small_mod(0nat, chunk as nat);
    lemma_mod_bound(x, chunk);
    if x < chunk {
        lemma_small_mod(x as nat, chunk as nat);
    }
}

/// The chunk-aligned end of the remote range for a reported tip: the
/// smallest multiple of `chunk` strictly above the tip less the safety
/// margin, or nothing when that multiple does not fit the height type.
pub open spec fn spec_cdn_end(tip: u32, margin: u32, chunk: u32) -> Option<u32>
    recommends
        chunk > 0,
{
    let t = if tip >= margin {
        tip - margin
    } else {
        0int
    };
    let aligned = t - t % (chunk as int) + chunk;
    if aligned <= u32::MAX {
        Some(aligned as u32)
    } else {
        None
    }
}

/// Computes the chunk-aligned remote end height from the reported tip.
///
/// The tip is first lowered by the safety margin, so a height the remote
/// store advertises but has not materialized yet is never requested.
pub fn compute_cdn_end(tip: u32, margin: u32, chunk: u32) -> (r: Option<u32>)
    requires
        chunk > 0,
    ensures
        r == spec_cdn_end(tip, margin, chunk),
        r matches Some(e) ==> {
            let t = if tip >= margin {
                tip - margin
            } else {
                0int
            };
            &&& (e as int) % (chunk as int) == 0
            &&& t < e <= t + chunk
        },
{
    let t: u32 = if tip >= margin {
        tip - margin
    } else {
        0
    };
    proof {
        lemma_round_down_aligned(t as int, chunk as int);
        lemma_mod_multiples_vanish(1, t as int - (t as int) % (chunk as int), chunk as int);
    }
    let rem: u32 = t % chunk;
    let aligned: u64 = (t - rem) as u64 + chunk as u64;
    if aligned <= u32::MAX as u64 {
        Some(aligned as u32)
    } else {
        None
    }
}

/// What the metadata bytes yield: the decoded envelope string, its
/// `exclusive_height` field, and the chunk-aligned end computed from it
/// with the default margin and chunk size; nothing if any step fails.
pub open spec fn spec_cdn_height_outcome(bytes: Seq<u8>) -> Option<u32> {
    match envelope_string_of(bytes) {
        Some(text) => match latest_exclusive_height_of(text) {
            Some(h) => if h <= u32::MAX {
                spec_cdn_end(h as u32, SAFETY_MARGIN, BLOCKS_PER_FILE)
            } else {
                None
            },
            None => None,
        },
        None => None,
    }
}

/// Reads the remote tip out of the fetched metadata bytes and returns the
/// chunk-aligned end height of the range the remote store can serve.
///
/// Every decode failure — an undecodable envelope, JSON without a numeric
/// `exclusive_height`, or a height that fits no aligned end — is reported
/// as [`CdnError::DecodeError`].
pub fn cdn_height_from_bytes(bytes: &[u8]) -> (r: Result<u32, CdnError>)
    ensures
        r matches Ok(e) ==> spec_cdn_height_outcome(bytes@) == Some(e),
        r is Err ==> spec_cdn_height_outcome(bytes@) is None && r == Err::<u32, CdnError>(
            CdnError::DecodeError,
        ),
{
    let text = match decode_envelope(bytes) {
        Some(text) => text,
        None => return Err(CdnError::DecodeError),
    };
    let tip = match parse_exclusive_height(text.as_str()) {
        Some(tip) => tip,
        None => return Err(CdnError::DecodeError),
    };
    if tip > u32::MAX as u64 {
        return Err(CdnError::DecodeError);
    }
    match compute_cdn_end(tip as u32, SAFETY_MARGIN, BLOCKS_PER_FILE) {
        Some(e) => Ok(e),
        None => Err(CdnError::DecodeError),
    }
}

/// The effective sync window: the requested half-open range of heights and
/// the chunk-aligned range the downloads cover.
#[derive(Clone, Copy, Debug, PartialEq, Eq, Structural)]
pub struct SyncRange {
    /// First height to apply.
    pub start_height: u32,
    /// Exclusive end of the heights to apply.
    pub end_height: u32,
    /// First height of the aligned download range; a multiple of the chunk
    /// size, at most `start_height`.
    pub cdn_start: u32,
    /// Exclusive end of the download range; equals `end_height`.
    pub cdn_end: u32,
}

impl SyncRange {
    /// The shape every planned window has.
    pub open spec fn wf(self, chunk: u32) -> bool {
        &&& 0 < chunk
        &&& self.start_height < self.end_height
        &&& self.cdn_start <= self.start_height < self.cdn_start + chunk
        &&& (self.cdn_start as int) % (chunk as int) == 0
        &&& self.cdn_end == self.end_height
    }
}

/// The outcome of range planning.
#[derive(Clone, Copy, Debug, PartialEq, Eq, Structural)]
pub enum SyncPlan {
    /// Nothing to download: the window is empty, the sync succeeds at once
    /// with zero applied records.
    Empty { completed_height: u32 },
    /// A non-empty window to synchronize.
    Sync { range: SyncRange },
}

/// The requested end clamped to what the remote store can serve.
pub open spec fn spec_clamped_end(cdn_height: u32, end_height: Option<u32>) -> u32 {
    match end_height {
        Some(e) => if e <= cdn_height {
            e
        } else {
            cdn_height
        },
        None => cdn_height,
    }
}

/// Plans the effective sync window.
///
/// An unsupported network identifier is rejected. An empty window — the
/// clamped end at or below the start — is an immediate success whose
/// completed height is the clamped end. Otherwise the window runs from
/// `start_height` to the clamped end, and downloads start at `start_height`
/// rounded down to a chunk boundary, because bundles are only offered at
/// aligned boundaries.
pub fn plan_sync(
    network_id: u16,
    cdn_height: u32,
    start_height: u32,
    end_height: Option<u32>,
    chunk: u32,
) -> (r: Result<SyncPlan, CdnError>)
    requires
        chunk > 0,
    ensures
        network_id != NETWORK_ID <==> r == Err::<SyncPlan, CdnError>(
            CdnError::UnsupportedNetwork { network_id },
        ),
        (network_id == NETWORK_ID && spec_clamped_end(cdn_height, end_height) <= start_height)
            <==> r == Ok::<SyncPlan, CdnError>(SyncPlan::Empty {
            completed_height: spec_clamped_end(cdn_height, end_height),
        }),
        (network_id == NETWORK_ID && spec_clamped_end(cdn_height, end_height) > start_height)
            ==> (r matches Ok(p) && p matches SyncPlan::Sync { range } && range == (SyncRange {
            start_height,
            end_height: spec_clamped_end(cdn_height, end_height),
            cdn_start: ((start_height as int) - (start_height as int) % (chunk as int)) as u32,
            cdn_end: spec_clamped_end(cdn_height, end_height),
        }) && range.wf(chunk)),
{
    if network_id != NETWORK_ID {
        return Err(CdnError::UnsupportedNetwork { network_id });
    }
    let clamped_end: u32 = match end_height {
        Some(e) => if e <= cdn_height {
            e
        } else {
            cdn_height
        },
        None => cdn_height,
    };
    if clamped_end <= start_height {
        return Ok(SyncPlan::Empty { completed_height: clamped_end });
    }
    proof {
        lemma_round_down_aligned(start_height as int, chunk as int);
    }
    let cdn_start: u32 = start_height - start_height % chunk;
    Ok(SyncPlan::Sync {
        range: SyncRange { start_height, end_height: clamped_end, cdn_start, cdn_end: clamped_end },
    })
}

} // verus!
