//! Read-only shard introspection.
//!
//! The shard manager can be asked at any time for a best-effort snapshot of
//! each live shard — its identifier, connection stage, and last observed
//! latency.  The process takes that snapshot under the manager's own locks
//! (which are independent of the drive task's exclusive client lock) and
//! hands it over as plain values; this module turns it into report lines.

use crate::digits::spec_digits;
use crate::digits::u64_to_string;
use vstd::prelude::*;
use vstd::string::StringExecFns;

verus! {

/// Connection stage of one shard, as the gateway reports it.
#[derive(Clone, Copy, Debug, PartialEq, Eq, Structural)]
pub enum ShardStage {
    Connected,
    Connecting,
    Disconnected,
    Handshake,
    Identifying,
    Resuming,
}

/// Best-effort snapshot of one live shard.
#[derive(Clone, Copy, Debug)]
pub struct ShardSnapshot {
    /// The shard's identifier within the session.
    pub id: u64,
    /// Its connection stage at the time of the snapshot.
    pub stage: ShardStage,
    /// Last observed gateway latency, in milliseconds; absent if never
    /// measured.
    pub latency_ms: Option<u64>,
}

/// The word used for each connection stage in a report line.
pub open spec fn spec_stage_label(s: ShardStage) -> Seq<char> {
    match s {
        ShardStage::Connected => "connected"@,
        ShardStage::Connecting => "connecting"@,
        ShardStage::Disconnected => "disconnected"@,
        ShardStage::Handshake => "handshaking"@,
        ShardStage::Identifying => "identifying"@,
        ShardStage::Resuming => "resuming"@,
    }
}

/// The latency part of a report line: the measured value in milliseconds,
/// or a marker that none was ever measured.
pub open spec fn spec_latency_text(l: Option<u64>) -> Seq<char> {
    match l {
        Option::Some(ms) => spec_digits(ms as nat) + " ms"@,
        Option::None => "unmeasured"@,
    }
}

/// One report line for one shard.
pub open spec fn spec_shard_line(s: ShardSnapshot) -> Seq<char> {
    "Shard ID "@ + spec_digits(s.id as nat) + " is "@ + spec_stage_label(s.stage)
        + " with a latency of "@ + spec_latency_text(s.latency_ms)
}

/// The report word for a connection stage.
pub fn stage_label(s: ShardStage) -> (r: &'static str)
    ensures
        r@ == spec_stage_label(s),
{
    match s {
        ShardStage::Connected => "connected",
        ShardStage::Connecting => "connecting",
        ShardStage::Disconnected => "disconnected",
        ShardStage::Handshake => "handshaking",
        ShardStage::Identifying => "identifying",
        ShardStage::Resuming => "resuming",
    }
}

/// Render the report line for one shard snapshot.
pub fn shard_line(s: &ShardSnapshot) -> (r: String)
    ensures
        r@ == spec_shard_line(*s),
{
    let mut line = String::from_str("Shard ID ");
    let id_text = u64_to_string(s.id);
    line.append(id_text.as_str());
    line.append(" is ");
    line.append(stage_label(s.stage));
    line.append(" with a latency of ");
    match s.latency_ms {
        Option::Some(ms) => {
            let ms_text = u64_to_string(ms);
            line.append(ms_text.as_str());
            line.append(" ms");
        },
        Option::None => {
            line.append("unmeasured");
        },
    }
    proof {
        assert(line@ =~= spec_shard_line(*s));
    }
    line
}

} // verus!
