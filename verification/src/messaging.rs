//! Outbound message formatting and delivery bookkeeping.
//!
//! A post goes to two channels: the primary channel gets the content as is,
//! the archive channel gets the content with the post's URL appended.  The
//! two sends are independent — there is no atomicity between them — so
//! their results are reported per channel and one is never inferred from
//! the other.

use vstd::prelude::*;
use vstd::string::StringExecFns;

verus! {

/// One outbound send: which channel, what text.  Sends are performed in
/// the order the plan lists them.
#[derive(Clone, Debug)]
pub struct SendOp {
    pub channel: u64,
    pub text: String,
}

/// The view of an optional URL string.
pub open spec fn url_view(url: &Option<String>) -> Option<Seq<char>> {
    match url {
        Option::Some(u) => Option::Some(u@),
        Option::None => Option::None,
    }
}

/// The text sent to the archive channel: the content with the URL appended
/// on its own line inside angle brackets — a delimited form that chat
/// clients do not expand into a preview — or the bare content when there
/// is no URL.
pub open spec fn spec_archive_text(content: Seq<char>, url: Option<Seq<char>>) -> Seq<char> {
    match url {
        Option::Some(u) => content + "\n<"@ + u + ">"@,
        Option::None => content,
    }
}

/// Build the archive-channel text from the content and the optional URL.
pub fn archive_text(content: String, url: &Option<String>) -> (r: String)
    ensures
        r@ == spec_archive_text(content@, url_view(url)),
{
    let mut t = content;
    match url {
        Option::Some(u) => {
            t.append("\n<");
            t.append(u.as_str());
            t.append(">");
        },
        Option::None => {},
    }
    t
}

/// Result of the send to one channel, as the transport reported it.
#[derive(Clone, Copy, Debug, PartialEq, Eq, Structural)]
pub enum ChannelDelivery {
    Delivered,
    Failed,
}

/// Joint outcome of the two independent sends of a post.
#[derive(Clone, Copy, Debug, PartialEq, Eq, Structural)]
pub struct PostOutcome {
    pub primary: ChannelDelivery,
    pub archive: ChannelDelivery,
}

/// Combine the results of the two independent sends.  Each field reflects
/// exactly its own channel's result: partial delivery (one succeeded, the
/// other failed) is reported as such, never collapsed into all-or-nothing,
/// and success on one channel implies nothing about the other.
pub fn delivery_outcome(primary_ok: bool, archive_ok: bool) -> (r: PostOutcome)
    ensures
        r.primary is Delivered <==> primary_ok,
        r.archive is Delivered <==> archive_ok,
{
    PostOutcome {
        primary: if primary_ok {
            ChannelDelivery::Delivered
        } else {
            ChannelDelivery::Failed
        },
        archive: if archive_ok {
            ChannelDelivery::Delivered
        } else {
            ChannelDelivery::Failed
        },
    }
}

} // verus!
