//! Locating the hosting library.
//!
//! The location protocol is a native function that writes the library's path
//! into a buffer of the caller and reports, in units of the buffer, how much
//! it wrote or would have needed. The embedding program makes the calls; what
//! to ask and what an answer means is decided here.

use crate::dotnet::hostfxr::{HOST_API_BUFFER_TOO_SMALL, SUCCESS};
use crate::error::{HostError, HostFailure};
use crate::util::wide::{
    decode_utf16_lossy,
    encode_utf16,
    encode_wide_nul,
    lemma_until_nul_stops,
    text_units,
    until_nul,
    wide_to_string_lossy,
};
use vstd::prelude::*;

verus! {

/// The capacity, in code units, of the buffer of the first query.
pub const INITIAL_PATH_CAPACITY: usize = 1024;

/// Parameters that steer where the hosting library is looked for.
#[derive(Debug, PartialEq, Eq)]
pub struct GetHostfxrParameters {
    /// Path to the application's assembly. If given, the library is located
    /// as if that assembly were the application host.
    pub assembly_path: Option<String>,
    /// Path to the directory of the runtime's executable. If given, the
    /// library is looked for under it and the assembly path is ignored.
    pub dotnet_root: Option<String>,
}

/// One call of the location protocol: the capacity of the buffer to offer,
/// in code units, and the optional paths, as terminated wide text.
#[derive(Debug, PartialEq, Eq)]
pub struct HostPathQuery {
    pub capacity: usize,
    pub assembly_path: Option<Vec<u16>>,
    pub dotnet_root: Option<Vec<u16>>,
}

/// What one call of the location protocol gave: its status, the size it
/// reported, in code units, and the buffer as it left it.
#[derive(Debug, PartialEq, Eq)]
pub struct HostPathReply {
    pub status: i32,
    pub size: usize,
    pub buffer: Vec<u16>,
}

/// What follows an answer of the location protocol.
#[derive(Debug, PartialEq, Eq)]
pub enum HostPathStep {
    /// The buffer was too small: ask again as given.
    Retry(HostPathQuery),
    /// The library lies at this path.
    Located(String),
    /// The protocol failed.
    Failed(HostError),
}

/// A query as a plain value.
pub struct HostPathQueryModel {
    pub capacity: usize,
    pub assembly_path: Option<Seq<u16>>,
    pub dotnet_root: Option<Seq<u16>>,
}

/// What follows an answer, as a plain value.
pub enum HostPathOutcome {
    Retry(HostPathQueryModel),
    Located(Seq<char>),
    Failed(HostFailure),
}

impl View for HostPathQuery {
    type V = HostPathQueryModel;

    open spec fn view(&self) -> HostPathQueryModel {
        HostPathQueryModel {
            capacity: self.capacity,
            assembly_path: optional_units(self.assembly_path),
            dotnet_root: optional_units(self.dotnet_root),
        }
    }
}

impl View for HostPathStep {
    type V = HostPathOutcome;

    open spec fn view(&self) -> HostPathOutcome {
        match self {
            HostPathStep::Retry(query) => HostPathOutcome::Retry(query@),
            HostPathStep::Located(path) => HostPathOutcome::Located(path@),
            HostPathStep::Failed(error) => HostPathOutcome::Failed(error@),
        }
    }
}

/// The terminated wide encoding of an optional text.
pub open spec fn optional_wide(text: Option<String>) -> Option<Seq<u16>> {
    match text {
        Some(t) => Some(encode_utf16(t@).push(0u16)),
        None => None,
    }
}

/// The units of an optional wide text.
pub open spec fn optional_units(units: Option<Vec<u16>>) -> Option<Seq<u16>> {
    match units {
        Some(u) => Some(u@),
        None => None,
    }
}

/// The text that a successful answer holds: what the buffer holds within the
/// reported size, up to the first terminator, decoded. The size counts code
/// units, not bytes.
pub open spec fn located_text(size: usize, buffer: Seq<u16>) -> Seq<char> {
    decode_utf16_lossy(
        until_nul(
            buffer.take(
                if size <= buffer.len() {
                    size as int
                } else {
                    buffer.len() as int
                },
            ),
        ),
    )
}

/// The meaning of an answer to a query. Status zero is success. The
/// too-small status with a reported size above the query's capacity asks for
/// the same query with a buffer of the reported size. Every other answer is
/// a failure with its status.
pub open spec fn path_outcome(
    query: HostPathQueryModel,
    status: i32,
    size: usize,
    buffer: Seq<u16>,
) -> HostPathOutcome {
    if status == SUCCESS {
        HostPathOutcome::Located(located_text(size, buffer))
    } else if status == HOST_API_BUFFER_TOO_SMALL && size > query.capacity {
        HostPathOutcome::Retry(HostPathQueryModel { capacity: size, ..query })
    } else {
        HostPathOutcome::Failed(HostFailure::HostLocationFailed(status))
    }
}

/// Encodes an optional text as terminated wide text.
fn encode_optional(text: &Option<String>) -> (units: Option<Vec<u16>>)
    ensures
        optional_units(units) == optional_wide(*text),
{
    match text {
        Some(t) => Some(encode_wide_nul(t.as_str())),
        None => None,
    }
}

/// The first query for the hosting library: the initial capacity, and the
/// parameters as wide text.
pub fn locate_host_library(parameters: &GetHostfxrParameters) -> (query: HostPathQuery)
    ensures
        query@ == (HostPathQueryModel {
            capacity: INITIAL_PATH_CAPACITY,
            assembly_path: optional_wide(parameters.assembly_path),
            dotnet_root: optional_wide(parameters.dotnet_root),
        }),
{
    HostPathQuery {
        capacity: INITIAL_PATH_CAPACITY,
        assembly_path: encode_optional(&parameters.assembly_path),
        dotnet_root: encode_optional(&parameters.dotnet_root),
    }
}

/// Decides what follows the answer to a query: the located path, a retry
/// with the reported capacity and the same parameters, or a failure. A retry
/// always offers more than the query before it.
pub fn load_hostfxr(query: HostPathQuery, reply: &HostPathReply) -> (step: HostPathStep)
    ensures
        step@ == path_outcome(query@, reply.status, reply.size, reply.buffer@),
        step matches HostPathStep::Retry(next) ==> next.capacity > query.capacity,
{
    if reply.status == SUCCESS {
        let units = text_units(&reply.buffer, reply.size);
        HostPathStep::Located(wide_to_string_lossy(&units))
    } else if reply.status == HOST_API_BUFFER_TOO_SMALL && reply.size > query.capacity {
        HostPathStep::Retry(
            HostPathQuery {
                capacity: reply.size,
                assembly_path: query.assembly_path,
                dotnet_root: query.dotnet_root,
            },
        )
    } else {
        HostPathStep::Failed(HostError::HostLocationFailed(reply.status))
    }
}

/// How a host whose library lies at `path` answers a query of the given
/// capacity: with the too-small status and the size it needs, terminator
/// included, while the capacity is below that; else with success, that size,
/// and the terminated path at the start of the buffer.
pub open spec fn host_answers(path: Seq<u16>, capacity: usize, reply: HostPathReply) -> bool {
    let required = path.len() + 1;
    if capacity < required {
        &&& reply.status == HOST_API_BUFFER_TOO_SMALL
        &&& reply.size == required
    } else {
        &&& reply.status == SUCCESS
        &&& reply.size == required
        &&& reply.buffer@.len() >= required
        &&& reply.buffer@.take(path.len() as int) == path
        &&& reply.buffer@[path.len() as int] == 0
    }
}

/// Decoding gives at least one character for at least one unit.
pub proof fn lemma_decoded_nonempty(units: Seq<u16>)
    requires
        units.len() > 0,
    ensures
        decode_utf16_lossy(units).len() > 0,
{
}

/// Where the first buffer is too small for the path, the answer asks for a
/// retry with exactly the reported size, and the answer to that retry
/// locates the library: the path decodes unchanged and is not empty.
pub proof fn lemma_second_attempt_locates(
    path: Seq<u16>,
    query: HostPathQueryModel,
    first: HostPathReply,
    second: HostPathReply,
)
    requires
        path.len() > 0,
        path.len() + 1 <= usize::MAX,
        forall|i: int| 0 <= i < path.len() ==> path[i] != 0,
        query.capacity < path.len() + 1,
        host_answers(path, query.capacity, first),
        host_answers(path, (path.len() + 1) as usize, second),
    ensures
        ({
            let again = HostPathQueryModel { capacity: (path.len() + 1) as usize, ..query };
            &&& path_outcome(query, first.status, first.size, first.buffer@)
                == HostPathOutcome::Retry(again)
            &&& path_outcome(again, second.status, second.size, second.buffer@)
                == HostPathOutcome::Located(decode_utf16_lossy(path))
            &&& decode_utf16_lossy(path).len() > 0
        }),
{
    let required = (path.len() + 1) as int;
    let window = second.buffer@.take(required);
    assert(window == path + seq![0u16] + Seq::<u16>::empty()) by {
        assert forall|i: int| 0 <= i < window.len() implies window[i] == (path + seq![0u16]
            + Seq::<u16>::empty())[i] by {
            if i < path.len() {
                assert(second.buffer@.take(path.len() as int)[i] == path[i]);
            }
        }
    }
    lemma_until_nul_stops(path, Seq::empty());
    lemma_decoded_nonempty(path);
}

} // verus!
