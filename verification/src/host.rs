//! What a host answers: its topology, its memory counters, the text buffers
//! it fills, and the queries that ask for them.

use vstd::prelude::*;

verus! {

/// The topology of a host: processor and memory-page parameters.
#[derive(Clone, Copy, Debug, PartialEq, Eq)]
pub struct SystemInfo {
    /// The architecture identifier.
    pub oem_id: u32,
    /// The size of a memory page, in bytes.
    pub page_size: u32,
    /// The lowest address that an application can use.
    pub minimum_application_address: u64,
    /// The highest address that an application can use.
    pub maximum_application_address: u64,
    /// One bit for each processor that is configured.
    pub active_processor_mask: u64,
    /// The number of processors.
    pub number_of_processors: u32,
    /// The processor type.
    pub processor_type: u32,
    /// The granularity at which memory is reserved.
    pub allocation_granularity: u32,
    /// The processor level.
    pub processor_level: u16,
    /// The processor revision.
    pub processor_revision: u16,
}

/// The memory counters of a host.
#[derive(Clone, Copy, Debug, PartialEq, Eq)]
pub struct PerformanceInfo {
    /// The size of the host's structure, in bytes.
    pub cb: u32,
    /// The pages that are committed.
    pub commit_total: usize,
    /// The most pages that can be committed.
    pub commit_limit: usize,
    /// The most pages that were committed at one time.
    pub commit_peak: usize,
    /// The physical memory, in pages.
    pub physical_total: usize,
    /// The physical memory that is free, in pages.
    pub physical_available: usize,
    /// The system cache, in pages.
    pub system_cache: usize,
    /// The kernel pools together, in pages.
    pub kernel_total: usize,
    /// The paged kernel pool, in pages.
    pub kernel_paged: usize,
    /// The nonpaged kernel pool, in pages.
    pub kernel_nonpaged: usize,
    /// The size of a page, in bytes.
    pub page_size: usize,
    /// The number of open handles.
    pub handle_count: u32,
    /// The number of processes.
    pub process_count: u32,
    /// The number of threads.
    pub thread_count: u32,
}

/// A query that the host answers by filling a buffer with text.
#[derive(Clone, Copy, Debug, PartialEq, Eq, Structural)]
pub enum TextQuery {
    /// The short name of the computer.
    ComputerName,
    /// The fully qualified DNS name of the computer.
    ComputerNameDns,
    /// The path of the system directory.
    SystemDirectory,
    /// The simple name of the current user.
    UserName,
    /// The name of the current user with its domain.
    QualifiedUserName,
}

/// A query to the host.
#[derive(Clone, Copy, Debug, PartialEq, Eq, Structural)]
pub enum Query {
    /// The topology; the host always answers it.
    Topology,
    /// One of the text queries.
    Text(TextQuery),
    /// The memory counters.
    Performance,
}

/// A query that the host failed, with the status code it gave.
#[derive(Clone, Copy, Debug, PartialEq, Eq, Structural)]
pub struct QueryError {
    /// The query that failed.
    pub query: Query,
    /// The status code that the host gave.
    pub code: i32,
}

/// The host's answer to a text query.
#[derive(Debug, PartialEq, Eq)]
pub enum TextReply {
    /// The buffer as the host filled it.
    Filled(Vec<u16>),
    /// The status code of the failure.
    Failed(i32),
}

/// The host's answer to the query for its memory counters.
#[derive(Clone, Copy, Debug, PartialEq, Eq)]
pub enum PerformanceReply {
    /// The counters.
    Counters(PerformanceInfo),
    /// The status code of the failure.
    Failed(i32),
}

/// The status code for a buffer that is too small for what the host has to
/// put into it.
pub const INSUFFICIENT_BUFFER: i32 = -2147024774;

/// The number of code units of the buffer that a text query is given.
pub open spec fn buffer_units(query: TextQuery) -> nat {
    match query {
        TextQuery::ComputerName => 32,
        TextQuery::ComputerNameDns => 32,
        TextQuery::SystemDirectory => 260,
        TextQuery::UserName => 64,
        TextQuery::QualifiedUserName => 64,
    }
}

/// A buffer for a text query: of the size that the query is given, and
/// zero throughout.
pub fn new_buffer(query: TextQuery) -> (buffer: Vec<u16>)
    ensures
        buffer@.len() == buffer_units(query),
        forall|i: int| 0 <= i < buffer@.len() ==> buffer@[i] == 0,
{
    let n: usize = match query {
        TextQuery::ComputerName => 32,
        TextQuery::ComputerNameDns => 32,
        TextQuery::SystemDirectory => 260,
        TextQuery::UserName => 64,
        TextQuery::QualifiedUserName => 64,
    };
    let mut buffer: Vec<u16> = Vec::new();
    while buffer.len() < n
        invariant
            buffer@.len() <= n,
            forall|i: int| 0 <= i < buffer@.len() ==> buffer@[i] == 0,
        decreases n - buffer@.len(),
    {
        buffer.push(0);
    }
    buffer
}

/// The reply that a host gives by a length: zero for a failure, whose
/// status code is `status`; a length above the buffer's for a buffer that
/// is too small; any other for a buffer that it filled.
pub open spec fn length_reply_of(length: u32, status: i32, buffer: Vec<u16>) -> TextReply {
    if length == 0 {
        TextReply::Failed(status)
    } else if length > buffer@.len() {
        TextReply::Failed(INSUFFICIENT_BUFFER)
    } else {
        TextReply::Filled(buffer)
    }
}

/// Reads the reply of a query that answers with a length.
pub fn length_reply(length: u32, status: i32, buffer: Vec<u16>) -> (reply: TextReply)
    ensures
        reply == length_reply_of(length, status, buffer),
{
    if length == 0 {
        TextReply::Failed(status)
    } else if length as usize > buffer.len() {
        TextReply::Failed(INSUFFICIENT_BUFFER)
    } else {
        TextReply::Filled(buffer)
    }
}

} // verus!
