//! The five sections of a host report as text.

use vstd::prelude::*;
use windows::Win32::System::ProcessStatus::PERFORMANCE_INFORMATION;
use crate::host::{PerformanceInfo, SystemInfo};
use crate::text::{address, address_text, dec_digits, decimal};

verus! {

/// `n` spaces; none where `n` is not positive.
pub open spec fn padding(n: int) -> Seq<char> {
    Seq::new(if n > 0 { n as nat } else { 0 }, |i: int| ' ')
}

/// One field of a section: the label, filled with spaces to `width`, and
/// the value, on a line of their own.
pub open spec fn field_line(label: Seq<char>, width: int, value: Seq<char>) -> Seq<char> {
    " - "@ + label + padding(width - label.len()) + " : "@ + value + "\n"@
}

/// The lines of the first `n` fields, in the order of `labels`.
pub open spec fn field_lines(
    labels: Seq<Seq<char>>,
    width: int,
    values: Seq<Seq<char>>,
    n: int,
) -> Seq<char>
    decreases n,
{
    if n <= 0 {
        Seq::empty()
    } else {
        field_lines(labels, width, values, n - 1) + field_line(
            labels[n - 1],
            width,
            values[n - 1],
        )
    }
}

/// A section: its title line, one line for each label in order, and an
/// empty line.
pub open spec fn section_text(
    title: Seq<char>,
    labels: Seq<Seq<char>>,
    width: int,
    values: Seq<Seq<char>>,
) -> Seq<char> {
    title + "\n"@ + field_lines(labels, width, values, labels.len() as int) + "\n"@
}

/// The width of the label column of the topology section.
pub const TOPOLOGY_WIDTH: usize = 27;

/// The width of the label column of the sections that show a buffer.
pub const BUFFER_WIDTH: usize = 8;

/// The labels of the topology section, in the order in which they appear.
pub open spec fn topology_labels() -> Seq<Seq<char>> {
    seq![
        "dwOemId"@,
        "dwPageSize"@,
        "lpMinimumApplicationAddress"@,
        "lpMaximumApplicationAddress"@,
        "dwActiveProcessorMask"@,
        "dwNumberOfProcessors"@,
        "dwProcessorType"@,
        "dwAllocationGranularity"@,
        "wProcessorLevel"@,
        "wProcessorRevision"@,
    ]
}

/// The values of the topology section: the two addresses in hexadecimal,
/// every other field in decimal.
pub open spec fn topology_values(info: SystemInfo) -> Seq<Seq<char>> {
    seq![
        dec_digits(info.oem_id as nat),
        dec_digits(info.page_size as nat),
        address_text(info.minimum_application_address as nat),
        address_text(info.maximum_application_address as nat),
        dec_digits(info.active_processor_mask as nat),
        dec_digits(info.number_of_processors as nat),
        dec_digits(info.processor_type as nat),
        dec_digits(info.allocation_granularity as nat),
        dec_digits(info.processor_level as nat),
        dec_digits(info.processor_revision as nat),
    ]
}

/// The ten field lines of the topology section.
pub open spec fn topology_lines(info: SystemInfo) -> Seq<char> {
    field_lines(topology_labels(), TOPOLOGY_WIDTH as int, topology_values(info), 10)
}

/// The label of a line that shows what a buffer holds.
pub open spec fn buffer_label() -> Seq<char> {
    "lpBuffer"@
}

/// The line that shows what a buffer holds.
pub open spec fn buffer_line(value: Seq<char>) -> Seq<char> {
    field_line(buffer_label(), BUFFER_WIDTH as int, value)
}

pub open spec fn system_info_title() -> Seq<char> {
    "1. System Information"@
}

pub open spec fn computer_name_title() -> Seq<char> {
    "2. Computer Name"@
}

pub open spec fn system_directory_title() -> Seq<char> {
    "3. System Directory"@
}

pub open spec fn username_title() -> Seq<char> {
    "4. User Name"@
}

pub open spec fn performance_info_title() -> Seq<char> {
    "5. Performance Information"@
}

/// The topology section.
pub open spec fn system_info_text(info: SystemInfo) -> Seq<char> {
    section_text(
        system_info_title(),
        topology_labels(),
        TOPOLOGY_WIDTH as int,
        topology_values(info),
    )
}

/// The computer-name section: the short name, then the fully qualified one.
pub open spec fn computer_name_text(name: Seq<char>, dns_name: Seq<char>) -> Seq<char> {
    section_text(
        computer_name_title(),
        seq![buffer_label(), buffer_label()],
        BUFFER_WIDTH as int,
        seq![name, dns_name],
    )
}

/// The system-directory section.
pub open spec fn system_directory_text(path: Seq<char>) -> Seq<char> {
    section_text(
        system_directory_title(),
        seq![buffer_label()],
        BUFFER_WIDTH as int,
        seq![path],
    )
}

/// The user section: the simple name, then the qualified one.
pub open spec fn username_text(name: Seq<char>, qualified: Seq<char>) -> Seq<char> {
    section_text(
        username_title(),
        seq![buffer_label(), buffer_label()],
        BUFFER_WIDTH as int,
        seq![name, qualified],
    )
}

/// One field of the structured form of the counters.
pub open spec fn counter_line(name: Seq<char>, value: nat) -> Seq<char> {
    "    "@ + name + ": "@ + dec_digits(value) + ",\n"@
}

/// The structured form of the counters: the name of the host's structure,
/// and between braces one indented line for each field, in the order of the
/// structure.
pub open spec fn counters_text(p: PerformanceInfo) -> Seq<char> {
    "PERFORMANCE_INFORMATION {\n"@ + counter_line("cb"@, p.cb as nat) + counter_line(
        "CommitTotal"@,
        p.commit_total as nat,
    ) + counter_line("CommitLimit"@, p.commit_limit as nat) + counter_line(
        "CommitPeak"@,
        p.commit_peak as nat,
    ) + counter_line("PhysicalTotal"@, p.physical_total as nat) + counter_line(
        "PhysicalAvailable"@,
        p.physical_available as nat,
    ) + counter_line("SystemCache"@, p.system_cache as nat) + counter_line(
        "KernelTotal"@,
        p.kernel_total as nat,
    ) + counter_line("KernelPaged"@, p.kernel_paged as nat) + counter_line(
        "KernelNonpaged"@,
        p.kernel_nonpaged as nat,
    ) + counter_line("PageSize"@, p.page_size as nat) + counter_line(
        "HandleCount"@,
        p.handle_count as nat,
    ) + counter_line("ProcessCount"@, p.process_count as nat) + counter_line(
        "ThreadCount"@,
        p.thread_count as nat,
    ) + "}"@
}

/// What follows the title of the performance section: the counters and two
/// line ends.
pub open spec fn performance_body(p: PerformanceInfo) -> Seq<char> {
    counters_text(p) + "\n\n"@
}

/// The performance section.
pub open spec fn performance_info_text(p: PerformanceInfo) -> Seq<char> {
    performance_info_title() + "\n"@ + performance_body(p)
}

/// The whole report: the five sections in their fixed order.
pub open spec fn report_text(
    info: SystemInfo,
    computer_name: Seq<char>,
    computer_dns_name: Seq<char>,
    system_directory: Seq<char>,
    username: Seq<char>,
    qualified_username: Seq<char>,
    counters: PerformanceInfo,
) -> Seq<char> {
    system_info_text(info) + computer_name_text(computer_name, computer_dns_name)
        + system_directory_text(system_directory) + username_text(username, qualified_username)
        + performance_info_text(counters)
}

/// Formats a `PERFORMANCE_INFORMATION` of the `windows` crate with `{:#?}`.
/// Its `Debug` impl hands the structure's name and its fourteen fields, in
/// their order, to `debug_struct`; the pretty form of that is the name, an
/// opening brace, each field on an indented line of its own as name, colon,
/// decimal number, comma, and a closing brace.
#[verifier::external_body]
fn counters_debug(p: &PerformanceInfo) -> (s: String)
    ensures
        s@ == counters_text(*p),
{
    let raw = PERFORMANCE_INFORMATION {
        cb: p.cb, CommitTotal: p.commit_total, CommitLimit: p.commit_limit,
        CommitPeak: p.commit_peak, PhysicalTotal: p.physical_total,
        PhysicalAvailable: p.physical_available, SystemCache: p.system_cache,
        KernelTotal: p.kernel_total, KernelPaged: p.kernel_paged,
        KernelNonpaged: p.kernel_nonpaged, PageSize: p.page_size,
        HandleCount: p.handle_count, ProcessCount: p.process_count,
        ThreadCount: p.thread_count,
    };
    format!("{:#?}", raw)
}

/// Appends one field line to `out`.
pub fn push_field(out: &mut String, label: &str, width: usize, value: &str)
    ensures
        final(out)@ == old(out)@ + field_line(label@, width as int, value@),
{
    let ghost start = out@;
    out.append(" - ");
    out.append(label);
    let mut n: usize = label.unicode_len();
    while n < width
        invariant
            label@.len() <= n,
            n == label@.len() || n <= width,
            out@ == start + " - "@ + label@ + padding(n - label@.len()),
        decreases width - n,
    {
        proof {
            reveal_strlit(" ");
            assert(padding(n - label@.len()) + " "@ =~= padding(n + 1 - label@.len()));
        }
        out.append(" ");
        n += 1;
        assert(out@ =~= start + " - "@ + label@ + padding(n - label@.len()));
    }
    assert(padding(n - label@.len()) =~= padding(width - label@.len()));
    out.append(" : ");
    out.append(value);
    out.append("\n");
    assert(out@ =~= start + field_line(label@, width as int, value@));
}

/// The lines of the first `k` fields are those of the first `k - 1` and the
/// line of field `k - 1`, whatever stands before them.
pub proof fn lemma_next_line(
    start: Seq<char>,
    labels: Seq<Seq<char>>,
    width: int,
    values: Seq<Seq<char>>,
    k: int,
)
    requires
        k >= 1,
    ensures
        start + field_lines(labels, width, values, k) == (start + field_lines(
            labels,
            width,
            values,
            k - 1,
        )) + field_line(labels[k - 1], width, values[k - 1]),
{
    let head = field_lines(labels, width, values, k - 1);
    let line = field_line(labels[k - 1], width, values[k - 1]);
    assert(field_lines(labels, width, values, k) == head + line);
    assert(start + (head + line) =~= (start + head) + line);
}

/// Appends a field line whose value is a number in decimal.
fn push_number(out: &mut String, label: &str, value: u64)
    ensures
        final(out)@ == old(out)@ + field_line(
            label@,
            TOPOLOGY_WIDTH as int,
            dec_digits(value as nat),
        ),
{
    let v = decimal(value);
    push_field(out, label, TOPOLOGY_WIDTH, v.as_str());
}

/// Appends a field line whose value is an address.
fn push_address(out: &mut String, label: &str, value: u64)
    ensures
        final(out)@ == old(out)@ + field_line(
            label@,
            TOPOLOGY_WIDTH as int,
            address_text(value as nat),
        ),
{
    let v = address(value);
    push_field(out, label, TOPOLOGY_WIDTH, v.as_str());
}

/// Appends the ten field lines of the topology section to `out`.
pub fn push_topology_lines(out: &mut String, info: &SystemInfo)
    ensures
        final(out)@ == old(out)@ + topology_lines(*info),
{
    let ghost start = out@;
    let ghost labels = topology_labels();
    let ghost values = topology_values(*info);
    let ghost w = TOPOLOGY_WIDTH as int;
    assert(out@ =~= start + field_lines(labels, w, values, 0));
    push_number(out, "dwOemId", info.oem_id as u64);
    proof {
        lemma_next_line(start, labels, w, values, 1);
    }
    push_number(out, "dwPageSize", info.page_size as u64);
    proof {
        lemma_next_line(start, labels, w, values, 2);
    }
    push_address(out, "lpMinimumApplicationAddress", info.minimum_application_address);
    proof {
        lemma_next_line(start, labels, w, values, 3);
    }
    push_address(out, "lpMaximumApplicationAddress", info.maximum_application_address);
    proof {
        lemma_next_line(start, labels, w, values, 4);
    }
    push_number(out, "dwActiveProcessorMask", info.active_processor_mask);
    proof {
        lemma_next_line(start, labels, w, values, 5);
    }
    push_number(out, "dwNumberOfProcessors", info.number_of_processors as u64);
    proof {
        lemma_next_line(start, labels, w, values, 6);
    }
    push_number(out, "dwProcessorType", info.processor_type as u64);
    proof {
        lemma_next_line(start, labels, w, values, 7);
    }
    push_number(out, "dwAllocationGranularity", info.allocation_granularity as u64);
    proof {
        lemma_next_line(start, labels, w, values, 8);
    }
    push_number(out, "wProcessorLevel", info.processor_level as u64);
    proof {
        lemma_next_line(start, labels, w, values, 9);
    }
    push_number(out, "wProcessorRevision", info.processor_revision as u64);
    proof {
        lemma_next_line(start, labels, w, values, 10);
    }
}

/// Appends the line that shows what a buffer holds.
pub fn push_buffer_line(out: &mut String, value: &str)
    ensures
        final(out)@ == old(out)@ + buffer_line(value@),
{
    push_field(out, "lpBuffer", BUFFER_WIDTH, value);
}

/// Appends the counters and the two line ends that follow them.
pub fn push_performance_body(out: &mut String, p: &PerformanceInfo)
    ensures
        final(out)@ == old(out)@ + performance_body(*p),
{
    let ghost start = out@;
    let text = counters_debug(p);
    out.append(text.as_str());
    out.append("\n\n");
    assert(out@ =~= start + performance_body(*p));
}

/// The topology section of the report.
pub fn system_info_section(info: &SystemInfo) -> (s: String)
    ensures
        s@ == system_info_text(*info),
{
    let mut s = String::new();
    s.append("1. System Information");
    s.append("\n");
    push_topology_lines(&mut s, info);
    s.append("\n");
    assert(s@ =~= system_info_text(*info));
    s
}

/// A section of two buffer lines under `title`.
fn two_line_section(title: &str, first: &str, second: &str) -> (s: String)
    ensures
        s@ == section_text(
            title@,
            seq![buffer_label(), buffer_label()],
            BUFFER_WIDTH as int,
            seq![first@, second@],
        ),
{
    let ghost labels = seq![buffer_label(), buffer_label()];
    let ghost values = seq![first@, second@];
    let ghost w = BUFFER_WIDTH as int;
    let mut s = String::new();
    s.append(title);
    s.append("\n");
    assert(s@ =~= title@ + "\n"@ + field_lines(labels, w, values, 0));
    push_buffer_line(&mut s, first);
    proof {
        lemma_next_line(title@ + "\n"@, labels, w, values, 1);
    }
    push_buffer_line(&mut s, second);
    proof {
        lemma_next_line(title@ + "\n"@, labels, w, values, 2);
    }
    s.append("\n");
    assert(s@ =~= section_text(title@, labels, w, values));
    s
}

/// The computer-name section of the report.
pub fn computer_name_section(name: &str, dns_name: &str) -> (s: String)
    ensures
        s@ == computer_name_text(name@, dns_name@),
{
    two_line_section("2. Computer Name", name, dns_name)
}

/// The system-directory section of the report.
pub fn system_directory_section(path: &str) -> (s: String)
    ensures
        s@ == system_directory_text(path@),
{
    let ghost labels = seq![buffer_label()];
    let ghost values = seq![path@];
    let ghost w = BUFFER_WIDTH as int;
    let mut s = String::new();
    s.append("3. System Directory");
    s.append("\n");
    assert(s@ =~= system_directory_title() + "\n"@ + field_lines(labels, w, values, 0));
    push_buffer_line(&mut s, path);
    proof {
        lemma_next_line(system_directory_title() + "\n"@, labels, w, values, 1);
    }
    s.append("\n");
    assert(s@ =~= system_directory_text(path@));
    s
}

/// The user section of the report.
pub fn username_section(name: &str, qualified: &str) -> (s: String)
    ensures
        s@ == username_text(name@, qualified@),
{
    two_line_section("4. User Name", name, qualified)
}

/// The performance section of the report.
pub fn performance_info_section(p: &PerformanceInfo) -> (s: String)
    ensures
        s@ == performance_info_text(*p),
{
    let mut s = String::new();
    s.append("5. Performance Information");
    s.append("\n");
    push_performance_body(&mut s, p);
    assert(s@ =~= performance_info_text(*p));
    s
}

/// The whole report, from the answers to all seven queries.
pub fn report(
    info: &SystemInfo,
    computer_name: &str,
    computer_dns_name: &str,
    system_directory: &str,
    username: &str,
    qualified_username: &str,
    counters: &PerformanceInfo,
) -> (s: String)
    ensures
        s@ == report_text(
            *info,
            computer_name@,
            computer_dns_name@,
            system_directory@,
            username@,
            qualified_username@,
            *counters,
        ),
{
    let mut s = system_info_section(info);
    let part = computer_name_section(computer_name, computer_dns_name);
    s.append(part.as_str());
    let part = system_directory_section(system_directory);
    s.append(part.as_str());
    let part = username_section(username, qualified_username);
    s.append(part.as_str());
    let part = performance_info_section(counters);
    s.append(part.as_str());
    s
}

/// The lines of a section stand in the order of its labels: the line of
/// field `k` follows the lines of the `k` fields before it, and all of them
/// together begin the lines of any larger number of fields.
pub proof fn lemma_lines_in_order(
    labels: Seq<Seq<char>>,
    width: int,
    values: Seq<Seq<char>>,
    n: int,
    k: int,
)
    requires
        0 <= k < n,
    ensures
        field_lines(labels, width, values, k + 1) == field_lines(labels, width, values, k)
            + field_line(labels[k], width, values[k]),
        field_lines(labels, width, values, k + 1).is_prefix_of(
            field_lines(labels, width, values, n),
        ),
    decreases n - k,
{
    if n > k + 1 {
        lemma_lines_in_order(labels, width, values, n - 1, k);
    }
}

/// The topology section has ten labels, each no wider than its column, and
/// no two of them are the same.
pub proof fn lemma_topology_labels()
    ensures
        topology_labels().len() == 10,
        forall|i: int| 0 <= i < 10 ==> (#[trigger] topology_labels()[i]).len() <= TOPOLOGY_WIDTH,
        forall|i: int, j: int|
            0 <= i < j < 10 ==> #[trigger] topology_labels()[i] != #[trigger] topology_labels()[j],
{
    reveal_strlit("dwOemId");
    reveal_strlit("dwPageSize");
    reveal_strlit("lpMinimumApplicationAddress");
    reveal_strlit("lpMaximumApplicationAddress");
    reveal_strlit("dwActiveProcessorMask");
    reveal_strlit("dwNumberOfProcessors");
    reveal_strlit("dwProcessorType");
    reveal_strlit("dwAllocationGranularity");
    reveal_strlit("wProcessorLevel");
    reveal_strlit("wProcessorRevision");
    let l = topology_labels();
    assert(l[0].len() == 7 && l[1].len() == 10 && l[2].len() == 27 && l[3].len() == 27);
    assert(l[4].len() == 21 && l[5].len() == 20 && l[6].len() == 15 && l[7].len() == 23);
    assert(l[8].len() == 15 && l[9].len() == 18);
    assert(l[2][3] != l[3][3]);
    assert(l[6][0] != l[8][0]);
    assert forall|i: int, j: int| 0 <= i < j < 10 implies #[trigger] l[i] != #[trigger] l[j] by {
        assert(i == 0 || i == 1 || i == 2 || i == 3 || i == 4 || i == 5 || i == 6 || i == 7 || i
            == 8);
        assert(j == 1 || j == 2 || j == 3 || j == 4 || j == 5 || j == 6 || j == 7 || j == 8 || j
            == 9);
    }
}

/// Every section holds text, whatever the host answered.
pub proof fn lemma_sections_not_empty(
    info: SystemInfo,
    computer_name: Seq<char>,
    computer_dns_name: Seq<char>,
    system_directory: Seq<char>,
    username: Seq<char>,
    qualified_username: Seq<char>,
    counters: PerformanceInfo,
)
    ensures
        system_info_text(info).len() > 0,
        computer_name_text(computer_name, computer_dns_name).len() > 0,
        system_directory_text(system_directory).len() > 0,
        username_text(username, qualified_username).len() > 0,
        performance_info_text(counters).len() > 0,
{
    reveal_strlit("\n");
}

} // verus!
