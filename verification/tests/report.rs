use sysinfo::host::{
    length_reply, new_buffer, PerformanceInfo, PerformanceReply, Query, QueryError, SystemInfo,
    TextQuery, TextReply, INSUFFICIENT_BUFFER,
};
use sysinfo::report::{
    computer_name_section, performance_info_section, push_buffer_line, push_field, report,
    system_directory_section, system_info_section, username_section,
};
use sysinfo::session::{after_performance, after_text, after_topology, begin, run, text_step, Next};

fn sample_info() -> SystemInfo {
    SystemInfo {
        oem_id: 9,
        page_size: 4096,
        minimum_application_address: 0x10000,
        maximum_application_address: 0x7ffffffeffff,
        active_processor_mask: 255,
        number_of_processors: 8,
        processor_type: 8664,
        allocation_granularity: 65536,
        processor_level: 6,
        processor_revision: 40458,
    }
}

fn sample_counters() -> PerformanceInfo {
    PerformanceInfo {
        cb: 104,
        commit_total: 2_000_000,
        commit_limit: 5_000_000,
        commit_peak: 2_500_000,
        physical_total: 4_194_304,
        physical_available: 1_048_576,
        system_cache: 300_000,
        kernel_total: 200_000,
        kernel_paged: 120_000,
        kernel_nonpaged: 80_000,
        page_size: 4096,
        handle_count: 70_000,
        process_count: 180,
        thread_count: 2400,
    }
}

fn filled(text: &str, units: usize) -> TextReply {
    let mut buffer: Vec<u16> = text.encode_utf16().collect();
    buffer.resize(units, 0);
    TextReply::Filled(buffer)
}

const SYSTEM_INFO: &str = "1. System Information\n - dwOemId                     : 9\n - dwPageSize                  : 4096\n - lpMinimumApplicationAddress : 0x10000\n - lpMaximumApplicationAddress : 0x7ffffffeffff\n - dwActiveProcessorMask       : 255\n - dwNumberOfProcessors        : 8\n - dwProcessorType             : 8664\n - dwAllocationGranularity     : 65536\n - wProcessorLevel             : 6\n - wProcessorRevision          : 40458\n\n";

const COMPUTER_NAME: &str = "2. Computer Name\n - lpBuffer : DESKTOP-7\n - lpBuffer : desktop-7.corp.example\n\n";

const SYSTEM_DIRECTORY: &str = "3. System Directory\n - lpBuffer : C:\\WINDOWS\\system32\n\n";

const USERNAME: &str = "4. User Name\n - lpBuffer : ada\n - lpBuffer : CORP\\ada\n\n";

const PERFORMANCE_INFO: &str = "5. Performance Information\nPERFORMANCE_INFORMATION {\n    cb: 104,\n    CommitTotal: 2000000,\n    CommitLimit: 5000000,\n    CommitPeak: 2500000,\n    PhysicalTotal: 4194304,\n    PhysicalAvailable: 1048576,\n    SystemCache: 300000,\n    KernelTotal: 200000,\n    KernelPaged: 120000,\n    KernelNonpaged: 80000,\n    PageSize: 4096,\n    HandleCount: 70000,\n    ProcessCount: 180,\n    ThreadCount: 2400,\n}\n\n";

#[test]
fn field_line_pads_the_label_to_its_column() {
    let mut s = String::new();
    push_field(&mut s, "ab", 5, "1");
    assert_eq!(s, " - ab    : 1\n");
    push_field(&mut s, "abcdef", 5, "x y");
    assert_eq!(s, " - ab    : 1\n - abcdef : x y\n");
    push_field(&mut s, "", 0, "");
    assert_eq!(s, " - ab    : 1\n - abcdef : x y\n -  : \n");
}

#[test]
fn buffer_line_has_the_buffer_label() {
    let mut s = String::from(">");
    push_buffer_line(&mut s, "host");
    assert_eq!(s, "> - lpBuffer : host\n");
}

#[test]
fn system_info_section_text() {
    assert_eq!(system_info_section(&sample_info()), SYSTEM_INFO);
}

#[test]
fn system_info_section_of_zeros() {
    let info = SystemInfo {
        oem_id: 0,
        page_size: 0,
        minimum_application_address: 0,
        maximum_application_address: 0,
        active_processor_mask: 0,
        number_of_processors: 0,
        processor_type: 0,
        allocation_granularity: 0,
        processor_level: 0,
        processor_revision: 0,
    };
    let text = system_info_section(&info);
    assert!(text.contains(" - lpMinimumApplicationAddress : 0x0\n"));
    assert!(text.contains(" - dwOemId                     : 0\n"));
    assert!(text.ends_with(" - wProcessorRevision          : 0\n\n"));
}

#[test]
fn system_info_labels_once_and_in_order() {
    let text = system_info_section(&sample_info());
    let labels = [
        "dwOemId",
        "dwPageSize",
        "lpMinimumApplicationAddress",
        "lpMaximumApplicationAddress",
        "dwActiveProcessorMask",
        "dwNumberOfProcessors",
        "dwProcessorType",
        "dwAllocationGranularity",
        "wProcessorLevel",
        "wProcessorRevision",
    ];
    let mut from = 0;
    for label in labels {
        let marked = format!(" - {} ", label);
        assert_eq!(text.matches(marked.as_str()).count(), 1);
        let at = text.find(marked.as_str()).unwrap();
        assert!(at >= from);
        from = at;
    }
    assert_eq!(text.lines().count(), 12);
    for line in text.lines().skip(1).take(10) {
        assert_eq!(line.find(" : "), Some(30));
    }
}

#[test]
fn computer_name_section_text() {
    assert_eq!(computer_name_section("DESKTOP-7", "desktop-7.corp.example"), COMPUTER_NAME);
}

#[test]
fn system_directory_section_text() {
    assert_eq!(system_directory_section("C:\\WINDOWS\\system32"), SYSTEM_DIRECTORY);
}

#[test]
fn username_section_text() {
    assert_eq!(username_section("ada", "CORP\\ada"), USERNAME);
}

#[test]
fn username_section_of_empty_names() {
    assert_eq!(username_section("", ""), "4. User Name\n - lpBuffer : \n - lpBuffer : \n\n");
}

#[test]
fn performance_info_section_text() {
    assert_eq!(performance_info_section(&sample_counters()), PERFORMANCE_INFO);
}

#[test]
fn performance_info_labels_once_and_in_order() {
    let text = performance_info_section(&sample_counters());
    let labels = [
        "cb",
        "CommitTotal",
        "CommitLimit",
        "CommitPeak",
        "PhysicalTotal",
        "PhysicalAvailable",
        "SystemCache",
        "KernelTotal",
        "KernelPaged",
        "KernelNonpaged",
        "PageSize",
        "HandleCount",
        "ProcessCount",
        "ThreadCount",
    ];
    let mut from = 0;
    for label in labels {
        let marked = format!("    {}: ", label);
        assert_eq!(text.matches(marked.as_str()).count(), 1);
        let at = text.find(marked.as_str()).unwrap();
        assert!(at >= from);
        from = at;
    }
}

#[test]
fn report_is_the_five_sections_in_order() {
    let text = report(
        &sample_info(),
        "DESKTOP-7",
        "desktop-7.corp.example",
        "C:\\WINDOWS\\system32",
        "ada",
        "CORP\\ada",
        &sample_counters(),
    );
    let expected =
        format!("{}{}{}{}{}", SYSTEM_INFO, COMPUTER_NAME, SYSTEM_DIRECTORY, USERNAME, PERFORMANCE_INFO);
    assert_eq!(text, expected);
}

#[test]
fn begin_writes_the_first_title_and_asks_for_the_topology() {
    let step = begin();
    assert_eq!(step.output, "1. System Information\n");
    assert_eq!(step.next, Next::Ask(Query::Topology));
}

#[test]
fn after_topology_writes_the_lines_and_the_next_title() {
    let step = after_topology(&sample_info());
    let expected = format!("{}2. Computer Name\n", &SYSTEM_INFO["1. System Information\n".len()..]);
    assert_eq!(step.output, expected);
    assert_eq!(step.next, Next::Ask(Query::Text(TextQuery::ComputerName)));
}

#[test]
fn text_steps_follow_the_fixed_order() {
    let step = text_step(TextQuery::ComputerName, "a");
    assert_eq!(step.output, " - lpBuffer : a\n");
    assert_eq!(step.next, Next::Ask(Query::Text(TextQuery::ComputerNameDns)));
    let step = text_step(TextQuery::ComputerNameDns, "b");
    assert_eq!(step.output, " - lpBuffer : b\n\n3. System Directory\n");
    assert_eq!(step.next, Next::Ask(Query::Text(TextQuery::SystemDirectory)));
    let step = text_step(TextQuery::SystemDirectory, "c");
    assert_eq!(step.output, " - lpBuffer : c\n\n4. User Name\n");
    assert_eq!(step.next, Next::Ask(Query::Text(TextQuery::UserName)));
    let step = text_step(TextQuery::UserName, "d");
    assert_eq!(step.output, " - lpBuffer : d\n");
    assert_eq!(step.next, Next::Ask(Query::Text(TextQuery::QualifiedUserName)));
    let step = text_step(TextQuery::QualifiedUserName, "e");
    assert_eq!(step.output, " - lpBuffer : e\n\n5. Performance Information\n");
    assert_eq!(step.next, Next::Ask(Query::Performance));
}

#[test]
fn after_text_decodes_the_buffer() {
    let step = after_text(TextQuery::UserName, &filled("ada", 64));
    assert_eq!(step.output, " - lpBuffer : ada\n");
    assert_eq!(step.next, Next::Ask(Query::Text(TextQuery::QualifiedUserName)));
}

#[test]
fn after_text_aborts_on_a_failure() {
    let step = after_text(TextQuery::ComputerName, &TextReply::Failed(-2147024785));
    assert_eq!(step.output, "");
    assert_eq!(
        step.next,
        Next::Abort(QueryError { query: Query::Text(TextQuery::ComputerName), code: -2147024785 })
    );
}

#[test]
fn after_performance_finishes_or_aborts() {
    let step = after_performance(&PerformanceReply::Counters(sample_counters()));
    assert_eq!(step.output, &PERFORMANCE_INFO["5. Performance Information\n".len()..]);
    assert_eq!(step.next, Next::Finish);
    let step = after_performance(&PerformanceReply::Failed(-5));
    assert_eq!(step.output, "");
    assert_eq!(step.next, Next::Abort(QueryError { query: Query::Performance, code: -5 }));
}

#[test]
fn run_on_a_host_that_answers_everything() {
    let outcome = run(
        &sample_info(),
        &filled("DESKTOP-7", 32),
        &filled("desktop-7.corp.example", 32),
        &filled("C:\\WINDOWS\\system32", 260),
        &filled("ada", 64),
        &filled("CORP\\ada", 64),
        &PerformanceReply::Counters(sample_counters()),
    );
    let expected =
        format!("{}{}{}{}{}", SYSTEM_INFO, COMPUTER_NAME, SYSTEM_DIRECTORY, USERNAME, PERFORMANCE_INFO);
    assert_eq!(outcome.failure, None);
    assert_eq!(outcome.output, expected);
    let titles = [
        "1. System Information\n",
        "2. Computer Name\n",
        "3. System Directory\n",
        "4. User Name\n",
        "5. Performance Information\n",
    ];
    let mut from = 0;
    for title in titles {
        assert_eq!(outcome.output.matches(title).count(), 1);
        let at = outcome.output.find(title).unwrap();
        assert!(at >= from);
        from = at;
    }
}

#[test]
fn run_stops_where_the_qualified_username_fails() {
    let outcome = run(
        &sample_info(),
        &filled("DESKTOP-7", 32),
        &filled("desktop-7.corp.example", 32),
        &filled("C:\\WINDOWS\\system32", 260),
        &filled("ada", 64),
        &TextReply::Failed(-2147023564),
        &PerformanceReply::Counters(sample_counters()),
    );
    assert_eq!(
        outcome.failure,
        Some(QueryError { query: Query::Text(TextQuery::QualifiedUserName), code: -2147023564 })
    );
    let expected = format!(
        "{}{}{}4. User Name\n - lpBuffer : ada\n",
        SYSTEM_INFO, COMPUTER_NAME, SYSTEM_DIRECTORY
    );
    assert_eq!(outcome.output, expected);
}

#[test]
fn run_stops_at_the_first_failure() {
    let outcome = run(
        &sample_info(),
        &TextReply::Failed(1),
        &TextReply::Failed(2),
        &filled("C:\\WINDOWS\\system32", 260),
        &filled("ada", 64),
        &filled("CORP\\ada", 64),
        &PerformanceReply::Failed(3),
    );
    assert_eq!(
        outcome.failure,
        Some(QueryError { query: Query::Text(TextQuery::ComputerName), code: 1 })
    );
    assert_eq!(outcome.output, format!("{}2. Computer Name\n", SYSTEM_INFO));
}

#[test]
fn run_reports_a_failure_of_the_counters() {
    let outcome = run(
        &sample_info(),
        &filled("a", 32),
        &filled("a.b", 32),
        &filled("C:\\", 260),
        &filled("u", 64),
        &filled("D\\u", 64),
        &PerformanceReply::Failed(-7),
    );
    assert_eq!(outcome.failure, Some(QueryError { query: Query::Performance, code: -7 }));
    assert!(outcome.output.ends_with(" - lpBuffer : D\\u\n\n5. Performance Information\n"));
}

#[test]
fn buffers_have_the_size_of_their_query() {
    assert_eq!(new_buffer(TextQuery::ComputerName), vec![0u16; 32]);
    assert_eq!(new_buffer(TextQuery::ComputerNameDns), vec![0u16; 32]);
    assert_eq!(new_buffer(TextQuery::SystemDirectory), vec![0u16; 260]);
    assert_eq!(new_buffer(TextQuery::UserName), vec![0u16; 64]);
    assert_eq!(new_buffer(TextQuery::QualifiedUserName), vec![0u16; 64]);
}

#[test]
fn length_reply_tells_failure_from_success() {
    assert_eq!(length_reply(0, -9, vec![0u16; 4]), TextReply::Failed(-9));
    assert_eq!(length_reply(5, 0, vec![0u16; 4]), TextReply::Failed(INSUFFICIENT_BUFFER));
    assert_eq!(length_reply(3, 0, vec![67, 58, 92, 0]), TextReply::Filled(vec![67, 58, 92, 0]));
    assert_eq!(length_reply(4, 0, vec![67, 58, 92, 0]), TextReply::Filled(vec![67, 58, 92, 0]));
    assert_eq!(INSUFFICIENT_BUFFER, 0x8007007Au32 as i32);
}
