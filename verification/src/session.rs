//! The order of the report: which query follows which, what is written
//! after each answer, and where a failure ends the report.

use vstd::prelude::*;
use crate::host::{PerformanceInfo, PerformanceReply, Query, QueryError, SystemInfo, TextQuery, TextReply};
use crate::report::{
    buffer_label, buffer_line, computer_name_text, computer_name_title, field_lines,
    performance_body, performance_info_text, performance_info_title, push_buffer_line,
    push_performance_body, push_topology_lines, report_text, system_directory_text,
    system_directory_title, system_info_text, system_info_title, topology_lines, username_text,
    username_title, BUFFER_WIDTH,
};
use crate::wide::{buffer_text, wide_text};

verus! {

/// What is to be done after a step.
#[derive(Clone, Copy, Debug, PartialEq, Eq, Structural)]
pub enum Next {
    /// Put this query to the host and hand its answer to the step for it.
    Ask(Query),
    /// The report is complete.
    Finish,
    /// A query failed: the report ends here.
    Abort(QueryError),
}

/// One step of the report: the text to write now, and what to do then.
#[derive(Debug, PartialEq, Eq)]
pub struct Step {
    pub output: String,
    pub next: Next,
}

/// A report as far as it got: all that was written, and the failure that
/// ended it, if one did.
#[derive(Debug, PartialEq, Eq)]
pub struct Outcome {
    pub output: String,
    pub failure: Option<QueryError>,
}

/// The query that follows `query` in the fixed order of the report.
pub open spec fn query_after(query: Query) -> Next {
    match query {
        Query::Topology => Next::Ask(Query::Text(TextQuery::ComputerName)),
        Query::Text(TextQuery::ComputerName) => Next::Ask(Query::Text(TextQuery::ComputerNameDns)),
        Query::Text(TextQuery::ComputerNameDns) => Next::Ask(
            Query::Text(TextQuery::SystemDirectory),
        ),
        Query::Text(TextQuery::SystemDirectory) => Next::Ask(Query::Text(TextQuery::UserName)),
        Query::Text(TextQuery::UserName) => Next::Ask(Query::Text(TextQuery::QualifiedUserName)),
        Query::Text(TextQuery::QualifiedUserName) => Next::Ask(Query::Performance),
        Query::Performance => Next::Finish,
    }
}

/// The seven queries in the order in which a report puts them.
pub open spec fn query_order() -> Seq<Query> {
    seq![
        Query::Topology,
        Query::Text(TextQuery::ComputerName),
        Query::Text(TextQuery::ComputerNameDns),
        Query::Text(TextQuery::SystemDirectory),
        Query::Text(TextQuery::UserName),
        Query::Text(TextQuery::QualifiedUserName),
        Query::Performance,
    ]
}

/// The order is fixed: after each query comes the next of the seven, after
/// the last the end of the report, and there is no query beside them.
pub proof fn lemma_fixed_order()
    ensures
        query_order().len() == 7,
        forall|i: int|
            0 <= i < 6 ==> query_after(#[trigger] query_order()[i]) == Next::Ask(
                query_order()[i + 1],
            ),
        query_after(query_order()[6]) == Next::Finish,
        forall|q: Query| #[trigger] query_order().contains(q),
{
    let order = query_order();
    assert forall|q: Query| #[trigger] order.contains(q) by {
        match q {
            Query::Topology => assert(order[0] == q),
            Query::Text(TextQuery::ComputerName) => assert(order[1] == q),
            Query::Text(TextQuery::ComputerNameDns) => assert(order[2] == q),
            Query::Text(TextQuery::SystemDirectory) => assert(order[3] == q),
            Query::Text(TextQuery::UserName) => assert(order[4] == q),
            Query::Text(TextQuery::QualifiedUserName) => assert(order[5] == q),
            Query::Performance => assert(order[6] == q),
        }
    }
}

/// What is written before the first query: the title of the first section.
pub open spec fn opening_text() -> Seq<char> {
    system_info_title() + "\n"@
}

/// What ends a section and opens the next: an empty line and a title line.
pub open spec fn section_break(title: Seq<char>) -> Seq<char> {
    "\n"@ + title + "\n"@
}

/// What is written after the topology query: its ten lines, and the title
/// of the second section.
pub open spec fn topology_output(info: SystemInfo) -> Seq<char> {
    topology_lines(info) + section_break(computer_name_title())
}

/// What is written after a text query that gave `text`: a buffer line, and
/// where the query is the last of its section, the title of the next.
pub open spec fn text_output(query: TextQuery, text: Seq<char>) -> Seq<char> {
    match query {
        TextQuery::ComputerName => buffer_line(text),
        TextQuery::ComputerNameDns => buffer_line(text) + section_break(system_directory_title()),
        TextQuery::SystemDirectory => buffer_line(text) + section_break(username_title()),
        TextQuery::UserName => buffer_line(text),
        TextQuery::QualifiedUserName => buffer_line(text) + section_break(
            performance_info_title(),
        ),
    }
}

/// The failure that a reply to a text query reports, if it reports one.
pub open spec fn text_failure(query: TextQuery, reply: TextReply) -> Option<QueryError> {
    match reply {
        TextReply::Filled(_) => None,
        TextReply::Failed(code) => Some(QueryError { query: Query::Text(query), code }),
    }
}

/// The failure that a reply to the performance query reports, if it
/// reports one.
pub open spec fn performance_failure(reply: PerformanceReply) -> Option<QueryError> {
    match reply {
        PerformanceReply::Counters(_) => None,
        PerformanceReply::Failed(code) => Some(QueryError { query: Query::Performance, code }),
    }
}

/// What is written after a reply to a text query: nothing where it failed.
pub open spec fn text_reply_output(query: TextQuery, reply: TextReply) -> Seq<char> {
    match reply {
        TextReply::Filled(buffer) => text_output(query, buffer_text(buffer@)),
        TextReply::Failed(_) => Seq::empty(),
    }
}

/// What is written after a reply to the performance query: nothing where
/// it failed.
pub open spec fn performance_reply_output(reply: PerformanceReply) -> Seq<char> {
    match reply {
        PerformanceReply::Counters(p) => performance_body(p),
        PerformanceReply::Failed(_) => Seq::empty(),
    }
}

/// The first step: the title of the first section, then the topology query.
pub fn begin() -> (step: Step)
    ensures
        step.output@ == opening_text(),
        step.next == Next::Ask(Query::Topology),
{
    let mut output = String::new();
    output.append("1. System Information");
    output.append("\n");
    assert(output@ =~= opening_text());
    Step { output, next: Next::Ask(Query::Topology) }
}

/// Appends the empty line that ends a section and the title of the next.
fn push_break(out: &mut String, title: &str)
    ensures
        final(out)@ == old(out)@ + section_break(title@),
{
    out.append("\n");
    out.append(title);
    out.append("\n");
    assert(final(out)@ =~= old(out)@ + section_break(title@));
}

/// The step after the topology query, which cannot fail.
pub fn after_topology(info: &SystemInfo) -> (step: Step)
    ensures
        step.output@ == topology_output(*info),
        step.next == query_after(Query::Topology),
{
    let mut output = String::new();
    push_topology_lines(&mut output, info);
    push_break(&mut output, "2. Computer Name");
    assert(output@ =~= topology_output(*info));
    Step { output, next: Next::Ask(Query::Text(TextQuery::ComputerName)) }
}

/// The step after a text query that gave `text`.
pub fn text_step(query: TextQuery, text: &str) -> (step: Step)
    ensures
        step.output@ == text_output(query, text@),
        step.next == query_after(Query::Text(query)),
{
    let mut output = String::new();
    push_buffer_line(&mut output, text);
    assert(output@ =~= buffer_line(text@));
    match query {
        TextQuery::ComputerName => Step {
            output,
            next: Next::Ask(Query::Text(TextQuery::ComputerNameDns)),
        },
        TextQuery::ComputerNameDns => {
            push_break(&mut output, "3. System Directory");
            Step { output, next: Next::Ask(Query::Text(TextQuery::SystemDirectory)) }
        },
        TextQuery::SystemDirectory => {
            push_break(&mut output, "4. User Name");
            Step { output, next: Next::Ask(Query::Text(TextQuery::UserName)) }
        },
        TextQuery::UserName => Step {
            output,
            next: Next::Ask(Query::Text(TextQuery::QualifiedUserName)),
        },
        TextQuery::QualifiedUserName => {
            push_break(&mut output, "5. Performance Information");
            Step { output, next: Next::Ask(Query::Performance) }
        },
    }
}

/// The step after the host's reply to a text query. A failure ends the
/// report, whichever of the five queries it is: nothing is written, and the
/// step names the query and the host's status code.
pub fn after_text(query: TextQuery, reply: &TextReply) -> (step: Step)
    ensures
        step.output@ == text_reply_output(query, *reply),
        step.next == match text_failure(query, *reply) {
            Some(e) => Next::Abort(e),
            None => query_after(Query::Text(query)),
        },
{
    match reply {
        TextReply::Filled(buffer) => {
            let text = wide_text(buffer.as_slice());
            text_step(query, text.as_str())
        },
        TextReply::Failed(code) => Step {
            output: String::new(),
            next: Next::Abort(QueryError { query: Query::Text(query), code: *code }),
        },
    }
}

/// The step after the host's reply to the performance query: the counters
/// and the end of the report, or the failure.
pub fn after_performance(reply: &PerformanceReply) -> (step: Step)
    ensures
        step.output@ == performance_reply_output(*reply),
        step.next == match performance_failure(*reply) {
            Some(e) => Next::Abort(e),
            None => Next::Finish,
        },
{
    match reply {
        PerformanceReply::Counters(p) => {
            let mut output = String::new();
            push_performance_body(&mut output, p);
            assert(output@ =~= performance_body(*p));
            Step { output, next: Next::Finish }
        },
        PerformanceReply::Failed(code) => Step {
            output: String::new(),
            next: Next::Abort(QueryError { query: Query::Performance, code: *code }),
        },
    }
}

/// The failure that ends a report, if one does: that of the first query, in
/// the order of the report, that the host failed.
pub open spec fn run_failure(
    computer_name: TextReply,
    computer_dns_name: TextReply,
    system_directory: TextReply,
    username: TextReply,
    qualified_username: TextReply,
    counters: PerformanceReply,
) -> Option<QueryError> {
    if text_failure(TextQuery::ComputerName, computer_name) is Some {
        text_failure(TextQuery::ComputerName, computer_name)
    } else if text_failure(TextQuery::ComputerNameDns, computer_dns_name) is Some {
        text_failure(TextQuery::ComputerNameDns, computer_dns_name)
    } else if text_failure(TextQuery::SystemDirectory, system_directory) is Some {
        text_failure(TextQuery::SystemDirectory, system_directory)
    } else if text_failure(TextQuery::UserName, username) is Some {
        text_failure(TextQuery::UserName, username)
    } else if text_failure(TextQuery::QualifiedUserName, qualified_username) is Some {
        text_failure(TextQuery::QualifiedUserName, qualified_username)
    } else {
        performance_failure(counters)
    }
}

/// All that a report writes: the output of each step in order, up to the
/// first query that the host failed.
pub open spec fn run_output(
    info: SystemInfo,
    computer_name: TextReply,
    computer_dns_name: TextReply,
    system_directory: TextReply,
    username: TextReply,
    qualified_username: TextReply,
    counters: PerformanceReply,
) -> Seq<char> {
    let o1 = opening_text() + topology_output(info);
    let o2 = o1 + text_reply_output(TextQuery::ComputerName, computer_name);
    let o3 = o2 + text_reply_output(TextQuery::ComputerNameDns, computer_dns_name);
    let o4 = o3 + text_reply_output(TextQuery::SystemDirectory, system_directory);
    let o5 = o4 + text_reply_output(TextQuery::UserName, username);
    let o6 = o5 + text_reply_output(TextQuery::QualifiedUserName, qualified_username);
    let o7 = o6 + performance_reply_output(counters);
    if text_failure(TextQuery::ComputerName, computer_name) is Some {
        o1
    } else if text_failure(TextQuery::ComputerNameDns, computer_dns_name) is Some {
        o2
    } else if text_failure(TextQuery::SystemDirectory, system_directory) is Some {
        o3
    } else if text_failure(TextQuery::UserName, username) is Some {
        o4
    } else if text_failure(TextQuery::QualifiedUserName, qualified_username) is Some {
        o5
    } else {
        o7
    }
}

/// Runs the report over the host's replies to its seven queries, step by
/// step. A reply that follows a failed one is not looked at.
pub fn run(
    info: &SystemInfo,
    computer_name: &TextReply,
    computer_dns_name: &TextReply,
    system_directory: &TextReply,
    username: &TextReply,
    qualified_username: &TextReply,
    counters: &PerformanceReply,
) -> (r: Outcome)
    ensures
        r.failure == run_failure(
            *computer_name,
            *computer_dns_name,
            *system_directory,
            *username,
            *qualified_username,
            *counters,
        ),
        r.output@ == run_output(
            *info,
            *computer_name,
            *computer_dns_name,
            *system_directory,
            *username,
            *qualified_username,
            *counters,
        ),
{
    let first = begin();
    let mut output = first.output;
    let step = after_topology(info);
    output.append(step.output.as_str());
    let step = after_text(TextQuery::ComputerName, computer_name);
    if let Next::Abort(e) = step.next {
        return Outcome { output, failure: Some(e) };
    }
    output.append(step.output.as_str());
    let step = after_text(TextQuery::ComputerNameDns, computer_dns_name);
    if let Next::Abort(e) = step.next {
        return Outcome { output, failure: Some(e) };
    }
    output.append(step.output.as_str());
    let step = after_text(TextQuery::SystemDirectory, system_directory);
    if let Next::Abort(e) = step.next {
        return Outcome { output, failure: Some(e) };
    }
    output.append(step.output.as_str());
    let step = after_text(TextQuery::UserName, username);
    if let Next::Abort(e) = step.next {
        return Outcome { output, failure: Some(e) };
    }
    output.append(step.output.as_str());
    let step = after_text(TextQuery::QualifiedUserName, qualified_username);
    if let Next::Abort(e) = step.next {
        return Outcome { output, failure: Some(e) };
    }
    output.append(step.output.as_str());
    let step = after_performance(counters);
    output.append(step.output.as_str());
    match step.next {
        Next::Abort(e) => Outcome { output, failure: Some(e) },
        _ => Outcome { output, failure: None },
    }
}

/// Text written piece by piece, each section's title before its lines and
/// its closing empty line with the next title, is the text of the sections
/// one after the other.
proof fn lemma_regroup(
    t1: Seq<char>,
    t2: Seq<char>,
    t3: Seq<char>,
    t4: Seq<char>,
    t5: Seq<char>,
    n: Seq<char>,
    lines: Seq<char>,
    l1: Seq<char>,
    l2: Seq<char>,
    l3: Seq<char>,
    l4: Seq<char>,
    l5: Seq<char>,
    body: Seq<char>,
)
    ensures
        (t1 + n) + (lines + (n + t2 + n)) + l1 + (l2 + (n + t3 + n)) + (l3 + (n + t4 + n)) + l4 + (
        l5 + (n + t5 + n)) + body == (t1 + n + lines + n) + (t2 + n + (l1 + l2) + n) + (t3 + n + l3
            + n) + (t4 + n + (l4 + l5) + n) + (t5 + n + body),
{
    let a = (t1 + n) + (lines + (n + t2 + n)) + l1 + (l2 + (n + t3 + n));
    let b = (t1 + n + lines + n) + (t2 + n + (l1 + l2) + n) + (t3 + n);
    assert(a =~= b);
    let c = a + (l3 + (n + t4 + n)) + l4;
    let d = b + (l3 + n) + (t4 + n + l4);
    assert(c =~= d);
    assert(c + (l5 + (n + t5 + n)) + body =~= d + (l5 + n) + (t5 + n + body));
    assert(d + (l5 + n) + (t5 + n + body) =~= (t1 + n + lines + n) + (t2 + n + (l1 + l2) + n) + (t3
        + n + l3 + n) + (t4 + n + (l4 + l5) + n) + (t5 + n + body));
}

/// Two buffer lines are the field lines of a section of two buffers.
proof fn lemma_two_lines(first: Seq<char>, second: Seq<char>)
    ensures
        field_lines(
            seq![buffer_label(), buffer_label()],
            BUFFER_WIDTH as int,
            seq![first, second],
            2,
        ) == buffer_line(first) + buffer_line(second),
{
    let labels = seq![buffer_label(), buffer_label()];
    let values = seq![first, second];
    let w = BUFFER_WIDTH as int;
    reveal_with_fuel(field_lines, 3);
    assert(field_lines(labels, w, values, 0) =~= Seq::<char>::empty());
    assert(field_lines(labels, w, values, 1) =~= buffer_line(first));
}

/// One buffer line is the field lines of a section of one buffer.
proof fn lemma_one_line(value: Seq<char>)
    ensures
        field_lines(seq![buffer_label()], BUFFER_WIDTH as int, seq![value], 1) == buffer_line(
            value,
        ),
{
    reveal_with_fuel(field_lines, 2);
    assert(field_lines(seq![buffer_label()], BUFFER_WIDTH as int, seq![value], 1) =~= buffer_line(
        value,
    ));
}

/// Where the host answers every query, the steps write, one after the
/// other, exactly the five sections of the report in their order, and no
/// failure ends it.
pub proof fn lemma_complete_run(
    info: SystemInfo,
    computer_name: Vec<u16>,
    computer_dns_name: Vec<u16>,
    system_directory: Vec<u16>,
    username: Vec<u16>,
    qualified_username: Vec<u16>,
    counters: PerformanceInfo,
)
    ensures
        run_failure(
            TextReply::Filled(computer_name),
            TextReply::Filled(computer_dns_name),
            TextReply::Filled(system_directory),
            TextReply::Filled(username),
            TextReply::Filled(qualified_username),
            PerformanceReply::Counters(counters),
        ) is None,
        run_output(
            info,
            TextReply::Filled(computer_name),
            TextReply::Filled(computer_dns_name),
            TextReply::Filled(system_directory),
            TextReply::Filled(username),
            TextReply::Filled(qualified_username),
            PerformanceReply::Counters(counters),
        ) == report_text(
            info,
            buffer_text(computer_name@),
            buffer_text(computer_dns_name@),
            buffer_text(system_directory@),
            buffer_text(username@),
            buffer_text(qualified_username@),
            counters,
        ),
{
    let x1 = buffer_text(computer_name@);
    let x2 = buffer_text(computer_dns_name@);
    let x3 = buffer_text(system_directory@);
    let x4 = buffer_text(username@);
    let x5 = buffer_text(qualified_username@);
    lemma_two_lines(x1, x2);
    lemma_one_line(x3);
    lemma_two_lines(x4, x5);
    lemma_regroup(
        system_info_title(),
        computer_name_title(),
        system_directory_title(),
        username_title(),
        performance_info_title(),
        "\n"@,
        topology_lines(info),
        buffer_line(x1),
        buffer_line(x2),
        buffer_line(x3),
        buffer_line(x4),
        buffer_line(x5),
        performance_body(counters),
    );
    assert(system_info_text(info) == system_info_title() + "\n"@ + topology_lines(info) + "\n"@);
    assert(computer_name_text(x1, x2) == computer_name_title() + "\n"@ + (buffer_line(x1)
        + buffer_line(x2)) + "\n"@);
    assert(system_directory_text(x3) == system_directory_title() + "\n"@ + buffer_line(x3)
        + "\n"@);
    assert(username_text(x4, x5) == username_title() + "\n"@ + (buffer_line(x4) + buffer_line(x5))
        + "\n"@);
    assert(performance_info_text(counters) == performance_info_title() + "\n"@
        + performance_body(counters));
}

} // verus!
