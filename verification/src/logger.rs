//! Where reports go, and what the HTML report says.
//!
//! Writing files is the caller's part; the text of the HTML report is
//! composed here.

use crate::coverage::CoverageData;
use crate::fuzz_engine::FuzzerStats;
use crate::text::decimal_digits;
use crate::text::push_decimal;
use crate::text::push_text;
use vstd::prelude::*;
use vstd::utf8::*;

verus! {

/// The files that a session reports to. A report whose file is absent is
/// not written.
#[derive(Clone, Debug)]
pub struct Logger {
    log_file: Option<String>,
    html_report_file: Option<String>,
    json_report_file: Option<String>,
}

/// One paragraph of the report: `<p>`, the label, the number, `</p>`.
pub open spec fn html_line(label: Seq<char>, number: nat) -> Seq<u8> {
    encode_utf8("<p>"@) + encode_utf8(label) + decimal_digits(number) + encode_utf8("</p>"@)
}

/// The HTML report for the given numbers, as bytes.
pub open spec fn html_bytes(
    total_runs: nat,
    successful_runs: nat,
    errors: nat,
    timeouts: nat,
    unique_crashes: nat,
    total_crashes: nat,
    inputs_tested: nat,
    blocks_covered: nat,
) -> Seq<u8> {
    encode_utf8(
        "<html><head><title>Fuzzing Report</title></head><body><h1>Fuzzing Statistics</h1>"@,
    ) + html_line("Total Runs: "@, total_runs) + html_line("Successful Runs: "@, successful_runs)
        + html_line("Errors: "@, errors) + html_line("Timeouts: "@, timeouts) + html_line(
        "Unique Crashes: "@,
        unique_crashes,
    ) + html_line("Total Crashes: "@, total_crashes) + html_line("Inputs Tested: "@, inputs_tested)
        + encode_utf8("<h2>Coverage Data</h2>"@) + html_line("Blocks Covered: "@, blocks_covered)
        + encode_utf8("</body></html>"@)
}

/// Appends one paragraph of the report to `out`.
fn push_line(out: &mut Vec<u8>, label: &str, number: usize)
    ensures
        final(out)@ == old(out)@ + html_line(label@, number as nat),
{
    push_text(out, "<p>");
    push_text(out, label);
    push_decimal(out, number as u64);
    push_text(out, "</p>");
    assert(out@ == old(out)@ + html_line(label@, number as nat));
}

impl Logger {
    /// The file that statistics lines are appended to.
    pub closed spec fn log_target(&self) -> Option<String> {
        self.log_file
    }

    /// The file that the HTML report is written to.
    pub closed spec fn html_target(&self) -> Option<String> {
        self.html_report_file
    }

    /// The file that the JSON report is written to.
    pub closed spec fn json_target(&self) -> Option<String> {
        self.json_report_file
    }

    /// A logger for the given files.
    pub fn new(
        log_file: Option<String>,
        html_report_file: Option<String>,
        json_report_file: Option<String>,
    ) -> (logger: Logger)
        ensures
            logger.log_target() == log_file,
            logger.html_target() == html_report_file,
            logger.json_target() == json_report_file,
    {
        Logger { log_file, html_report_file, json_report_file }
    }

    /// The file that statistics lines are appended to.
    pub fn log_file(&self) -> (file: &Option<String>)
        ensures
            *file == self.log_target(),
    {
        &self.log_file
    }

    /// The file that the HTML report is written to.
    pub fn html_report_file(&self) -> (file: &Option<String>)
        ensures
            *file == self.html_target(),
    {
        &self.html_report_file
    }

    /// The file that the JSON report is written to.
    pub fn json_report_file(&self) -> (file: &Option<String>)
        ensures
            *file == self.json_target(),
    {
        &self.json_report_file
    }

    /// The HTML report on `stats` and `coverage_data`: one paragraph per
    /// counter, the number of different crashes and the number of covered
    /// blocks among them.
    pub fn html_report(stats: &FuzzerStats, coverage_data: &CoverageData) -> (page: Vec<u8>)
        ensures
            page@ == html_bytes(
                stats@.total_runs,
                stats@.successful_runs,
                stats@.errors,
                stats@.timeouts,
                stats@.crashes.dom().len(),
                stats@.total_crashes,
                stats@.inputs_tested,
                coverage_data@.blocks.len(),
            ),
    {
        broadcast use vstd::std_specs::hash::group_hash_axioms;

        let mut page: Vec<u8> = Vec::new();
        push_text(
            &mut page,
            "<html><head><title>Fuzzing Report</title></head><body><h1>Fuzzing Statistics</h1>",
        );
        push_line(&mut page, "Total Runs: ", stats.total_runs);
        push_line(&mut page, "Successful Runs: ", stats.successful_runs);
        push_line(&mut page, "Errors: ", stats.errors);
        push_line(&mut page, "Timeouts: ", stats.timeouts);
        push_line(&mut page, "Unique Crashes: ", stats.unique_crashes.len());
        push_line(&mut page, "Total Crashes: ", stats.total_crashes);
        push_line(&mut page, "Inputs Tested: ", stats.inputs_tested);
        push_text(&mut page, "<h2>Coverage Data</h2>");
        push_line(&mut page, "Blocks Covered: ", coverage_data.covered_blocks.len());
        push_text(&mut page, "</body></html>");
        page
    }
}

} // verus!
