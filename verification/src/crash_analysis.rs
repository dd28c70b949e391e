//! A catalogue of crashes, one record per distinct failure description.
//!
//! Crashes are told apart by the SHA-256 digest of their description,
//! computed by `sha2`. Severity and exploitability are read off the
//! description by looking for a few telling phrases.

use crate::errors::FuzzerError;
use crate::mutator::copy_bytes;
use crate::text::mentions;
use crate::text::text_mentions;
use sha2::Digest;
use sha2::Sha256;
use vstd::prelude::*;

verus! {

/// How bad a crash is.
#[derive(Clone, Copy, Debug, PartialEq, Eq, Structural)]
pub enum CrashSeverity {
    Low,
    Medium,
    High,
    Critical,
}

/// How likely a crash can be turned into an attack.
#[derive(Clone, Copy, Debug, PartialEq, Eq, Structural)]
pub enum Exploitability {
    NotExploitable,
    Potential,
    Probable,
    Proven,
}

/// What is known about one crash.
#[derive(Clone, Debug)]
pub struct CrashInfo {
    /// Digest of the description, in lower-case hexadecimal.
    pub crash_hash: String,
    /// The input that crashed the target.
    pub input: Vec<u8>,
    /// The failure description.
    pub stack_trace: Option<String>,
    pub severity: CrashSeverity,
    pub exploitability: Exploitability,
}

/// The SHA-256 digest of the UTF-8 bytes of `text`, written as 64
/// lower-case hexadecimal digits, as `sha2` computes it.
pub uninterp spec fn sha256_hex(text: Seq<char>) -> Seq<char>;

/// Calls `sha2::Sha256::digest` on the bytes of `crash_info` and formats
/// the digest with `{:x}`. The result is the digest named by [`sha256_hex`].
#[verifier::external_body]
fn calculate_crash_hash(crash_info: &str) -> (hash: String)
    ensures
        hash@ == sha256_hex(crash_info@),
{
    format!("{:x}", Sha256::digest(crash_info.as_bytes()))
}

/// The severity that a description stands for: critical if it mentions a
/// buffer overflow, else high if it mentions a null pointer, else medium.
pub open spec fn severity_of(crash_info: Seq<char>) -> CrashSeverity {
    if mentions(crash_info, "buffer overflow"@) {
        CrashSeverity::Critical
    } else if mentions(crash_info, "null pointer"@) {
        CrashSeverity::High
    } else {
        CrashSeverity::Medium
    }
}

/// The exploitability that a description stands for: proven if it
/// mentions control over EIP, else probable if it mentions heap
/// corruption, else potential.
pub open spec fn exploitability_of(crash_info: Seq<char>) -> Exploitability {
    if mentions(crash_info, "control over EIP"@) {
        Exploitability::Proven
    } else if mentions(crash_info, "heap corruption"@) {
        Exploitability::Probable
    } else {
        Exploitability::Potential
    }
}

/// Whether `info` is the record of a crash with the given digest, input
/// and description.
pub open spec fn describes(
    info: CrashInfo,
    crash_hash: Seq<char>,
    crash_input: Seq<u8>,
    crash_info: Seq<char>,
) -> bool {
    &&& info.crash_hash@ == crash_hash
    &&& info.input@ == crash_input
    &&& info.stack_trace matches Some(trace)
    &&& trace@ == crash_info
    &&& info.severity == severity_of(crash_info)
    &&& info.exploitability == exploitability_of(crash_info)
}

/// Whether some record of `records` has the digest `crash_hash`.
pub open spec fn has_hash(records: Seq<CrashInfo>, crash_hash: Seq<char>) -> bool {
    exists|i: int| 0 <= i < records.len() && #[trigger] records[i].crash_hash@ == crash_hash
}

/// No two records have the same digest.
pub open spec fn distinct_hashes(records: Seq<CrashInfo>) -> bool {
    forall|i: int, j: int|
        0 <= i < records.len() && 0 <= j < records.len() && i != j ==> records[i].crash_hash@
            != records[j].crash_hash@
}

/// The crashes of a session, at most one record per digest, in the order
/// in which they were first seen.
#[derive(Debug)]
pub struct CrashAnalysis {
    crashes: Vec<CrashInfo>,
}

impl CrashInfo {
    /// Whether this record and `other` say the same.
    pub open spec fn same_as(self, other: CrashInfo) -> bool {
        &&& self.crash_hash@ == other.crash_hash@
        &&& self.input@ == other.input@
        &&& self.stack_trace is Some == other.stack_trace is Some
        &&& self.stack_trace matches Some(trace) ==> trace@ == other.stack_trace->Some_0@
        &&& self.severity == other.severity
        &&& self.exploitability == other.exploitability
    }

    /// A copy of this record.
    pub fn duplicate(&self) -> (copy: CrashInfo)
        ensures
            copy.same_as(*self),
    {
        CrashInfo {
            crash_hash: self.crash_hash.clone(),
            input: copy_bytes(self.input.as_slice()),
            stack_trace: match &self.stack_trace {
                Some(trace) => Some(trace.clone()),
                None => None,
            },
            severity: self.severity,
            exploitability: self.exploitability,
        }
    }
}

impl Clone for CrashAnalysis {
    /// A catalogue with copies of the same records, in the same order.
    fn clone(&self) -> (copy: CrashAnalysis)
        ensures
            copy.records().len() == self.records().len(),
            forall|i: int|
                0 <= i < self.records().len() ==> (#[trigger] copy.records()[i]).same_as(
                    self.records()[i],
                ),
    {
        proof {
            use_type_invariant(self);
        }
        let source: &Vec<CrashInfo> = &self.crashes;
        let mut crashes: Vec<CrashInfo> = Vec::new();
        let mut i: usize = 0;
        while i < source.len()
            invariant
                i <= source.len(),
                crashes@.len() == i,
                forall|j: int| 0 <= j < i ==> (#[trigger] crashes@[j]).same_as(source@[j]),
            decreases source.len() - i,
        {
            crashes.push(source[i].duplicate());
            i += 1;
        }
        CrashAnalysis { crashes }
    }
}

impl CrashAnalysis {
    #[verifier::type_invariant]
    spec fn distinct(&self) -> bool {
        distinct_hashes(self.crashes@)
    }

    /// The records, oldest first.
    pub closed spec fn records(&self) -> Seq<CrashInfo> {
        self.crashes@
    }

    /// A catalogue without records.
    pub fn new() -> (analysis: CrashAnalysis)
        ensures
            analysis.records() == Seq::<CrashInfo>::empty(),
    {
        CrashAnalysis { crashes: Vec::new() }
    }

    /// A catalogue of the given records, in the given order. There is one
    /// exactly when no two of the records have the same digest.
    pub fn from_records(records: Vec<CrashInfo>) -> (analysis: Option<CrashAnalysis>)
        ensures
            analysis is Some <==> distinct_hashes(records@),
            analysis matches Some(catalogue) ==> catalogue.records() == records@,
    {
        let mut i: usize = 0;
        while i < records.len()
            invariant
                i <= records.len(),
                forall|a: int, b: int|
                    0 <= a < i && 0 <= b < i && a != b ==> records@[a].crash_hash@
                        != records@[b].crash_hash@,
            decreases records.len() - i,
        {
            let mut j: usize = 0;
            while j < i
                invariant
                    j <= i < records.len(),
                    forall|b: int| 0 <= b < j ==> records@[b].crash_hash@ != records@[i as int].crash_hash@,
                decreases i - j,
            {
                if records[j].crash_hash == records[i].crash_hash {
                    assert(records@[j as int].crash_hash@ == records@[i as int].crash_hash@);
                    return None;
                }
                j += 1;
            }
            i += 1;
        }
        Some(CrashAnalysis { crashes: records })
    }

    /// Files a crash under the digest of its description. A crash whose
    /// digest is on record already changes nothing: the first input seen
    /// for a description is the one that is kept.
    pub fn analyze_crash(&mut self, crash_input: &[u8], crash_info: &str) -> (done: Result<
        (),
        FuzzerError,
    >)
        ensures
            done is Ok,
            distinct_hashes(final(self).records()),
            has_hash(old(self).records(), sha256_hex(crash_info@)) ==> final(self).records()
                == old(self).records(),
            !has_hash(old(self).records(), sha256_hex(crash_info@)) ==> {
                &&& final(self).records().len() == old(self).records().len() + 1
                &&& final(self).records().drop_last() == old(self).records()
                &&& describes(
                    final(self).records().last(),
                    sha256_hex(crash_info@),
                    crash_input@,
                    crash_info@,
                )
            },
    {
        let crash_hash: String = calculate_crash_hash(crash_info);
        self.record_crash(crash_hash, crash_input, crash_info);
        Ok(())
    }

    /// Files a crash under `crash_hash`, unless a record with that digest
    /// exists already.
    pub fn record_crash(&mut self, crash_hash: String, crash_input: &[u8], crash_info: &str)
        ensures
            distinct_hashes(final(self).records()),
            has_hash(old(self).records(), crash_hash@) ==> final(self).records() == old(
                self,
            ).records(),
            !has_hash(old(self).records(), crash_hash@) ==> {
                &&& final(self).records().len() == old(self).records().len() + 1
                &&& final(self).records().drop_last() == old(self).records()
                &&& describes(final(self).records().last(), crash_hash@, crash_input@, crash_info@)
            },
    {
        proof {
            use_type_invariant(&*self);
        }
        if self.contains_hash(&crash_hash) {
            return ;
        }
        let info = CrashInfo {
            crash_hash,
            input: copy_bytes(crash_input),
            stack_trace: Some(crash_info.to_owned()),
            severity: Self::determine_severity(crash_info),
            exploitability: Self::determine_exploitability(crash_info),
        };
        let mut grown: Vec<CrashInfo> = Vec::new();
        core::mem::swap(&mut self.crashes, &mut grown);
        grown.push(info);
        assert(grown@.drop_last() == old(self).crashes@);
        core::mem::swap(&mut self.crashes, &mut grown);
    }

    /// Whether a crash with the digest `crash_hash` is on record.
    pub fn contains_hash(&self, crash_hash: &String) -> (found: bool)
        ensures
            found == has_hash(self.records(), crash_hash@),
    {
        let mut i: usize = 0;
        while i < self.crashes.len()
            invariant
                i <= self.crashes.len(),
                forall|j: int| 0 <= j < i ==> self.crashes@[j].crash_hash@ != crash_hash@,
            decreases self.crashes.len() - i,
        {
            if self.crashes[i].crash_hash == *crash_hash {
                return true;
            }
            i += 1;
        }
        false
    }

    /// The number of crashes on record.
    pub fn len(&self) -> (n: usize)
        ensures
            n == self.records().len(),
    {
        self.crashes.len()
    }

    /// The records, oldest first.
    pub fn crashes(&self) -> (records: &Vec<CrashInfo>)
        ensures
            records@ == self.records(),
            distinct_hashes(records@),
    {
        proof {
            use_type_invariant(self);
        }
        &self.crashes
    }

    /// Reads the severity off a failure description.
    pub fn determine_severity(crash_info: &str) -> (severity: CrashSeverity)
        ensures
            severity == severity_of(crash_info@),
    {
        if text_mentions(crash_info, "buffer overflow") {
            CrashSeverity::Critical
        } else if text_mentions(crash_info, "null pointer") {
            CrashSeverity::High
        } else {
            CrashSeverity::Medium
        }
    }

    /// Reads the exploitability off a failure description.
    pub fn determine_exploitability(crash_info: &str) -> (exploitability: Exploitability)
        ensures
            exploitability == exploitability_of(crash_info@),
    {
        if text_mentions(crash_info, "control over EIP") {
            Exploitability::Proven
        } else if text_mentions(crash_info, "heap corruption") {
            Exploitability::Probable
        } else {
            Exploitability::Potential
        }
    }
}

} // verus!
