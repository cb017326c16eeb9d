use vstd::prelude::*;
use crate::metadata::{MetadataError, MusicMetadata};

verus! {

/// What a scan does before it reads any file.
#[derive(Debug, Clone, Copy, PartialEq, Eq)]
pub struct ScanPlan {
    /// Walk the music root and extract each candidate file.
    pub walk: bool,
    /// Create the cover directory, with its missing parents.
    pub create_cover_dir: bool,
}

/// How a scan starts, given whether the music root is a directory and whether
/// the cover directory exists. A missing root (or one that is not a directory)
/// ends the scan at once, with no record and no write. Otherwise the root is
/// walked, and a missing cover directory is created first: creating it does
/// not stop the scan.
pub fn plan_scan(root_is_dir: bool, cover_dir_exists: bool) -> (r: ScanPlan)
    ensures
        r.walk == root_is_dir,
        r.create_cover_dir == (root_is_dir && !cover_dir_exists),
{
    ScanPlan { walk: root_is_dir, create_cover_dir: root_is_dir && !cover_dir_exists }
}

/// A file that a scan skipped, and why.
pub struct SkippedFile {
    pub path: String,
    pub error: MetadataError,
}

/// The outcome of extracting one candidate file.
pub struct FileOutcome {
    pub path: String,
    pub outcome: Result<MusicMetadata, MetadataError>,
}

/// What one scan found: the records of the files that could be read, in the
/// order visited, and the files that were skipped.
pub struct ScanReport {
    pub records: Vec<MusicMetadata>,
    pub skipped: Vec<SkippedFile>,
}

/// The records that a sequence of outcomes yields, in order.
pub open spec fn records_of(s: Seq<FileOutcome>) -> Seq<MusicMetadata>
    decreases s.len(),
{
    if s.len() == 0 {
        Seq::empty()
    } else {
        let rest = records_of(s.drop_last());
        match s.last().outcome {
            Ok(m) => rest.push(m),
            Err(_) => rest,
        }
    }
}

/// The skip events that a sequence of outcomes yields, in order.
pub open spec fn skips_of(s: Seq<FileOutcome>) -> Seq<SkippedFile>
    decreases s.len(),
{
    if s.len() == 0 {
        Seq::empty()
    } else {
        let rest = skips_of(s.drop_last());
        match s.last().outcome {
            Ok(_) => rest,
            Err(e) => rest.push(SkippedFile { path: s.last().path, error: e }),
        }
    }
}

/// An outcome that yields a record.
pub open spec fn is_success(o: FileOutcome) -> bool {
    o.outcome is Ok
}

/// An outcome that yields a skip event.
pub open spec fn is_failure(o: FileOutcome) -> bool {
    o.outcome is Err
}

impl ScanReport {
    /// An empty report.
    pub fn new() -> (r: ScanReport)
        ensures
            r.records@.len() == 0,
            r.skipped@.len() == 0,
    {
        ScanReport { records: Vec::new(), skipped: Vec::new() }
    }

    /// Adds the outcome for the file at `path`: a record is appended to the
    /// records, a failure to the skipped files. Nothing else changes.
    pub fn accept(&mut self, path: String, outcome: Result<MusicMetadata, MetadataError>)
        ensures
            match outcome {
                Ok(m) => {
                    &&& final(self).records@ == old(self).records@.push(m)
                    &&& final(self).skipped@ == old(self).skipped@
                },
                Err(e) => {
                    &&& final(self).records@ == old(self).records@
                    &&& final(self).skipped@ == old(self).skipped@.push(SkippedFile { path, error: e })
                },
            },
    {
        match outcome {
            Ok(m) => self.records.push(m),
            Err(e) => self.skipped.push(SkippedFile { path, error: e }),
        }
    }
}

/// Collects the outcomes of one scan, in the order the files were visited.
/// Every outcome is taken: each success becomes a record, each failure a skip
/// event, and no failure stops the collection.
pub fn collect_outcomes(outcomes: Vec<FileOutcome>) -> (r: ScanReport)
    ensures
        r.records@ == records_of(outcomes@),
        r.skipped@ == skips_of(outcomes@),
{
    let ghost all = outcomes@;
    let n = outcomes.len();
    let mut rest = outcomes;
    let mut report = ScanReport::new();
    let mut k: usize = 0;
    assert(all.subrange(0, 0) =~= Seq::<FileOutcome>::empty());
    while rest.len() > 0
        invariant
            all.len() == n,
            k + rest@.len() == all.len(),
            rest@ == all.subrange(k as int, all.len() as int),
            report.records@ == records_of(all.subrange(0, k as int)),
            report.skipped@ == skips_of(all.subrange(0, k as int)),
        decreases rest@.len(),
    {
        let o = rest.remove(0);
        proof {
            assert(all.subrange(0, k + 1).drop_last() =~= all.subrange(0, k as int));
            assert(all.subrange(0, k + 1).last() == o);
        }
        report.accept(o.path, o.outcome);
        k = k + 1;
        assert(rest@ =~= all.subrange(k as int, all.len() as int));
    }
    assert(all.subrange(0, k as int) =~= all);
    report
}

/// Failures are isolated: a scan over outcomes of which some succeed and some
/// fail yields exactly one record per success and one skip event per failure,
/// whatever their order.
pub proof fn lemma_error_isolation(s: Seq<FileOutcome>)
    ensures
        records_of(s).len() == s.filter(|o: FileOutcome| is_success(o)).len(),
        skips_of(s).len() == s.filter(|o: FileOutcome| is_failure(o)).len(),
        records_of(s).len() + skips_of(s).len() == s.len(),
    decreases s.len(),
{
    reveal(Seq::filter);
    if s.len() > 0 {
        lemma_error_isolation(s.drop_last());
    }
}

} // verus!
