use vstd::prelude::*;
use vstd::string::*;

use crate::error::ToolError;
use crate::filter::{accepts, filter_view, keeps, Filter};
use crate::listing::views;
use crate::path::{host_path, normalize, normalized, to_host_path};

verus! {

/// One entry to extract: its name as the archive stores it, and the host
/// path to write it to, or none when its path would leave the output root.
#[derive(Debug)]
pub struct ExtractTask {
    pub entry: String,
    pub target: Option<String>,
}

impl View for ExtractTask {
    type V = (Seq<char>, Option<Seq<char>>);

    open spec fn view(&self) -> (Seq<char>, Option<Seq<char>>) {
        (
            self.entry@,
            match self.target {
                Some(t) => Some(t@),
                None => None,
            },
        )
    }
}

/// The entries of a listing that a pattern keeps, each with the host path
/// under `root` that its normalized name gives, in listing order.
pub open spec fn planned(
    names: Seq<Seq<char>>,
    pattern: Option<Seq<char>>,
    root: Seq<char>,
) -> Seq<(Seq<char>, Option<Seq<char>>)>
    decreases names.len(),
{
    if names.len() == 0 {
        seq![]
    } else {
        let prev = planned(names.drop_last(), pattern, root);
        let n = normalized(names.last());
        if keeps(pattern, n) {
            prev.push((names.last(), host_path(n, root)))
        } else {
            prev
        }
    }
}

/// The views of a sequence of tasks.
pub open spec fn task_views(v: Seq<ExtractTask>) -> Seq<(Seq<char>, Option<Seq<char>>)> {
    v.map_values(|t: ExtractTask| t@)
}

/// Decides what an extraction does: which entries of the listing to read,
/// and where each one goes under `out_root`. Fails with `ListfileNotFound`
/// when the archive has no listing.
pub fn plan_extract(listing: Option<Vec<String>>, filter: &Option<Filter>, out_root: &str) -> (r:
    Result<Vec<ExtractTask>, ToolError>)
    ensures
        r is Err <==> listing is None,
        r matches Err(e) ==> e is ListfileNotFound,
        r matches Ok(v) ==> task_views(v@) == planned(
            views(listing->0@),
            filter_view(*filter),
            out_root@,
        ),
{
    let names = match listing {
        Some(names) => names,
        None => return Err(ToolError::ListfileNotFound),
    };
    let mut out: Vec<ExtractTask> = Vec::new();
    let mut i: usize = 0;
    while i < names.len()
        invariant
            i <= names@.len(),
            task_views(out@) == planned(
                views(names@.subrange(0, i as int)),
                filter_view(*filter),
                out_root@,
            ),
        decreases names@.len() - i,
    {
        let n = normalize(names[i].as_str());
        let keep = accepts(filter, n.as_str());
        let ghost before = out@;
        if keep {
            let target = match to_host_path(n.as_str(), out_root) {
                Ok(h) => Some(h),
                Err(_) => None,
            };
            let task = ExtractTask { entry: String::from_str(names[i].as_str()), target };
            assert(task@ == (names@[i as int]@, host_path(n@, out_root@)));
            out.push(task);
            assert(task_views(out@) =~= task_views(before).push(task@));
        }
        assert(views(names@.subrange(0, i + 1)).drop_last() =~= views(names@.subrange(0, i as int)));
        assert(views(names@.subrange(0, i + 1)).last() == names@[i as int]@);
        i += 1;
    }
    assert(names@.subrange(0, names@.len() as int) =~= names@);
    Ok(out)
}

/// Why one entry of an extraction was not written.
#[derive(Debug)]
pub enum EntryError {
    PathEscape,
    Read { cause: String },
    DirCreation { path: String, cause: String },
    Write { path: String, cause: String },
}

/// What became of one entry of an extraction.
#[derive(Debug)]
pub enum EntryOutcome {
    Written,
    Failed(EntryError),
}

/// An entry that was not written, with the reason.
#[derive(Debug)]
pub struct EntryFailure {
    pub entry: String,
    pub error: EntryError,
}

/// Collects the outcome of each entry of an extraction: one entry's
/// failure never ends the batch, it becomes a warning here.
#[derive(Debug)]
pub struct ExtractionReport {
    written: Vec<String>,
    failures: Vec<EntryFailure>,
}

impl View for ExtractionReport {
    type V = (Seq<Seq<char>>, Seq<(Seq<char>, EntryError)>);

    closed spec fn view(&self) -> (Seq<Seq<char>>, Seq<(Seq<char>, EntryError)>) {
        (views(self.written@), self.failures@.map_values(|f: EntryFailure| (f.entry@, f.error)))
    }
}

impl ExtractionReport {
    /// A report with nothing recorded.
    pub fn new() -> (r: ExtractionReport)
        ensures
            r@.0 == Seq::<Seq<char>>::empty(),
            r@.1 == Seq::<(Seq<char>, EntryError)>::empty(),
    {
        let r = ExtractionReport { written: Vec::new(), failures: Vec::new() };
        assert(r@.0 =~= Seq::<Seq<char>>::empty());
        assert(r@.1 =~= Seq::<(Seq<char>, EntryError)>::empty());
        r
    }

    /// Records what became of `entry`: a written entry joins the written
    /// list, a failed one the failures, in the order recorded.
    pub fn record(&mut self, entry: String, outcome: EntryOutcome)
        ensures
            match outcome {
                EntryOutcome::Written => {
                    &&& final(self)@.0 == old(self)@.0.push(entry@)
                    &&& final(self)@.1 == old(self)@.1
                },
                EntryOutcome::Failed(e) => {
                    &&& final(self)@.0 == old(self)@.0
                    &&& final(self)@.1 == old(self)@.1.push((entry@, e))
                },
            },
    {
        let ghost prev = *self;
        match outcome {
            EntryOutcome::Written => {
                self.written.push(entry);
                assert(views(self.written@) =~= views(prev.written@).push(entry@));
            },
            EntryOutcome::Failed(error) => {
                self.failures.push(EntryFailure { entry, error });
                assert(self@.1 =~= prev@.1.push((entry@, error)));
            },
        }
    }

    /// The entries written, in the order recorded.
    pub fn written(&self) -> (r: &Vec<String>)
        ensures
            views(r@) == self@.0,
    {
        &self.written
    }

    /// The entries that failed, with their reasons, in the order recorded.
    pub fn failures(&self) -> (r: &Vec<EntryFailure>)
        ensures
            r@.map_values(|f: EntryFailure| (f.entry@, f.error)) == self@.1,
    {
        &self.failures
    }
}

} // verus!
