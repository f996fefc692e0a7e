//! The ingest orchestrator's decisions: the one-time index bootstrap and
//! the request discipline of a whole run, stated over the ordered sequence
//! of requests the run makes against the remote index.

use vstd::prelude::*;
use vstd::string::StringExecFns;

verus! {

/// The ingest orchestrator: where the input files lie and where the
/// configuration document lies.
#[derive(Debug)]
pub struct Loader<'a> {
    pub input_dir: &'a str,
    pub config_file: &'a str,
}

impl<'a> Loader<'a> {
    pub fn new(input_dir: &'a str, config_file: &'a str) -> (r: Loader<'a>)
        ensures
            r.input_dir@ == input_dir@,
            r.config_file@ == config_file@,
    {
        Loader { input_dir, config_file }
    }
}

/// The pattern that enumerates the input files: every file under
/// `input_dir`, recursively, whose name ends in `.json`.
pub fn glob_pattern(input_dir: &str) -> (r: String)
    ensures
        r@ == input_dir@ + "/**/*.json"@,
{
    let mut r = String::from_str(input_dir);
    r.append("/**/*.json");
    r
}

/// One request to the remote index, by kind.
#[derive(Debug, Clone, Copy, PartialEq, Eq, Structural)]
pub enum RequestKind {
    ExistsProbe,
    CreateIndex,
    BulkSubmit,
}

/// After the one exists probe: the index is created exactly when the probe
/// said it was not there; an existing index is left as it is.
pub fn create_after_probe(exists: bool) -> (r: bool)
    ensures
        r == !exists,
{
    !exists
}

/// The requests of the initialization phase, in order: the one exists
/// probe, then the one create request exactly when the index was not there.
pub open spec fn spec_init_requests(exists: bool) -> Seq<RequestKind> {
    if exists {
        seq![RequestKind::ExistsProbe]
    } else {
        seq![RequestKind::ExistsProbe, RequestKind::CreateIndex]
    }
}

/// The requests of a whole run, in order: the initialization phase,
/// complete before any worker starts, then one bulk submission per flushed
/// chunk, `bulk_count` in all, whatever the number of input files.
pub open spec fn spec_run_requests(exists: bool, bulk_count: nat) -> Seq<RequestKind> {
    spec_init_requests(exists) + Seq::new(bulk_count, |i: int| RequestKind::BulkSubmit)
}

/// How many requests of kind `k` stand in `s`.
pub open spec fn spec_count_kind(s: Seq<RequestKind>, k: RequestKind) -> nat
    decreases s.len(),
{
    if s.len() == 0 {
        0
    } else {
        spec_count_kind(s.drop_last(), k) + (if s.last() == k {
            1nat
        } else {
            0nat
        })
    }
}

proof fn lemma_count_concat(a: Seq<RequestKind>, b: Seq<RequestKind>, k: RequestKind)
    ensures
        spec_count_kind(a + b, k) == spec_count_kind(a, k) + spec_count_kind(b, k),
    decreases b.len(),
{
    if b.len() == 0 {
        assert(a + b =~= a);
    } else {
        lemma_count_concat(a, b.drop_last(), k);
        assert((a + b).drop_last() =~= a + b.drop_last());
        assert((a + b).last() == b.last());
    }
}

proof fn lemma_count_bulk_only(bulk_count: nat, k: RequestKind)
    ensures
        spec_count_kind(Seq::new(bulk_count, |i: int| RequestKind::BulkSubmit), k) == (
        if k == RequestKind::BulkSubmit {
            bulk_count
        } else {
            0nat
        }),
    decreases bulk_count,
{
    let s = Seq::new(bulk_count, |i: int| RequestKind::BulkSubmit);
    if bulk_count > 0 {
        lemma_count_bulk_only((bulk_count - 1) as nat, k);
        assert(s.drop_last() =~= Seq::new((bulk_count - 1) as nat, |i: int| RequestKind::BulkSubmit));
        assert(s.last() == RequestKind::BulkSubmit);
    }
}

/// A run makes exactly one exists probe, whatever the probe answered and
/// however many chunks the workers flushed.
pub proof fn lemma_one_probe_per_run(exists: bool, bulk_count: nat)
    ensures
        spec_count_kind(spec_run_requests(exists, bulk_count), RequestKind::ExistsProbe) == 1,
{
    reveal_with_fuel(spec_count_kind, 4);
    lemma_count_concat(
        spec_init_requests(exists),
        Seq::new(bulk_count, |i: int| RequestKind::BulkSubmit),
        RequestKind::ExistsProbe,
    );
    lemma_count_bulk_only(bulk_count, RequestKind::ExistsProbe);
}

/// A run makes at most one create request, however many chunks the workers
/// flushed.
pub proof fn lemma_at_most_one_create_per_run(exists: bool, bulk_count: nat)
    ensures
        spec_count_kind(spec_run_requests(exists, bulk_count), RequestKind::CreateIndex) <= 1,
{
    reveal_with_fuel(spec_count_kind, 4);
    lemma_count_concat(
        spec_init_requests(exists),
        Seq::new(bulk_count, |i: int| RequestKind::BulkSubmit),
        RequestKind::CreateIndex,
    );
    lemma_count_bulk_only(bulk_count, RequestKind::CreateIndex);
}

/// When the index already exists, a run issues no create request at all.
pub proof fn lemma_no_create_when_index_exists(bulk_count: nat)
    ensures
        spec_count_kind(spec_run_requests(true, bulk_count), RequestKind::CreateIndex) == 0,
{
    reveal_with_fuel(spec_count_kind, 4);
    lemma_count_concat(
        spec_init_requests(true),
        Seq::new(bulk_count, |i: int| RequestKind::BulkSubmit),
        RequestKind::CreateIndex,
    );
    lemma_count_bulk_only(bulk_count, RequestKind::CreateIndex);
}

} // verus!
