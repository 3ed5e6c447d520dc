//! Jobs: the status that a job shows while its pipeline runs and once it is
//! done, and the registry that finds a job by its identifier.

use crate::package::Manifest;
use crate::pipeline::{Artifacts, ArtifactsView, Pipeline, PipelineView};
use crate::table::{distinct_keys, lookup, put, Table};
use vstd::prelude::*;

verus! {

/// What a job shows to those who ask for it.
#[derive(Debug)]
pub enum DepScannerStatus {
    /// The pipeline is running.
    Processing,
    /// The pipeline has ended, and these are its results.
    Done { artifacts: Artifacts },
}

pub enum StatusView {
    Processing,
    Done { artifacts: ArtifactsView },
}

impl View for DepScannerStatus {
    type V = StatusView;

    open spec fn view(&self) -> StatusView {
        match self {
            DepScannerStatus::Processing => StatusView::Processing,
            DepScannerStatus::Done { artifacts } => StatusView::Done { artifacts: artifacts@ },
        }
    }
}

/// A job as a mathematical value.
pub struct ActorView {
    pub id: Seq<char>,
    pub status: StatusView,
}

impl ActorView {
    /// The job as it is created: its pipeline runs.
    pub open spec fn started(id: Seq<char>) -> ActorView {
        ActorView { id, status: StatusView::Processing }
    }

    /// Whether a pipeline in state `p` can be published for this job: the
    /// job is still processing, and the pipeline has ended.
    pub open spec fn accepts(self, p: PipelineView) -> bool {
        self.status is Processing && p is Finished
    }

    /// The job after the pipeline in state `p` was handed in for
    /// publication: done with all of the pipeline's results if it accepts
    /// the pipeline, else as before.
    pub open spec fn publish(self, p: PipelineView) -> ActorView {
        if self.accepts(p) {
            ActorView { status: StatusView::Done { artifacts: p->artifacts }, ..self }
        } else {
            self
        }
    }
}

/// A job changes its status once at most: while its pipeline runs it shows
/// `Processing`, a pipeline that has not ended publishes nothing, and what a
/// job shows after a publication is either what it showed before or `Done`
/// with the graph, the repository records and the funding figures of one
/// and the same ended pipeline. Once `Done`, it stays as it is.
pub proof fn status_changes_once(job: ActorView, p: PipelineView, q: PipelineView)
    ensures
        job.publish(p).id == job.id,
        job.status is Done ==> job.publish(p) == job,
        !(p is Finished) ==> job.publish(p) == job,
        job.accepts(p) ==> job.publish(p).status == (StatusView::Done { artifacts: p->artifacts }),
        job.publish(p).status is Done ==> job.publish(p).publish(q) == job.publish(p),
{
}

/// One job: its identifier and its status.
#[derive(Debug)]
pub struct DepScannerActor {
    id: String,
    status: DepScannerStatus,
}

impl View for DepScannerActor {
    type V = ActorView;

    closed spec fn view(&self) -> ActorView {
        ActorView { id: self.id@, status: self.status@ }
    }
}

impl DeepView for DepScannerActor {
    type V = ActorView;

    open spec fn deep_view(&self) -> ActorView {
        self@
    }
}

impl DepScannerActor {
    /// Creates the job `id` for `manifest`. The job shows `Processing`; the
    /// pipeline that comes with it is for the driver to run and to publish.
    pub fn start(id: String, manifest: &Manifest) -> (r: (DepScannerActor, Pipeline))
        ensures
            r.0@ == ActorView::started(id@),
            r.1@ == PipelineView::init(manifest@.dependencies),
            r.1@.wf(),
    {
        (DepScannerActor { id, status: DepScannerStatus::Processing }, Pipeline::new(manifest))
    }

    /// The identifier of the job.
    pub fn id(&self) -> (r: &String)
        ensures
            r@ == self@.id,
    {
        &self.id
    }

    /// The status of the job as it is now.
    pub fn get_status(&self) -> (r: &DepScannerStatus)
        ensures
            r@ == self@.status,
    {
        &self.status
    }

    /// Whether the job is done.
    pub fn is_done(&self) -> (r: bool)
        ensures
            r == (self@.status is Done),
    {
        match &self.status {
            DepScannerStatus::Done { .. } => true,
            DepScannerStatus::Processing => false,
        }
    }

    /// Publishes the results of `pipeline`: the one write that takes the job
    /// from `Processing` to `Done`. A pipeline that has not ended, and any
    /// pipeline handed to a job that is done, changes nothing. Returns
    /// whether the job accepted the pipeline.
    pub fn publish(&mut self, pipeline: Pipeline) -> (accepted: bool)
        ensures
            final(self)@ == old(self)@.publish(pipeline@),
            accepted == old(self)@.accepts(pipeline@),
    {
        if self.is_done() {
            return false;
        }
        match pipeline.into_artifacts() {
            Ok(artifacts) => {
                self.status = DepScannerStatus::Done { artifacts };
                true
            },
            Err(_) => false,
        }
    }
}

/// Why a job's results cannot be given out.
#[derive(Clone, Copy, Debug, PartialEq, Eq, Structural)]
pub enum JobError {
    /// No job stands under the identifier.
    NotFound,
    /// The job's pipeline is still running.
    StillProcessing,
}

/// Draws a new job identifier. Calls uuid: `Uuid::new_v4`, and `to_string`
/// on the result. The identifier is random, so nothing is stated of it.
#[verifier::external_body]
fn fresh_job_id() -> (id: String) {
    uuid::Uuid::new_v4().to_string()
}

/// Whether every job stands under its own identifier, and no identifier
/// stands for two jobs.
pub open spec fn registry_wf(jobs: Seq<(Seq<char>, ActorView)>) -> bool {
    &&& distinct_keys(jobs)
    &&& forall|i: int| 0 <= i < jobs.len() ==> (#[trigger] jobs[i]).1.id == jobs[i].0
}

/// The jobs after a job was created under `id`; a job that stood there
/// before gives way to it.
pub open spec fn registered(jobs: Seq<(Seq<char>, ActorView)>, id: Seq<char>) -> Seq<
    (Seq<char>, ActorView),
> {
    put(jobs, id, ActorView::started(id))
}

/// The jobs after the pipeline in state `p` was handed in for the job `id`.
pub open spec fn published(jobs: Seq<(Seq<char>, ActorView)>, id: Seq<char>, p: PipelineView) -> Seq<
    (Seq<char>, ActorView),
> {
    match lookup(jobs, id) {
        Some(job) => if job.accepts(p) {
            put(jobs, id, job.publish(p))
        } else {
            jobs
        },
        None => jobs,
    }
}

/// What is given out for a request of the results of job `id`.
pub open spec fn result_of(jobs: Seq<(Seq<char>, ActorView)>, id: Seq<char>) -> Result<
    ArtifactsView,
    JobError,
> {
    match lookup(jobs, id) {
        None => Err(JobError::NotFound),
        Some(job) => match job.status {
            StatusView::Processing => Err(JobError::StillProcessing),
            StatusView::Done { artifacts } => Ok(artifacts),
        },
    }
}

/// Creating and publishing keep the registry in order; a publication
/// changes no job but the one it names, and creates none.
pub proof fn registry_steps_preserve_wf(
    jobs: Seq<(Seq<char>, ActorView)>,
    id: Seq<char>,
    p: PipelineView,
)
    requires
        registry_wf(jobs),
    ensures
        registry_wf(registered(jobs, id)),
        registry_wf(published(jobs, id, p)),
        lookup(registered(jobs, id), id) == Some(ActorView::started(id)),
        forall|other: Seq<char>|
            other != id ==> lookup(published(jobs, id, p), other) == lookup(jobs, other),
        lookup(jobs, id) is None ==> published(jobs, id, p) == jobs,
{
    crate::table::put_is_map_insert(jobs, id, ActorView::started(id));
    let r = registered(jobs, id);
    assert forall|i: int| 0 <= i < r.len() implies (#[trigger] r[i]).1.id == r[i].0 by {
        if r[i] != (id, ActorView::started(id)) {
            assert(r[i] == jobs[i]);
        }
    }
    if let Some(job) = lookup(jobs, id) {
        crate::table::put_is_map_insert(jobs, id, job.publish(p));
        let q = put(jobs, id, job.publish(p));
        assert(job.id == id);
        assert forall|i: int| 0 <= i < q.len() implies (#[trigger] q[i]).1.id == q[i].0 by {
            if q[i] != (id, job.publish(p)) {
                assert(q[i] == jobs[i]);
            }
        }
    }
}

/// The jobs of one process by identifier.
#[derive(Debug)]
pub struct JobRegistry {
    jobs: Table<String, DepScannerActor>,
}

impl View for JobRegistry {
    type V = Seq<(Seq<char>, ActorView)>;

    closed spec fn view(&self) -> Seq<(Seq<char>, ActorView)> {
        self.jobs@
    }
}

impl JobRegistry {
    /// Every job stands under its own identifier, and under no other.
    pub open spec fn wf(&self) -> bool {
        registry_wf(self@)
    }

    /// The registry without jobs.
    pub fn new() -> (r: JobRegistry)
        ensures
            r@ == Seq::<(Seq<char>, ActorView)>::empty(),
            r.wf(),
    {
        JobRegistry { jobs: Table::new() }
    }

    /// How many jobs the registry holds.
    pub fn len(&self) -> (n: usize)
        ensures
            n == self@.len(),
    {
        self.jobs.len()
    }

    /// Creates a job for `manifest` under the identifier `id` and returns
    /// the pipeline for the driver to run.
    pub fn register(&mut self, id: String, manifest: &Manifest) -> (pipeline: Pipeline)
        requires
            old(self).wf(),
        ensures
            final(self).wf(),
            final(self)@ == registered(old(self)@, id@),
            pipeline@ == PipelineView::init(manifest@.dependencies),
            pipeline@.wf(),
    {
        proof {
            registry_steps_preserve_wf(self@, id@, PipelineView::init(manifest@.dependencies));
        }
        let (job, pipeline) = DepScannerActor::start(id.clone(), manifest);
        self.jobs.put(id, job);
        pipeline
    }

    /// Creates a job for `manifest` under a new identifier. Returns the
    /// identifier and the pipeline for the driver to run.
    pub fn start(&mut self, manifest: &Manifest) -> (r: (String, Pipeline))
        requires
            old(self).wf(),
        ensures
            final(self).wf(),
            final(self)@ == registered(old(self)@, r.0@),
            r.1@ == PipelineView::init(manifest@.dependencies),
            r.1@.wf(),
    {
        let id = fresh_job_id();
        let pipeline = self.register(id.clone(), manifest);
        (id, pipeline)
    }

    /// The status of the job `id`.
    pub fn get_status(&self, id: &String) -> (r: Result<&DepScannerStatus, JobError>)
        requires
            self.wf(),
        ensures
            match r {
                Ok(status) => lookup(self@, id@) matches Some(job) && job.status == status@,
                Err(e) => e == JobError::NotFound && lookup(self@, id@) is None,
            },
    {
        match self.jobs.get(id) {
            Some(job) => Ok(job.get_status()),
            None => Err(JobError::NotFound),
        }
    }

    /// The results of the job `id`, once it is done.
    pub fn get_result(&self, id: &String) -> (r: Result<&Artifacts, JobError>)
        requires
            self.wf(),
        ensures
            match r {
                Ok(artifacts) => result_of(self@, id@) == Ok::<ArtifactsView, JobError>(artifacts@),
                Err(e) => result_of(self@, id@) == Err::<ArtifactsView, JobError>(e),
            },
    {
        match self.jobs.get(id) {
            Some(job) => match job.get_status() {
                DepScannerStatus::Done { artifacts } => Ok(artifacts),
                DepScannerStatus::Processing => Err(JobError::StillProcessing),
            },
            None => Err(JobError::NotFound),
        }
    }

    /// Publishes the results of `pipeline` for the job `id`. Returns whether
    /// the job accepted them: it does so once, when its pipeline has ended.
    pub fn publish(&mut self, id: &String, pipeline: Pipeline) -> (accepted: bool)
        requires
            old(self).wf(),
        ensures
            final(self).wf(),
            final(self)@ == published(old(self)@, id@, pipeline@),
            accepted == (lookup(old(self)@, id@) matches Some(job) && job.accepts(pipeline@)),
    {
        proof {
            registry_steps_preserve_wf(self@, id@, pipeline@);
        }
        let processing = match self.jobs.get(id) {
            Some(job) => !job.is_done(),
            None => false,
        };
        if !processing {
            return false;
        }
        match pipeline.into_artifacts() {
            Ok(artifacts) => {
                proof {
                    let k = crate::table::index_of_key(self@, id@);
                    assert(self@[k].1.id == self@[k].0);
                }
                let job = DepScannerActor {
                    id: id.clone(),
                    status: DepScannerStatus::Done { artifacts },
                };
                self.jobs.put(id.clone(), job);
                true
            },
            Err(_) => false,
        }
    }
}

} // verus!
