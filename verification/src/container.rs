//! Containers: the declarative builder, the staged build pipeline, and the
//! handle of a running container.

use crate::client::Client;
use crate::error::Error;
use crate::port::Protocol;
use crate::slug;
use crate::slug::is_slug;
use std::collections::HashMap;
use vstd::prelude::*;

verus! {

/// One exposed container port: the port inside the container, the host port
/// it maps to, and the protocol. Collected on the builder in insertion order.
#[derive(Clone, Copy, Debug, PartialEq, Eq, Structural)]
pub struct PortMapping {
    /// The port inside the container.
    pub source: u16,
    /// The port on the host machine.
    pub host: u16,
    /// The protocol of the mapping.
    pub protocol: Protocol,
}

/// The mathematical content of a [`ContainerBuilder`]: the declarative
/// specification that a build will act on.
#[verifier::ext_equal]
pub struct BuilderModel {
    /// The image name, without its tag.
    pub image_name: Seq<char>,
    /// The image tag; "latest" unless overridden.
    pub image_tag: Seq<char>,
    /// The requested base name, if any.
    pub name: Option<Seq<char>>,
    /// The port mappings, in insertion order.
    pub ports: Seq<PortMapping>,
    /// The startup commands.
    pub commands: Seq<Seq<char>>,
    /// The environment entries, each a `KEY=VALUE` string.
    pub env: Seq<Seq<char>>,
    /// Whether the image is pulled before creation.
    pub pull_on_build: bool,
    /// The length of the random slug appended to the name; 0 disables it.
    pub slug_length: nat,
    /// Whether a runtime-client override is in place.
    pub has_client: bool,
}

/// The composed image reference submitted to the runtime:
/// `"{image_name}:{image_tag}"`.
pub open spec fn image_ref(m: BuilderModel) -> Seq<char> {
    m.image_name + ":"@ + m.image_tag
}

/// The effective name a build passes to the creation endpoint, per the slug
/// policy: with no base name there is none (runtime default naming applies);
/// with `slug_length == 0` it is the base name verbatim; otherwise it is the
/// base name, `'_'`, and a slug of exactly `slug_length` alphanumeric
/// characters.
pub open spec fn is_effective_name(m: BuilderModel, r: Option<Seq<char>>) -> bool {
    match m.name {
        None => r is None,
        Some(base) => match r {
            None => false,
            Some(s) => if m.slug_length == 0 {
                s == base
            } else {
                exists|g: Seq<char>| is_slug(g, m.slug_length) && s == base + "_"@ + g
            },
        },
    }
}

/// Builder struct for fine control over the construction of a container.
///
/// Accumulates a declarative specification through a fluent, value-returning
/// configuration API. No validation is performed at configuration time:
/// invalid image names, malformed environment strings, or port collisions
/// surface only when the runtime rejects the request.
pub struct ContainerBuilder {
    image_name: String,
    image_tag: String,
    name: Option<String>,
    ports: Vec<PortMapping>,
    commands: Vec<String>,
    environment_variables: Vec<String>,
    client: Option<Client>,
    pull_on_build: bool,
    slug_length: usize,
}

impl View for ContainerBuilder {
    type V = BuilderModel;

    closed spec fn view(&self) -> BuilderModel {
        BuilderModel {
            image_name: self.image_name@,
            image_tag: self.image_tag@,
            name: self.name.deep_view(),
            ports: self.ports@,
            commands: self.commands.deep_view(),
            env: self.environment_variables.deep_view(),
            pull_on_build: self.pull_on_build,
            slug_length: self.slug_length as nat,
            has_client: self.client is Some,
        }
    }
}

/// The specification `expose` applies: one mapping appended to the end of
/// the port list, everything else untouched.
pub open spec fn expose_model(m: BuilderModel, pm: PortMapping) -> BuilderModel {
    BuilderModel { ports: m.ports.push(pm), ..m }
}

impl ContainerBuilder {
    /// Initializes a builder for `image_name`: tag `"latest"`, no name, no
    /// ports, commands or environment, slug disabled, no pull on build, and
    /// no runtime-client override.
    pub fn new(image_name: &str) -> (r: Self)
        ensures
            r@ == (BuilderModel {
                image_name: image_name@,
                image_tag: "latest"@,
                name: None,
                ports: Seq::empty(),
                commands: Seq::empty(),
                env: Seq::empty(),
                pull_on_build: false,
                slug_length: 0,
                has_client: false,
            }),
    {
        let r = ContainerBuilder {
            image_name: image_name.to_owned(),
            image_tag: "latest".to_owned(),
            name: None,
            ports: Vec::new(),
            commands: Vec::new(),
            environment_variables: Vec::new(),
            client: None,
            pull_on_build: false,
            slug_length: 0,
        };
        proof {
            assert(r@ =~= (BuilderModel {
                image_name: image_name@,
                image_tag: "latest"@,
                name: None,
                ports: Seq::empty(),
                commands: Seq::empty(),
                env: Seq::empty(),
                pull_on_build: false,
                slug_length: 0,
                has_client: false,
            }));
        }
        r
    }

    /// Sets the tag of the image. Defaults to `"latest"`.
    pub fn tag(self, tag: &str) -> (r: Self)
        ensures
            r@ == (BuilderModel { image_tag: tag@, ..self@ }),
    {
        let r = ContainerBuilder { image_tag: tag.to_owned(), ..self };
        proof {
            assert(r@ =~= (BuilderModel { image_tag: tag@, ..self@ }));
        }
        r
    }

    /// Overrides the runtime client used to manipulate the container. When no
    /// override is set, the driver's process-wide shared client applies.
    pub fn client(self, client: Client) -> (r: Self)
        ensures
            r@ == (BuilderModel { has_client: true, ..self@ }),
    {
        let r = ContainerBuilder { client: Some(client), ..self };
        proof {
            assert(r@ =~= (BuilderModel { has_client: true, ..self@ }));
        }
        r
    }

    /// Sets the base name of the container. An empty string is accepted
    /// without validation and passed through.
    pub fn name(self, name: &str) -> (r: Self)
        ensures
            r@ == (BuilderModel { name: Some(name@), ..self@ }),
    {
        let r = ContainerBuilder { name: Some(name.to_owned()), ..self };
        proof {
            assert(r@ =~= (BuilderModel { name: Some(name@), ..self@ }));
        }
        r
    }

    /// Requests an alphanumeric slug of this length on the container name, in
    /// the form `"{name}_{slug}"`. Useful when creating containers in bulk:
    /// human-readable names without collisions. No upper bound is enforced.
    pub fn slug_length(self, length: usize) -> (r: Self)
        ensures
            r@ == (BuilderModel { slug_length: length as nat, ..self@ }),
    {
        let r = ContainerBuilder { slug_length: length, ..self };
        proof {
            assert(r@ =~= (BuilderModel { slug_length: length as nat, ..self@ }));
        }
        r
    }

    /// Replaces the startup command list wholesale.
    pub fn commands(self, commands: Vec<String>) -> (r: Self)
        ensures
            r@ == (BuilderModel { commands: commands.deep_view(), ..self@ }),
    {
        let r = ContainerBuilder { commands, ..self };
        proof {
            assert(r@ =~= (BuilderModel { commands: commands.deep_view(), ..self@ }));
        }
        r
    }

    /// Exposes a port from the container to the host. Can be called multiple
    /// times; mappings accumulate in insertion order. Repeating a source port
    /// is accepted; the runtime's own conflict semantics apply.
    pub fn expose(self, src_port: u16, host_port: u16, protocol: Protocol) -> (r: Self)
        ensures
            r@ == expose_model(self@, PortMapping { source: src_port, host: host_port, protocol }),
    {
        let mut ports = self.ports;
        ports.push(PortMapping { source: src_port, host: host_port, protocol });
        let r = ContainerBuilder { ports, ..self };
        proof {
            assert(r@ =~= expose_model(
                self@,
                PortMapping { source: src_port, host: host_port, protocol },
            ));
        }
        r
    }

    /// Appends one `KEY=VALUE` environment entry. Can be called multiple
    /// times; entries accumulate in insertion order.
    pub fn environment_variable(self, env: &str) -> (r: Self)
        ensures
            r@ == (BuilderModel { env: self@.env.push(env@), ..self@ }),
    {
        let mut environment_variables = self.environment_variables;
        environment_variables.push(env.to_owned());
        let r = ContainerBuilder { environment_variables, ..self };
        proof {
            assert(r@ =~= (BuilderModel { env: self@.env.push(env@), ..self@ }));
        }
        r
    }

    /// Sets whether the image is pulled from the registry before the
    /// container is created. Defaults to false.
    pub fn pull_on_build(self, pull: bool) -> (r: Self)
        ensures
            r@ == (BuilderModel { pull_on_build: pull, ..self@ }),
    {
        let r = ContainerBuilder { pull_on_build: pull, ..self };
        proof {
            assert(r@ =~= (BuilderModel { pull_on_build: pull, ..self@ }));
        }
        r
    }

    /// The composed image reference `"{image_name}:{image_tag}"`.
    fn image(&self) -> (r: String)
        ensures
            r@ == image_ref(self@),
    {
        self.image_name.clone().concat(":").concat(self.image_tag.as_str())
    }

    /// The effective name under the slug policy; the slug, if one is called
    /// for, is freshly generated on each call.
    fn slugged_name(&self) -> (r: Option<String>)
        ensures
            is_effective_name(self@, r.deep_view()),
    {
        match &self.name {
            None => None,
            Some(base) => {
                if self.slug_length > 0 {
                    let g = slug::generate(self.slug_length);
                    let s = base.clone().concat("_").concat(g.as_str());
                    proof {
                        assert(is_slug(g@, self@.slug_length) && s@ == self@.name->0 + "_"@ + g@);
                    }
                    Some(s)
                } else {
                    Some(base.clone())
                }
            },
        }
    }

    /// Consumes the builder and opens the staged pipeline. The composed
    /// image reference and the effective name are fixed here — the slug, if
    /// one is called for, is generated exactly once per build — and the
    /// first pending stage is the pull when `pull_on_build` was set, else
    /// creation.
    pub fn start_build(self) -> (p: BuildPipeline)
        ensures
            p@.request.image == image_ref(self@),
            is_effective_name(self@, p@.request.name),
            p@.request.ports == self@.ports,
            p@.request.commands == self@.commands,
            p@.request.env == self@.env,
            p@.stage == (if self@.pull_on_build {
                StageModel::Pull
            } else {
                StageModel::Create
            }),
            p@.has_client == self@.has_client,
    {
        let image = self.image();
        let name = self.slugged_name();
        let stage = if self.pull_on_build {
            BuildStage::Pull
        } else {
            BuildStage::Create
        };
        BuildPipeline {
            stage,
            request: CreateRequest {
                image,
                name,
                ports: self.ports,
                commands: self.commands,
                env: self.environment_variables,
            },
            client: self.client,
        }
    }
}

/// What a build submits to the runtime's creation endpoint, fixed when the
/// builder is consumed.
pub struct CreateRequest {
    /// The composed image reference `"{image_name}:{image_tag}"`.
    pub image: String,
    /// The effective container name, if any.
    pub name: Option<String>,
    /// The port mappings, in insertion order.
    pub ports: Vec<PortMapping>,
    /// The startup commands.
    pub commands: Vec<String>,
    /// The environment entries.
    pub env: Vec<String>,
}

/// The mathematical content of a [`CreateRequest`].
#[verifier::ext_equal]
pub struct RequestModel {
    /// The composed image reference.
    pub image: Seq<char>,
    /// The effective name, if any.
    pub name: Option<Seq<char>>,
    /// The port mappings, in insertion order.
    pub ports: Seq<PortMapping>,
    /// The startup commands.
    pub commands: Seq<Seq<char>>,
    /// The environment entries.
    pub env: Seq<Seq<char>>,
}

impl View for CreateRequest {
    type V = RequestModel;

    open spec fn view(&self) -> RequestModel {
        RequestModel {
            image: self.image@,
            name: self.name.deep_view(),
            ports: self.ports@,
            commands: self.commands.deep_view(),
            env: self.env.deep_view(),
        }
    }
}

/// The runtime's full inspected state of a container. Opaque to this
/// library: it is embedded in the handle verbatim, without interpretation.
#[verifier::external_type_specification]
#[verifier::external_body]
pub struct ExContainerDetails(shiplift::rep::ContainerDetails);

/// Abstraction of a running container: the terminal output of a successful
/// build pipeline, wrapping the inspected state and the client override the
/// build was configured with.
///
/// A handle does not clean its resource up when dropped: the container keeps
/// running in the runtime until a removal is driven to completion through
/// [`Container::into_removal`]. Its view is the runtime-assigned identifier.
pub struct Container {
    id: String,
    details: shiplift::rep::ContainerDetails,
    client: Option<Client>,
}

impl View for Container {
    type V = Seq<char>;

    closed spec fn view(&self) -> Seq<char> {
        self.id@
    }
}

impl Container {
    /// A handle always identifies its resource: the runtime-assigned
    /// identifier embedded in it is never empty.
    #[verifier::type_invariant]
    spec fn identified(self) -> bool {
        self.id@.len() > 0
    }

    /// Opens a builder with advanced configuration for a container of this
    /// image; same defaults as [`ContainerBuilder::new`].
    pub fn builder(image_name: &str) -> (r: ContainerBuilder)
        ensures
            r@ == (BuilderModel {
                image_name: image_name@,
                image_tag: "latest"@,
                name: None,
                ports: Seq::empty(),
                commands: Seq::empty(),
                env: Seq::empty(),
                pull_on_build: false,
                slug_length: 0,
                has_client: false,
            }),
    {
        ContainerBuilder::new(image_name)
    }

    /// Returns the runtime-assigned identifier of the running container,
    /// read from the embedded inspected state; it is never empty.
    pub fn id(&self) -> (r: &str)
        ensures
            r@ == self@,
            r@.len() > 0,
    {
        proof {
            use_type_invariant(self);
        }
        self.id.as_str()
    }

    /// Exposes the runtime's native port-mapping representation verbatim,
    /// for callers needing low-level detail; this layer performs no
    /// interpretation of it. Relies on a field read of the inspected state
    /// only.
    #[verifier::external_body]
    pub fn ports_raw(&self) -> &Option<HashMap<String, Option<Vec<HashMap<String, String>>>>> {
        &self.details.network_settings.ports
    }

    /// Consumes the handle and yields the identifier plus the client
    /// override for the forced-removal request the driver must issue (the
    /// runtime equivalent of removal that ignores running state). The
    /// in-process handle has no further validity; the runtime's own
    /// semantics govern the removal's outcome.
    pub fn into_removal(self) -> (r: (String, Option<Client>))
        ensures
            r.0@ == self@,
            r.0@.len() > 0,
    {
        proof {
            use_type_invariant(&self);
        }
        let Container { id, details: _, client } = self;
        (id, client)
    }
}

/// The outcome of one runtime operation, handed back to the pipeline by the
/// driver that performed it.
pub enum BuildEvent {
    /// The image-pull progress stream was drained to completion.
    PullOk,
    /// The image-pull stream reported an error.
    PullErr,
    /// The creation endpoint accepted the request and returned this
    /// resource identifier.
    CreateOk {
        /// The identifier the creation endpoint returned.
        id: String,
    },
    /// The runtime rejected creation (name collision, invalid
    /// configuration, quota).
    CreateErr,
    /// The resource transitioned to the running state.
    StartOk,
    /// The created resource could not be started.
    StartErr,
    /// Inspection returned the resource's full state; `id` is the
    /// identifier that state carries.
    InspectOk {
        /// The identifier the inspected state carries.
        id: String,
        /// The full inspected state, embedded in the handle verbatim.
        details: shiplift::rep::ContainerDetails,
    },
    /// The running resource's state could not be retrieved.
    InspectErr,
}

/// The mathematical content of a [`BuildEvent`]; the opaque inspected state
/// carries no content here beyond its identifier.
pub enum EventModel {
    /// The pull stream was drained to completion.
    PullOk,
    /// The pull stream reported an error.
    PullErr,
    /// Creation succeeded with this identifier.
    CreateOk {
        /// The identifier the creation endpoint returned.
        id: Seq<char>,
    },
    /// Creation was rejected.
    CreateErr,
    /// The resource started.
    StartOk,
    /// The resource could not be started.
    StartErr,
    /// Inspection succeeded; the state carries this identifier.
    InspectOk {
        /// The identifier the inspected state carries.
        id: Seq<char>,
    },
    /// Inspection failed.
    InspectErr,
}

impl View for BuildEvent {
    type V = EventModel;

    open spec fn view(&self) -> EventModel {
        match self {
            BuildEvent::PullOk => EventModel::PullOk,
            BuildEvent::PullErr => EventModel::PullErr,
            BuildEvent::CreateOk { id } => EventModel::CreateOk { id: id@ },
            BuildEvent::CreateErr => EventModel::CreateErr,
            BuildEvent::StartOk => EventModel::StartOk,
            BuildEvent::StartErr => EventModel::StartErr,
            BuildEvent::InspectOk { id, .. } => EventModel::InspectOk { id: id@ },
            BuildEvent::InspectErr => EventModel::InspectErr,
        }
    }
}

/// Where a pipeline stands: the pending stage, or a terminal.
enum BuildStage {
    Pull,
    Create,
    Start { id: String },
    Inspect { id: String },
    Done { container: Container },
    Failed { error: Error },
}

/// The stage of a pipeline, as contracts see it.
pub enum StageModel {
    /// The conditional first stage: fetch the image.
    Pull,
    /// Submit the creation request.
    Create,
    /// Transition the created resource, addressed by `id`, to running.
    Start {
        /// The identifier the creation endpoint returned.
        id: Seq<char>,
    },
    /// Fetch the full state of the running resource `id`.
    Inspect {
        /// The identifier the creation endpoint returned.
        id: Seq<char>,
    },
    /// The pipeline succeeded; a handle with identifier `id` is ready.
    Done {
        /// The identifier of the running container.
        id: Seq<char>,
    },
    /// The pipeline aborted; no stage after the failed one ran.
    Failed {
        /// The error kind of the stage that failed.
        error: Error,
    },
}

/// The observable stage kind of a pipeline, for the driver to branch on.
#[derive(Clone, Copy, Debug, PartialEq, Eq, Structural)]
pub enum Phase {
    /// The image pull is pending.
    Pull,
    /// The creation request is pending.
    Create,
    /// The start request is pending.
    Start,
    /// The inspection request is pending.
    Inspect,
    /// The pipeline succeeded; the handle is ready.
    Done,
    /// The pipeline aborted.
    Failed,
}

/// The observable kind of a stage.
pub open spec fn phase_of(s: StageModel) -> Phase {
    match s {
        StageModel::Pull => Phase::Pull,
        StageModel::Create => Phase::Create,
        StageModel::Start { .. } => Phase::Start,
        StageModel::Inspect { .. } => Phase::Inspect,
        StageModel::Done { .. } => Phase::Done,
        StageModel::Failed { .. } => Phase::Failed,
    }
}

/// The mathematical content of a [`BuildPipeline`].
#[verifier::ext_equal]
pub struct PipelineModel {
    /// The pending stage, or the terminal reached.
    pub stage: StageModel,
    /// The creation request, fixed when the builder was consumed.
    pub request: RequestModel,
    /// Whether a runtime-client override is in place.
    pub has_client: bool,
}

/// Whether the driver may feed event `e` in stage `s`: exactly the outcomes
/// of the operation that stage is waiting on. Terminal stages accept
/// nothing: once the pipeline is done or failed, no further runtime
/// operation belongs to it.
pub open spec fn accepts(s: StageModel, e: EventModel) -> bool {
    match s {
        StageModel::Pull => e is PullOk || e is PullErr,
        StageModel::Create => e is CreateOk || e is CreateErr,
        StageModel::Start { .. } => e is StartOk || e is StartErr,
        StageModel::Inspect { .. } => e is InspectOk || e is InspectErr,
        StageModel::Done { .. } => false,
        StageModel::Failed { .. } => false,
    }
}

/// The transition relation of the pipeline: strict stage order — pull (when
/// requested), create, start, inspect — immediate terminal abort on any
/// stage failure with that stage's error kind, and refusal of an inspection
/// success whose state carries an empty identifier. The request never
/// changes. An event no stage is waiting on changes nothing.
pub open spec fn spec_step(p: PipelineModel, e: EventModel) -> PipelineModel {
    PipelineModel {
        stage: match (p.stage, e) {
            (StageModel::Pull, EventModel::PullOk) => StageModel::Create,
            (StageModel::Pull, EventModel::PullErr) => StageModel::Failed {
                error: Error::PullFailed,
            },
            (StageModel::Create, EventModel::CreateOk { id }) => StageModel::Start { id },
            (StageModel::Create, EventModel::CreateErr) => StageModel::Failed {
                error: Error::CreateFailed,
            },
            (StageModel::Start { id }, EventModel::StartOk) => StageModel::Inspect { id },
            (StageModel::Start { .. }, EventModel::StartErr) => StageModel::Failed {
                error: Error::StartFailed,
            },
            (StageModel::Inspect { .. }, EventModel::InspectOk { id }) => if id.len() > 0 {
                StageModel::Done { id }
            } else {
                StageModel::Failed { error: Error::InspectFailed }
            },
            (StageModel::Inspect { .. }, EventModel::InspectErr) => StageModel::Failed {
                error: Error::InspectFailed,
            },
            _ => p.stage,
        },
        ..p
    }
}

/// The staged build pipeline: a state machine that sequences the optional
/// image pull, resource creation, start, and inspection. It performs no I/O
/// itself: a driver asks [`BuildPipeline::phase`] what is pending, performs
/// that one runtime operation, and hands the outcome back through
/// [`BuildPipeline::step`]; each stage failure is terminal for this build.
///
/// Failures after creation leave a live resource behind with no handle
/// referencing it: no compensating cleanup is attempted, and the caller must
/// treat such a failure as a potential resource leak.
pub struct BuildPipeline {
    stage: BuildStage,
    request: CreateRequest,
    client: Option<Client>,
}

impl View for BuildPipeline {
    type V = PipelineModel;

    closed spec fn view(&self) -> PipelineModel {
        PipelineModel {
            stage: match self.stage {
                BuildStage::Pull => StageModel::Pull,
                BuildStage::Create => StageModel::Create,
                BuildStage::Start { id } => StageModel::Start { id: id@ },
                BuildStage::Inspect { id } => StageModel::Inspect { id: id@ },
                BuildStage::Done { container } => StageModel::Done { id: container@ },
                BuildStage::Failed { error } => StageModel::Failed { error },
            },
            request: self.request@,
            has_client: self.client is Some,
        }
    }
}

impl BuildPipeline {
    /// The kind of the stage the pipeline is waiting on, or of the terminal
    /// it reached.
    pub fn phase(&self) -> (k: Phase)
        ensures
            k == phase_of(self@.stage),
    {
        match &self.stage {
            BuildStage::Pull => Phase::Pull,
            BuildStage::Create => Phase::Create,
            BuildStage::Start { .. } => Phase::Start,
            BuildStage::Inspect { .. } => Phase::Inspect,
            BuildStage::Done { .. } => Phase::Done,
            BuildStage::Failed { .. } => Phase::Failed,
        }
    }

    /// The creation request this build submits: fixed when the builder was
    /// consumed, unchanged by every step.
    pub fn request(&self) -> (r: &CreateRequest)
        ensures
            r@ == self@.request,
    {
        &self.request
    }

    /// The runtime-client override, if one was configured on the builder;
    /// with none, the driver's process-wide shared client applies.
    pub fn client(&self) -> (r: Option<&Client>)
        ensures
            r is Some <==> self@.has_client,
    {
        self.client.as_ref()
    }

    /// The identifier of the resource being started or inspected.
    pub fn resource_id(&self) -> (r: &str)
        requires
            self@.stage is Start || self@.stage is Inspect,
        ensures
            self@.stage matches StageModel::Start { id } ==> r@ == id,
            self@.stage matches StageModel::Inspect { id } ==> r@ == id,
    {
        match &self.stage {
            BuildStage::Start { id } => id.as_str(),
            BuildStage::Inspect { id } => id.as_str(),
            _ => {
                proof {
                    assert(false);
                }
                ""
            },
        }
    }

    /// Feeds the outcome of the pending stage's runtime operation into the
    /// machine, per the transition relation [`spec_step`]: success advances
    /// to the next stage in strict order, failure is terminal with that
    /// stage's error kind, and an inspection success whose state carries an
    /// empty identifier becomes `InspectFailed` rather than an unidentified
    /// handle.
    pub fn step(self, event: BuildEvent) -> (r: Self)
        requires
            accepts(self@.stage, event@),
        ensures
            r@ == spec_step(self@, event@),
    {
        let BuildPipeline { stage, request, client } = self;
        let new_stage = match (stage, event) {
            (BuildStage::Pull, BuildEvent::PullOk) => BuildStage::Create,
            (BuildStage::Pull, BuildEvent::PullErr) => BuildStage::Failed {
                error: Error::PullFailed,
            },
            (BuildStage::Create, BuildEvent::CreateOk { id }) => BuildStage::Start { id },
            (BuildStage::Create, BuildEvent::CreateErr) => BuildStage::Failed {
                error: Error::CreateFailed,
            },
            (BuildStage::Start { id }, BuildEvent::StartOk) => BuildStage::Inspect { id },
            (BuildStage::Start { .. }, BuildEvent::StartErr) => BuildStage::Failed {
                error: Error::StartFailed,
            },
            (BuildStage::Inspect { .. }, BuildEvent::InspectOk { id, details }) => {
                if id.as_str().is_empty() {
                    BuildStage::Failed { error: Error::InspectFailed }
                } else {
                    let handle_client = match &client {
                        Some(c) => Some(c.clone()),
                        None => None,
                    };
                    BuildStage::Done {
                        container: Container { id, details, client: handle_client },
                    }
                }
            },
            (BuildStage::Inspect { .. }, BuildEvent::InspectErr) => BuildStage::Failed {
                error: Error::InspectFailed,
            },
            _ => {
                proof {
                    assert(false);
                }
                BuildStage::Create
            },
        };
        BuildPipeline { stage: new_stage, request, client }
    }

    /// Consumes a finished pipeline: the handle of the running container on
    /// success — its identifier is the one inspection reported, and is
    /// non-empty — or the error kind of the stage that failed.
    pub fn finish(self) -> (r: Result<Container, Error>)
        requires
            self@.stage is Done || self@.stage is Failed,
        ensures
            match r {
                Ok(c) => self@.stage == (StageModel::Done { id: c@ }) && c@.len() > 0,
                Err(e) => self@.stage == (StageModel::Failed { error: e }),
            },
    {
        let BuildPipeline { stage, request: _, client: _ } = self;
        match stage {
            BuildStage::Done { container } => {
                proof {
                    use_type_invariant(&container);
                }
                Ok(container)
            },
            BuildStage::Failed { error } => Err(error),
            _ => {
                proof {
                    assert(false);
                }
                Err(Error::InspectFailed)
            },
        }
    }
}

/// The builder state after exposing every mapping of `ms` in turn, oldest
/// first.
pub open spec fn expose_seq(m: BuilderModel, ms: Seq<PortMapping>) -> BuilderModel
    decreases ms.len(),
{
    if ms.len() == 0 {
        m
    } else {
        expose_seq(expose_model(m, ms[0]), ms.subrange(1, ms.len() as int))
    }
}

/// Exposing a sequence of mappings appends exactly those mappings, in
/// insertion order, after the ones already present — and nothing else of the
/// builder changes. Together with the contract of
/// [`ContainerBuilder::start_build`], a build after `k` calls of `expose`
/// submits exactly those `k` mappings to creation, in insertion order.
pub proof fn lemma_expose_in_order(m: BuilderModel, ms: Seq<PortMapping>)
    ensures
        expose_seq(m, ms).ports =~= m.ports + ms,
        expose_seq(m, ms) == (BuilderModel { ports: expose_seq(m, ms).ports, ..m }),
    decreases ms.len(),
{
    if ms.len() == 0 {
        assert(expose_seq(m, ms).ports =~= m.ports + ms);
    } else {
        let rest = ms.subrange(1, ms.len() as int);
        lemma_expose_in_order(expose_model(m, ms[0]), rest);
        assert(m.ports.push(ms[0]) + rest =~= m.ports + ms);
    }
}

/// Whatever event the driver feeds, a pipeline never reaches the Done stage
/// with an empty identifier: a build either yields an identified handle or
/// fails with one of the defined error kinds — never a silent success with
/// no identifier.
pub proof fn lemma_no_unidentified_success(p: PipelineModel, e: EventModel)
    requires
        p.stage matches StageModel::Done { id } ==> id.len() > 0,
    ensures
        spec_step(p, e).stage matches StageModel::Done { id } ==> id.len() > 0,
{
}

/// Terminal stages are final: neither a finished nor a failed pipeline
/// accepts any further outcome.
pub proof fn lemma_terminal_is_final(s: StageModel, e: EventModel)
    requires
        s is Done || s is Failed,
    ensures
        !accepts(s, e),
{
}

/// A failure of the pull stage is terminal before any creation: the stage
/// becomes the `PullFailed` terminal, from which no further outcome — in
/// particular no creation outcome — is accepted.
pub proof fn lemma_pull_failure_aborts(p: PipelineModel)
    requires
        p.stage is Pull,
    ensures
        spec_step(p, EventModel::PullErr).stage == (StageModel::Failed {
            error: Error::PullFailed,
        }),
        forall|e: EventModel| !accepts(spec_step(p, EventModel::PullErr).stage, e),
{
}

/// A successful run from the creation stage visits start and inspection in
/// strict order, ends Done with the identifier inspection reported, and
/// submits the same request throughout.
pub proof fn lemma_successful_run(p: PipelineModel, created: Seq<char>, inspected: Seq<char>)
    requires
        p.stage is Create,
        inspected.len() > 0,
    ensures
        ({
            let p1 = spec_step(p, EventModel::CreateOk { id: created });
            let p2 = spec_step(p1, EventModel::StartOk);
            let p3 = spec_step(p2, EventModel::InspectOk { id: inspected });
            &&& p1.stage == (StageModel::Start { id: created })
            &&& p2.stage == (StageModel::Inspect { id: created })
            &&& p3.stage == (StageModel::Done { id: inspected })
            &&& p3.request == p.request
        }),
{
}

/// Every stage failure aborts the pipeline immediately, with the error kind
/// named after the stage that was pending.
pub proof fn lemma_error_kind_names_stage(p: PipelineModel)
    ensures
        p.stage is Pull ==> spec_step(p, EventModel::PullErr).stage == (StageModel::Failed {
            error: Error::PullFailed,
        }),
        p.stage is Create ==> spec_step(p, EventModel::CreateErr).stage == (StageModel::Failed {
            error: Error::CreateFailed,
        }),
        p.stage is Start ==> spec_step(p, EventModel::StartErr).stage == (StageModel::Failed {
            error: Error::StartFailed,
        }),
        p.stage is Inspect ==> spec_step(p, EventModel::InspectErr).stage == (StageModel::Failed {
            error: Error::InspectFailed,
        }),
{
}

} // verus!
