//! Applying manifests: create what is absent, leave what exists.
//!
//! A manifest is a JSON or YAML document that describes one resource. To
//! apply it is to look the resource up under its own URL and to create it
//! only where the server answers 404; a resource that exists is returned as
//! it is and never changed. Sending is not done here: [`ApplyPlan`] holds
//! the two requests, and [`ApplyPlan::after_lookup`] and
//! [`ApplyPlan::after_create`] say what each response comes to.

use crate::clients::lemma_registry_segments_plain;
use crate::clients::low_level::{
    document_outcome, document_result, planned, request_outcome, success, Method, Request,
    RequestView, Response, ResponseView, NOT_FOUND,
};
use crate::clients::routes::{kind_path, resource_path, KindRoute, ResourceRoute};
use crate::errors::{Error, ErrorKind, ErrorView};
use crate::json::{
    json_document, json_string_at, json_text, json_texts, optional_string, optional_string_at,
    optional_view, parse_json, parse_yaml, string_at, to_text, yaml_document, JsonKind,
};
use crate::location::{resolve, resolved};
use crate::resources::metadata::opt_string_view;
use crate::resources::{
    effective_namespace, kind_named, kind_plural, namespaced, resolve_namespace, Kind,
};
use crate::text::{ascii_lowercase, ascii_lowered, encoded_segment, has_char, same_text};
use vstd::prelude::*;

verus! {

/// The format of a manifest file.
#[derive(Clone, Copy, Debug, PartialEq, Eq, Structural)]
pub enum ManifestFormat {
    Json,
    Yaml,
}

/// The format that a file extension stands for: JSON for `json`, YAML for
/// `yaml`, in any mix of upper and lower case, and none for anything else.
pub open spec fn format_of(extension: Seq<char>) -> Option<ManifestFormat> {
    if ascii_lowered(extension) == "json"@ {
        Some(ManifestFormat::Json)
    } else if ascii_lowered(extension) == "yaml"@ {
        Some(ManifestFormat::Yaml)
    } else {
        None
    }
}

/// The format in which a directory entry is applied: that of its extension
/// where the entry is a file and has one, and none for every other entry,
/// which is passed over.
pub open spec fn entry_format(is_file: bool, extension: Option<Seq<char>>) -> Option<
    ManifestFormat,
> {
    match extension {
        Some(ext) => if is_file {
            format_of(ext)
        } else {
            None
        },
        None => None,
    }
}

impl ManifestFormat {
    /// The format that a file extension (without its dot) stands for.
    pub fn from_extension(extension: &str) -> (format: Option<ManifestFormat>)
        ensures
            format == format_of(extension@),
    {
        let lowered = ascii_lowercase(extension);
        if same_text(lowered.as_str(), "json") {
            Some(ManifestFormat::Json)
        } else if same_text(lowered.as_str(), "yaml") {
            Some(ManifestFormat::Yaml)
        } else {
            None
        }
    }

    /// The format in which a directory entry is applied, if it is applied.
    pub fn of_entry(is_file: bool, extension: Option<&str>) -> (format: Option<ManifestFormat>)
        ensures
            format == entry_format(
                is_file,
                match extension {
                    Some(ext) => Some(ext@),
                    None => None,
                },
            ),
    {
        match extension {
            Some(ext) => if is_file {
                ManifestFormat::from_extension(ext)
            } else {
                None
            },
            None => None,
        }
    }
}

/// A manifest: what routing reads of a document, and the document itself as
/// compact JSON text.
#[derive(Clone, Debug)]
pub struct Manifest {
    api_version: String,
    kind: Kind,
    name: String,
    namespace: Option<String>,
    document: String,
}

/// The mathematical content of a [`Manifest`].
pub struct ManifestView {
    pub api_version: Seq<char>,
    pub kind: Kind,
    pub name: Seq<char>,
    pub namespace: Option<Seq<char>>,
    pub document: Seq<char>,
}

/// The strings that a manifest is read from. The three that are required
/// are `None` where the document does not hold them as strings; the
/// namespace is a string that may stand in the metadata but need not.
pub struct ManifestFields {
    pub api_version: Option<String>,
    pub kind: Option<String>,
    pub name: Option<String>,
    pub namespace: Result<Option<String>, JsonKind>,
}

/// The mathematical content of [`ManifestFields`].
pub struct ManifestFieldsView {
    pub api_version: Option<Seq<char>>,
    pub kind: Option<Seq<char>>,
    pub name: Option<Seq<char>>,
    pub namespace: Result<Option<Seq<char>>, JsonKind>,
}

impl View for ManifestFields {
    type V = ManifestFieldsView;

    open spec fn view(&self) -> ManifestFieldsView {
        ManifestFieldsView {
            api_version: opt_string_view(self.api_version),
            kind: opt_string_view(self.kind),
            name: opt_string_view(self.name),
            namespace: optional_view(self.namespace),
        }
    }
}

impl View for Manifest {
    type V = ManifestView;

    closed spec fn view(&self) -> ManifestView {
        ManifestView {
            api_version: self.api_version@,
            kind: self.kind,
            name: self.name@,
            namespace: opt_string_view(self.namespace),
            document: self.document@,
        }
    }
}

impl ManifestView {
    /// The API root: `/api` for a bare version such as `v1`, `/apis` for a
    /// group and a version such as `apps/v1`.
    pub open spec fn api_root(self) -> Seq<char> {
        if self.api_version.contains('/') {
            "/apis"@
        } else {
            "/api"@
        }
    }

    /// The API prefix: the root, `/`, and the API version as the manifest
    /// gives it.
    pub open spec fn api_prefix(self) -> Seq<char> {
        self.api_root() + "/"@ + self.api_version
    }

    /// The namespace that the manifest is routed to: none for a
    /// cluster-scoped kind, else the namespace of the manifest, and the
    /// default namespace of the kind where the manifest names none.
    pub open spec fn routed_namespace(self) -> Option<Seq<char>> {
        effective_namespace(self.kind, self.namespace)
    }

    /// The path of the collection that the resource belongs to.
    pub open spec fn kind_path(self) -> Seq<char> {
        kind_path(self.api_prefix(), self.routed_namespace(), kind_plural(self.kind))
    }

    /// The path of the resource itself.
    pub open spec fn resource_path(self) -> Seq<char> {
        resource_path(
            self.api_prefix(),
            self.routed_namespace(),
            kind_plural(self.kind),
            self.name,
        )
    }
}

/// The context that every failure to read a manifest passes through.
pub open spec fn reading_manifest() -> Seq<char> {
    "failed to read the manifest"@
}

/// The decode error for a document that is no manifest.
pub open spec fn no_manifest(message: Seq<char>) -> ErrorView {
    ErrorView::bare(ErrorKind::Decode, message).within(reading_manifest())
}

/// The manifest that the fields and the document make up. `apiVersion`,
/// `kind` and `metadata.name` are required, the kind must be one of the
/// registry, and `metadata.namespace` is a string where it stands; the
/// first of these that fails, in this order, is named by the decode error.
pub open spec fn manifest_from(fields: ManifestFieldsView, document: Seq<char>) -> Result<
    ManifestView,
    ErrorView,
> {
    if fields.api_version is None {
        Err(no_manifest("the manifest holds no string `apiVersion`"@))
    } else if fields.kind is None {
        Err(no_manifest("the manifest holds no string `kind`"@))
    } else if kind_named(fields.kind->0) is None {
        Err(no_manifest("the manifest is of a kind that is not supported"@))
    } else if fields.name is None {
        Err(no_manifest("the manifest holds no string `metadata.name`"@))
    } else if fields.namespace is Err {
        Err(no_manifest("the manifest holds a `metadata.namespace` that is no string"@))
    } else {
        Ok(
            ManifestView {
                api_version: fields.api_version->0,
                kind: kind_named(fields.kind->0)->0,
                name: fields.name->0,
                namespace: fields.namespace->Ok_0,
                document,
            },
        )
    }
}

/// The fields of a manifest, as the document with the compact text `doc`
/// holds them.
pub open spec fn manifest_fields(doc: Seq<char>) -> ManifestFieldsView {
    ManifestFieldsView {
        api_version: json_string_at(doc, "/apiVersion"@),
        kind: json_string_at(doc, "/kind"@),
        name: json_string_at(doc, "/metadata/name"@),
        namespace: optional_string(doc, "/metadata/namespace"@),
    }
}

/// The document that the bytes of a manifest file stand for in the given
/// format, as its compact JSON text.
pub open spec fn parsed_as(bytes: Seq<u8>, format: ManifestFormat) -> Result<Seq<char>, Seq<char>> {
    match format {
        ManifestFormat::Json => json_document(bytes),
        ManifestFormat::Yaml => yaml_document(bytes),
    }
}

/// The manifest that the bytes of a file stand for: a decode error with the
/// parser's complaint where they are no document of the format, else what
/// the fields of the document make up, with the compact JSON text of the
/// document.
pub open spec fn manifest_parsed(bytes: Seq<u8>, format: ManifestFormat) -> Result<
    ManifestView,
    ErrorView,
> {
    match parsed_as(bytes, format) {
        Err(complaint) => Err(no_manifest(complaint)),
        Ok(doc) => manifest_from(manifest_fields(doc), doc),
    }
}

/// Whether `r` is the outcome `expected`, value for value.
pub open spec fn manifest_outcome(
    r: Result<Manifest, Error>,
    expected: Result<ManifestView, ErrorView>,
) -> bool {
    match r {
        Ok(manifest) => expected == Ok::<ManifestView, ErrorView>(manifest@),
        Err(e) => expected == Err::<ManifestView, ErrorView>(e@),
    }
}

/// The decode error for a document that is no manifest.
fn refuse(message: &str) -> (e: Error)
    ensures
        e@ == no_manifest(message@),
{
    Error::decode(message).with_context("failed to read the manifest")
}

impl Manifest {
    /// Makes up a manifest from its fields and the JSON text of its
    /// document.
    pub fn from_fields(fields: ManifestFields, document: String) -> (r: Result<Manifest, Error>)
        ensures
            manifest_outcome(r, manifest_from(fields@, document@)),
    {
        let api_version = match fields.api_version {
            Some(api_version) => api_version,
            None => {
                return Err(refuse("the manifest holds no string `apiVersion`"));
            },
        };
        let kind_name = match fields.kind {
            Some(kind) => kind,
            None => {
                return Err(refuse("the manifest holds no string `kind`"));
            },
        };
        let kind = match Kind::from_name(kind_name.as_str()) {
            Some(kind) => kind,
            None => {
                return Err(refuse("the manifest is of a kind that is not supported"));
            },
        };
        let name = match fields.name {
            Some(name) => name,
            None => {
                return Err(refuse("the manifest holds no string `metadata.name`"));
            },
        };
        let namespace = match fields.namespace {
            Ok(namespace) => namespace,
            Err(_) => {
                return Err(
                    refuse("the manifest holds a `metadata.namespace` that is no string"),
                );
            },
        };
        Ok(Manifest { api_version, kind, name, namespace, document })
    }

    /// Reads a manifest from a parsed document.
    pub fn from_document(doc: &serde_json::Value) -> (r: Result<Manifest, Error>)
        ensures
            manifest_outcome(r, manifest_from(manifest_fields(json_text(*doc)), json_text(*doc))),
    {
        Manifest::from_fields(
            ManifestFields {
                api_version: string_at(doc, "/apiVersion"),
                kind: string_at(doc, "/kind"),
                name: string_at(doc, "/metadata/name"),
                namespace: optional_string_at(doc, "/metadata/namespace"),
            },
            to_text(doc),
        )
    }

    /// Reads a manifest from the bytes of a file in the given format.
    pub fn parse(bytes: &[u8], format: ManifestFormat) -> (r: Result<Manifest, Error>)
        ensures
            manifest_outcome(r, manifest_parsed(bytes@, format)),
    {
        let parsed = match format {
            ManifestFormat::Json => parse_json(bytes),
            ManifestFormat::Yaml => parse_yaml(bytes),
        };
        match parsed {
            Err(complaint) => Err(refuse(complaint.as_str())),
            Ok(doc) => Manifest::from_document(&doc),
        }
    }

    /// The API version, as the manifest gives it.
    pub fn api_version(&self) -> (api_version: &str)
        ensures
            api_version@ == self@.api_version,
    {
        self.api_version.as_str()
    }

    /// The kind of the resource.
    pub fn kind(&self) -> (kind: Kind)
        ensures
            kind == self@.kind,
    {
        self.kind
    }

    /// The name of the resource.
    pub fn name(&self) -> (name: &str)
        ensures
            name@ == self@.name,
    {
        self.name.as_str()
    }

    /// The namespace that the manifest names, if it names one.
    pub fn namespace(&self) -> (namespace: Option<&str>)
        ensures
            match namespace {
                Some(ns) => self@.namespace == Some(ns@),
                None => self@.namespace is None,
            },
    {
        match &self.namespace {
            Some(ns) => Some(ns.as_str()),
            None => None,
        }
    }

    /// The full document, as compact JSON text.
    pub fn document(&self) -> (document: &str)
        ensures
            document@ == self@.document,
    {
        self.document.as_str()
    }

    /// The API prefix of the manifest.
    pub fn api_prefix(&self) -> (prefix: String)
        ensures
            prefix@ == self@.api_prefix(),
    {
        let mut prefix = if has_char(self.api_version.as_str(), '/') {
            String::from_str("/apis")
        } else {
            String::from_str("/api")
        };
        prefix.append("/");
        prefix.append(self.api_version.as_str());
        prefix
    }

    /// The path of the collection that the resource belongs to.
    pub fn kind_path(&self) -> (path: String)
        ensures
            path@ == self@.kind_path(),
    {
        let prefix = self.api_prefix();
        let mut route = KindRoute::new(prefix.as_str(), self.kind.info().plural);
        if let Some(ns) = resolve_namespace(self.kind, self.namespace()) {
            route.namespace(ns);
        }
        route.path()
    }

    /// The path of the resource itself.
    pub fn resource_path(&self) -> (path: String)
        ensures
            path@ == self@.resource_path(),
    {
        let prefix = self.api_prefix();
        let mut route = ResourceRoute::new(
            prefix.as_str(),
            self.kind.info().plural,
            self.name.as_str(),
        );
        if let Some(ns) = resolve_namespace(self.kind, self.namespace()) {
            route.namespace(ns);
        }
        route.path()
    }

    /// The request that replaces the resource with the manifest: a PUT to
    /// the URL of the resource. Its body is the full document.
    pub fn replace_request(&self, base_url: &str) -> (r: Result<Request, Error>)
        ensures
            request_outcome(
                r,
                planned(Method::Put, resolved(base_url@, self@.resource_path(), None)),
            ),
    {
        let path = self.resource_path();
        match resolve(base_url, path.as_str(), &None) {
            Ok(url) => Ok(Request { method: Method::Put, url }),
            Err(e) => Err(e),
        }
    }
}

/// The two requests of applying one manifest, and the document to create.
#[derive(Clone, Debug)]
pub struct ApplyPlan {
    lookup: Request,
    create: Request,
    document: String,
}

/// The mathematical content of an [`ApplyPlan`].
pub struct ApplyPlanView {
    pub lookup: RequestView,
    pub create: RequestView,
    pub document: Seq<char>,
}

impl View for ApplyPlan {
    type V = ApplyPlanView;

    closed spec fn view(&self) -> ApplyPlanView {
        ApplyPlanView {
            lookup: self.lookup@,
            create: self.create@,
            document: self.document@,
        }
    }
}

/// What is to be done after the lookup.
pub enum ApplyStep {
    /// The resource is absent: send this request with this document as its
    /// body, and hand the response to [`ApplyPlan::after_create`].
    Create { request: Request, document: String },
    /// Nothing is left to send: this is the outcome.
    Done(Result<serde_json::Value, Error>),
}

/// The mathematical content of an [`ApplyStep`]. A resource stands in it
/// as its compact JSON text.
pub enum ApplyStepView {
    Create { request: RequestView, document: Seq<char> },
    Done(Result<Seq<char>, ErrorView>),
}

impl View for ApplyStep {
    type V = ApplyStepView;

    open spec fn view(&self) -> ApplyStepView {
        match self {
            ApplyStep::Create { request, document } => ApplyStepView::Create {
                request: request@,
                document: document@,
            },
            ApplyStep::Done(Ok(doc)) => ApplyStepView::Done(Ok(json_text(*doc))),
            ApplyStep::Done(Err(e)) => ApplyStepView::Done(Err(e@)),
        }
    }
}

/// The plan of applying a manifest under a base URL: the lookup is a GET of
/// the resource's own URL, the create a POST of the full document to the URL
/// of its collection. Where either URL cannot be formed the plan is the URL
/// error, that of the collection first.
pub open spec fn apply_planned(base_url: Seq<char>, manifest: ManifestView) -> Result<
    ApplyPlanView,
    ErrorView,
> {
    match resolved(base_url, manifest.kind_path(), None) {
        Err(e) => Err(e),
        Ok(kind_url) => match resolved(base_url, manifest.resource_path(), None) {
            Err(e) => Err(e),
            Ok(resource_url) => Ok(
                ApplyPlanView {
                    lookup: RequestView { method: Method::Get, url: resource_url },
                    create: RequestView { method: Method::Post, url: kind_url },
                    document: manifest.document,
                },
            ),
        },
    }
}

/// What the response to the lookup comes to: on 404 the create request with
/// the full document; on 2xx the existing resource, as the server sent it;
/// on every other status the error of the response.
pub open spec fn after_lookup(plan: ApplyPlanView, response: ResponseView) -> ApplyStepView {
    if response.status == NOT_FOUND {
        ApplyStepView::Create { request: plan.create, document: plan.document }
    } else {
        ApplyStepView::Done(document_result(plan.lookup, response))
    }
}

/// What the response to the create comes to: on 2xx the resource as the
/// server answered it, on every other status the error of the response.
pub open spec fn after_create(plan: ApplyPlanView, response: ResponseView) -> Result<
    Seq<char>,
    ErrorView,
> {
    document_result(plan.create, response)
}

impl ApplyPlan {
    /// Plans the application of `manifest` to the cluster at `base_url`.
    pub fn new(base_url: &str, manifest: &Manifest) -> (r: Result<ApplyPlan, Error>)
        ensures
            match r {
                Ok(plan) => apply_planned(base_url@, manifest@) == Ok::<ApplyPlanView, ErrorView>(
                    plan@,
                ),
                Err(e) => apply_planned(base_url@, manifest@) == Err::<ApplyPlanView, ErrorView>(
                    e@,
                ),
            },
    {
        let kind_path = manifest.kind_path();
        let kind_url = match resolve(base_url, kind_path.as_str(), &None) {
            Ok(url) => url,
            Err(e) => {
                return Err(e);
            },
        };
        let resource_path = manifest.resource_path();
        let resource_url = match resolve(base_url, resource_path.as_str(), &None) {
            Ok(url) => url,
            Err(e) => {
                return Err(e);
            },
        };
        Ok(
            ApplyPlan {
                lookup: Request { method: Method::Get, url: resource_url },
                create: Request { method: Method::Post, url: kind_url },
                document: manifest.document.clone(),
            },
        )
    }

    /// The first request: the lookup of the resource under its own URL.
    pub fn lookup(&self) -> (request: &Request)
        ensures
            request@ == self@.lookup,
    {
        &self.lookup
    }

    /// The request that creates the resource. It is sent only where
    /// [`ApplyPlan::after_lookup`] says so.
    pub fn create(&self) -> (request: &Request)
        ensures
            request@ == self@.create,
    {
        &self.create
    }

    /// The document of the manifest, as compact JSON text.
    pub fn document(&self) -> (document: &str)
        ensures
            document@ == self@.document,
    {
        self.document.as_str()
    }

    /// Says what is to be done after the lookup was answered by `response`.
    pub fn after_lookup(&self, response: &Response) -> (step: ApplyStep)
        ensures
            step@ == after_lookup(self@, response@),
    {
        if response.status == NOT_FOUND {
            ApplyStep::Create { request: self.create.copy(), document: self.document.clone() }
        } else {
            ApplyStep::Done(document_outcome(&self.lookup, response))
        }
    }

    /// Says what the response to the create comes to.
    pub fn after_create(&self, response: &Response) -> (r: Result<serde_json::Value, Error>)
        ensures
            match r {
                Ok(doc) => after_create(self@, response@) == Ok::<Seq<char>, ErrorView>(
                    json_text(doc),
                ),
                Err(e) => after_create(self@, response@) == Err::<Seq<char>, ErrorView>(e@),
            },
    {
        document_outcome(&self.create, response)
    }
}


/// The outcomes of the files of a directory, gathered: the resources in the
/// order of the files, up to the first failure; the first failure ends the
/// run and is passed on with the path of its file as context.
pub open spec fn gathered(outcomes: Seq<(Seq<char>, Result<Seq<char>, ErrorView>)>) -> Result<
    Seq<Seq<char>>,
    ErrorView,
>
    decreases outcomes.len(),
{
    if outcomes.len() == 0 {
        Ok(Seq::empty())
    } else {
        match gathered(outcomes.drop_last()) {
            Err(e) => Err(e),
            Ok(resources) => match outcomes.last().1 {
                Ok(resource) => Ok(resources.push(resource)),
                Err(e) => Err(e.within(outcomes.last().0)),
            },
        }
    }
}

/// The run over the files of one directory: the resources that the files
/// applied so far came to, in the order of the files.
pub struct DirectoryApply {
    applied: Vec<serde_json::Value>,
    seen: Ghost<Seq<(Seq<char>, Result<Seq<char>, ErrorView>)>>,
}

impl DirectoryApply {
    /// The outcomes recorded so far, each with the path of its file. A
    /// resource stands in them as its compact JSON text.
    pub closed spec fn outcomes(self) -> Seq<(Seq<char>, Result<Seq<char>, ErrorView>)> {
        self.seen@
    }

    /// The resources that a run holds are those that its outcomes gather to.
    #[verifier::type_invariant]
    spec fn gathers(self) -> bool {
        gathered(self.seen@) == Ok::<Seq<Seq<char>>, ErrorView>(json_texts(self.applied@))
    }

    /// The run before its first file.
    pub fn new() -> (run: DirectoryApply)
        ensures
            run.outcomes() == Seq::<(Seq<char>, Result<Seq<char>, ErrorView>)>::empty(),
    {
        let applied: Vec<serde_json::Value> = Vec::new();
        proof {
            assert(json_texts(applied@) =~= Seq::<Seq<char>>::empty());
        }
        DirectoryApply { applied, seen: Ghost(Seq::empty()) }
    }

    /// Records the outcome of the file at `path`. A resource joins those
    /// gathered so far and the run goes on; a failure ends the run and is
    /// passed on with the path as context.
    pub fn record(self, path: &str, outcome: Result<serde_json::Value, Error>) -> (r: Result<
        DirectoryApply,
        Error,
    >)
        ensures
            match (outcome, r) {
                (Ok(resource), Ok(run)) => run.outcomes() == self.outcomes().push(
                    (path@, Ok(json_text(resource))),
                ),
                (Err(cause), Err(e)) => e@ == cause@.within(path@) && gathered(
                    self.outcomes().push((path@, Err(cause@))),
                ) == Err::<Seq<Seq<char>>, ErrorView>(e@),
                _ => false,
            },
    {
        proof {
            use_type_invariant(&self);
        }
        let ghost before = self.seen@;
        match outcome {
            Ok(resource) => {
                let ghost text = json_text(resource);
                let ghost held = self.applied@;
                let mut applied = self.applied;
                applied.push(resource);
                proof {
                    assert(before.push((path@, Ok(text))).drop_last() == before);
                    assert(json_texts(applied@) =~= json_texts(held).push(text));
                }
                Ok(DirectoryApply { applied, seen: Ghost(before.push((path@, Ok(text)))) })
            },
            Err(cause) => {
                proof {
                    assert(before.push((path@, Err(cause@))).drop_last() == before);
                }
                Err(cause.with_context(path))
            },
        }
    }

    /// The resources of the run, in the order of the files: what the
    /// outcomes recorded gather to.
    pub fn finish(self) -> (resources: Vec<serde_json::Value>)
        ensures
            gathered(self.outcomes()) == Ok::<Seq<Seq<char>>, ErrorView>(json_texts(resources@)),
    {
        proof {
            use_type_invariant(&self);
        }
        self.applied
    }
}

/// The paths of a manifest. The resource is served under the collection it
/// is created in, at `/` and its percent-encoded name. For a cluster-scoped
/// kind neither path has a namespace segment, whatever namespace the
/// manifest names; for a namespaced kind both have the segment of the
/// namespace that the manifest names, and that of `default` where it names
/// none.
pub proof fn lemma_manifest_paths(manifest: ManifestView)
    ensures
        manifest.resource_path() == manifest.kind_path() + "/"@ + encoded_segment(manifest.name),
        !namespaced(manifest.kind) ==> manifest.kind_path() == manifest.api_prefix() + "/"@
            + kind_plural(manifest.kind),
        namespaced(manifest.kind) ==> manifest.kind_path() == manifest.api_prefix()
            + "/namespaces/"@ + encoded_segment(
            match manifest.namespace {
                Some(ns) => ns,
                None => "default"@,
            },
        ) + "/"@ + kind_plural(manifest.kind),
{
    lemma_registry_segments_plain(manifest.kind);
}

/// A server that keeps resources under their URLs, as far as applying a
/// manifest can tell: what it answers to a GET of `url`. It answers 200 with
/// the resource where it holds one under the URL, and 404 where it holds
/// none.
pub open spec fn served(store: Map<Seq<char>, Seq<u8>>, url: Seq<char>) -> ResponseView {
    if store.contains_key(url) {
        ResponseView { status: 200, body: store[url] }
    } else {
        ResponseView { status: NOT_FOUND, body: Seq::empty() }
    }
}

/// One run of applying a manifest against such a server: the resources that
/// the server holds afterwards, the outcome, and whether the create request
/// was sent.
pub struct ApplyRun {
    pub store: Map<Seq<char>, Seq<u8>>,
    pub outcome: Result<Seq<char>, ErrorView>,
    pub created: bool,
}

/// Applies the plan to a server that holds `store`. Where the create
/// request is sent the server answers it with `answer`; where that answer
/// reports success, the server holds from then on, under the URL of the
/// resource, what it answered.
pub open spec fn apply_run(
    plan: ApplyPlanView,
    store: Map<Seq<char>, Seq<u8>>,
    answer: ResponseView,
) -> ApplyRun {
    match after_lookup(plan, served(store, plan.lookup.url)) {
        ApplyStepView::Done(outcome) => ApplyRun { store, outcome, created: false },
        ApplyStepView::Create { .. } => ApplyRun {
            store: if success(answer.status) {
                store.insert(plan.lookup.url, answer.body)
            } else {
                store
            },
            outcome: after_create(plan, answer),
            created: true,
        },
    }
}

/// Applying a manifest is idempotent. Where a first run succeeds, a second
/// run of the same plan sends no create request, whatever the server would
/// answer to one; it leaves the resources of the server as the first run
/// left them; and its outcome is the resource that the server holds, which
/// is the outcome of the first run.
pub proof fn lemma_apply_twice(
    plan: ApplyPlanView,
    store: Map<Seq<char>, Seq<u8>>,
    first_answer: ResponseView,
    second_answer: ResponseView,
)
    requires
        apply_run(plan, store, first_answer).outcome is Ok,
    ensures
        ({
            let first = apply_run(plan, store, first_answer);
            let second = apply_run(plan, first.store, second_answer);
            &&& !second.created
            &&& second.store == first.store
            &&& second.outcome == first.outcome
            &&& first.store.contains_key(plan.lookup.url)
            &&& second.outcome == Ok::<Seq<char>, ErrorView>(
                json_document(first.store[plan.lookup.url])->Ok_0,
            )
        }),
{
}

/// A create request is sent in a run exactly where the server holds nothing
/// under the URL of the resource; what the server holds there is never
/// replaced.
pub proof fn lemma_apply_never_replaces(
    plan: ApplyPlanView,
    store: Map<Seq<char>, Seq<u8>>,
    answer: ResponseView,
)
    ensures
        apply_run(plan, store, answer).created <==> !store.contains_key(plan.lookup.url),
        forall|url: Seq<char>| #[trigger]
            store.contains_key(url) ==> apply_run(plan, store, answer).store.contains_key(url)
                && apply_run(plan, store, answer).store[url] == store[url],
{
}


/// One run over the manifests of a directory against such a server: the
/// resources that the server holds afterwards, the outcome of each
/// manifest, and how many create requests were sent.
pub struct DirectoryRun {
    pub store: Map<Seq<char>, Seq<u8>>,
    pub outcomes: Seq<Result<Seq<char>, ErrorView>>,
    pub created: nat,
}

/// Applies the plans one after the other to a server that holds `store`.
/// Where the create request of a plan is sent, the server answers it with
/// the answer that stands at the plan's place in `answers`.
pub open spec fn directory_run(
    plans: Seq<ApplyPlanView>,
    store: Map<Seq<char>, Seq<u8>>,
    answers: Seq<ResponseView>,
) -> DirectoryRun
    decreases plans.len(),
{
    if plans.len() == 0 {
        DirectoryRun { store, outcomes: Seq::empty(), created: 0 }
    } else {
        let before = directory_run(plans.drop_last(), store, answers.drop_last());
        let run = apply_run(plans.last(), before.store, answers.last());
        DirectoryRun {
            store: run.store,
            outcomes: before.outcomes.push(run.outcome),
            created: before.created + if run.created {
                1nat
            } else {
                0nat
            },
        }
    }
}

/// The run over the first `n` plans.
pub open spec fn run_prefix(
    plans: Seq<ApplyPlanView>,
    store: Map<Seq<char>, Seq<u8>>,
    answers: Seq<ResponseView>,
    n: int,
) -> DirectoryRun {
    directory_run(plans.take(n), store, answers.take(n))
}

/// The run over the first `n + 1` plans is the run over the first `n`,
/// followed by the run of the plan at `n`.
proof fn lemma_prefix_step(
    plans: Seq<ApplyPlanView>,
    store: Map<Seq<char>, Seq<u8>>,
    answers: Seq<ResponseView>,
    n: int,
)
    requires
        0 <= n < plans.len(),
        answers.len() == plans.len(),
    ensures
        ({
            let before = run_prefix(plans, store, answers, n);
            let after = run_prefix(plans, store, answers, n + 1);
            let run = apply_run(plans[n], before.store, answers[n]);
            &&& after.store == run.store
            &&& after.outcomes == before.outcomes.push(run.outcome)
            &&& after.created == before.created + if run.created {
                1nat
            } else {
                0nat
            }
        }),
{
    assert(plans.take(n + 1).drop_last() == plans.take(n));
    assert(answers.take(n + 1).drop_last() == answers.take(n));
}

/// What the server holds under a URL after the first `n` plans, it holds
/// unchanged after the first `m`, for `m` from `n` on.
proof fn lemma_prefix_keeps(
    plans: Seq<ApplyPlanView>,
    store: Map<Seq<char>, Seq<u8>>,
    answers: Seq<ResponseView>,
    n: int,
    m: int,
    url: Seq<char>,
)
    requires
        0 <= n <= m <= plans.len(),
        answers.len() == plans.len(),
        run_prefix(plans, store, answers, n).store.contains_key(url),
    ensures
        run_prefix(plans, store, answers, m).store.contains_key(url),
        run_prefix(plans, store, answers, m).store[url] == run_prefix(
            plans,
            store,
            answers,
            n,
        ).store[url],
    decreases m - n,
{
    if n < m {
        lemma_prefix_keeps(plans, store, answers, n, m - 1, url);
        lemma_prefix_step(plans, store, answers, m - 1);
        lemma_apply_never_replaces(
            plans[m - 1],
            run_prefix(plans, store, answers, m - 1).store,
            answers[m - 1],
        );
    }
}

/// The outcomes of the first `n` plans are the first `n` outcomes of the
/// first `m` plans, for `m` from `n` on.
proof fn lemma_prefix_outcomes(
    plans: Seq<ApplyPlanView>,
    store: Map<Seq<char>, Seq<u8>>,
    answers: Seq<ResponseView>,
    n: int,
    m: int,
)
    requires
        0 <= n <= m <= plans.len(),
        answers.len() == plans.len(),
    ensures
        run_prefix(plans, store, answers, m).outcomes.len() == m,
        run_prefix(plans, store, answers, m).outcomes.take(n) == run_prefix(
            plans,
            store,
            answers,
            n,
        ).outcomes,
    decreases m,
{
    if m == 0 {
        assert(run_prefix(plans, store, answers, 0).outcomes.take(0) == run_prefix(
            plans,
            store,
            answers,
            0,
        ).outcomes);
    } else if n == m {
        lemma_prefix_outcomes(plans, store, answers, m - 1, m - 1);
        lemma_prefix_step(plans, store, answers, m - 1);
    } else {
        lemma_prefix_outcomes(plans, store, answers, n, m - 1);
        lemma_prefix_step(plans, store, answers, m - 1);
    }
}

/// The induction behind [`lemma_directory_twice`]: the second run over the
/// first `n` plans.
proof fn lemma_second_prefix(
    plans: Seq<ApplyPlanView>,
    store: Map<Seq<char>, Seq<u8>>,
    answers: Seq<ResponseView>,
    again: Seq<ResponseView>,
    n: int,
)
    requires
        0 <= n <= plans.len(),
        answers.len() == plans.len(),
        again.len() == plans.len(),
        forall|i: int|
            0 <= i < plans.len() ==> (#[trigger] directory_run(plans, store, answers).outcomes[i])
                is Ok,
    ensures
        ({
            let first = directory_run(plans, store, answers);
            let second = run_prefix(plans, first.store, again, n);
            &&& second.store == first.store
            &&& second.created == 0
            &&& second.outcomes == run_prefix(plans, store, answers, n).outcomes
        }),
    decreases n,
{
    let first = directory_run(plans, store, answers);
    let len = plans.len() as int;
    assert(plans.take(len) == plans);
    assert(answers.take(len) == answers);
    if n > 0 {
        let i = n - 1;
        lemma_second_prefix(plans, store, answers, again, i);
        lemma_prefix_step(plans, store, answers, i);
        lemma_prefix_step(plans, first.store, again, i);
        let before = run_prefix(plans, store, answers, i);
        let after = run_prefix(plans, store, answers, i + 1);
        let url = plans[i].lookup.url;
        assert(apply_run(plans[i], before.store, answers[i]).outcome is Ok) by {
            lemma_prefix_outcomes(plans, store, answers, i + 1, len);
            lemma_prefix_outcomes(plans, store, answers, i, i);
            assert(after.outcomes[i] == apply_run(plans[i], before.store, answers[i]).outcome);
        }
        lemma_apply_twice(plans[i], before.store, answers[i], again[i]);
        lemma_prefix_keeps(plans, store, answers, i + 1, len, url);
    }
}

/// Applying a directory is idempotent. Where a first run over the manifests
/// of a directory succeeds for each of them, a second run over the same
/// manifests sends no create request, whatever the server would answer to
/// one; it leaves the resources of the server as the first run left them;
/// and the outcome of each manifest is the resource that the server holds,
/// which is the outcome that the manifest had in the first run.
pub proof fn lemma_directory_twice(
    plans: Seq<ApplyPlanView>,
    store: Map<Seq<char>, Seq<u8>>,
    answers: Seq<ResponseView>,
    again: Seq<ResponseView>,
)
    requires
        answers.len() == plans.len(),
        again.len() == plans.len(),
        forall|i: int|
            0 <= i < plans.len() ==> (#[trigger] directory_run(plans, store, answers).outcomes[i])
                is Ok,
    ensures
        ({
            let first = directory_run(plans, store, answers);
            let second = directory_run(plans, first.store, again);
            &&& second.store == first.store
            &&& second.created == 0
            &&& second.outcomes == first.outcomes
        }),
{
    let len = plans.len() as int;
    lemma_second_prefix(plans, store, answers, again, len);
    assert(plans.take(len) == plans);
    assert(answers.take(len) == answers);
    assert(again.take(len) == again);
}

} // verus!
