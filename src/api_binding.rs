use vstd::prelude::*;

verus! {

/// What a binding serves: a worker's function, or files of a worker.
#[derive(Debug, Clone, Copy, PartialEq, Eq, Structural)]
pub enum WorkerBindingType {
    Default,
    FileServer,
}

impl WorkerBindingType {
    /// The wire code of the binding type.
    pub fn code(&self) -> (r: i32)
        ensures
            r == binding_type_code(*self),
    {
        match self {
            WorkerBindingType::Default => 0,
            WorkerBindingType::FileServer => 1,
        }
    }

    /// The binding type of a wire code; an unknown code reads as the default.
    pub fn from_code(code: i32) -> (r: WorkerBindingType)
        ensures
            r == binding_type_of(code),
    {
        if code == 1 {
            WorkerBindingType::FileServer
        } else {
            WorkerBindingType::Default
        }
    }

    /// The name of the binding type.
    pub fn name(&self) -> (r: String)
        ensures
            r@ == binding_type_name(*self),
    {
        match self {
            WorkerBindingType::Default => "Default".to_owned(),
            WorkerBindingType::FileServer => "FileServer".to_owned(),
        }
    }
}

pub open spec fn binding_type_code(t: WorkerBindingType) -> i32 {
    match t {
        WorkerBindingType::Default => 0,
        WorkerBindingType::FileServer => 1,
    }
}

pub open spec fn binding_type_of(code: i32) -> WorkerBindingType {
    if code == 1 {
        WorkerBindingType::FileServer
    } else {
        WorkerBindingType::Default
    }
}

pub open spec fn binding_type_name(t: WorkerBindingType) -> Seq<char> {
    match t {
        WorkerBindingType::Default => "Default"@,
        WorkerBindingType::FileServer => "FileServer"@,
    }
}

/// The HTTP methods that a route matches.
#[derive(Debug, Clone, Copy, PartialEq, Eq, Structural)]
pub enum MethodPattern {
    Get,
    Connect,
    Delete,
    Head,
    Options,
    Patch,
    Post,
    Put,
    Trace,
}

/// The wire code of each method.
pub open spec fn method_code(m: MethodPattern) -> i32 {
    match m {
        MethodPattern::Get => 0,
        MethodPattern::Connect => 1,
        MethodPattern::Delete => 2,
        MethodPattern::Head => 3,
        MethodPattern::Options => 4,
        MethodPattern::Patch => 5,
        MethodPattern::Post => 6,
        MethodPattern::Put => 7,
        MethodPattern::Trace => 8,
    }
}

impl MethodPattern {
    pub fn code(&self) -> (r: i32)
        ensures
            r == method_code(*self),
    {
        match self {
            MethodPattern::Get => 0,
            MethodPattern::Connect => 1,
            MethodPattern::Delete => 2,
            MethodPattern::Head => 3,
            MethodPattern::Options => 4,
            MethodPattern::Patch => 5,
            MethodPattern::Post => 6,
            MethodPattern::Put => 7,
            MethodPattern::Trace => 8,
        }
    }

    /// The method of a wire code; codes outside the nine methods are refused.
    pub fn from_code(code: i32) -> (r: Result<MethodPattern, BindingError>)
        ensures
            (0 <= code <= 8) <==> r is Ok,
            r matches Ok(m) ==> method_code(m) == code,
            !(0 <= code <= 8) ==> r == Err::<MethodPattern, BindingError>(
                BindingError::UnknownMethod(code),
            ),
    {
        match code {
            0 => Ok(MethodPattern::Get),
            1 => Ok(MethodPattern::Connect),
            2 => Ok(MethodPattern::Delete),
            3 => Ok(MethodPattern::Head),
            4 => Ok(MethodPattern::Options),
            5 => Ok(MethodPattern::Patch),
            6 => Ok(MethodPattern::Post),
            7 => Ok(MethodPattern::Put),
            8 => Ok(MethodPattern::Trace),
            _ => Err(BindingError::UnknownMethod(code)),
        }
    }
}

/// Every method survives the trip to its wire code and back, and every code of a method
/// survives the trip to the method and back.
pub proof fn lemma_method_code_round_trip(m: MethodPattern, code: i32)
    ensures
        0 <= method_code(m) <= 8,
        0 <= code <= 8 ==> exists|m2: MethodPattern| method_code(m2) == code,
        forall|m2: MethodPattern| method_code(m2) == method_code(m) ==> m2 == m,
{
    if 0 <= code <= 8 {
        let m2 = if code == 0 {
            MethodPattern::Get
        } else if code == 1 {
            MethodPattern::Connect
        } else if code == 2 {
            MethodPattern::Delete
        } else if code == 3 {
            MethodPattern::Head
        } else if code == 4 {
            MethodPattern::Options
        } else if code == 5 {
            MethodPattern::Patch
        } else if code == 6 {
            MethodPattern::Post
        } else if code == 7 {
            MethodPattern::Put
        } else {
            MethodPattern::Trace
        };
        assert(method_code(m2) == code);
    }
}

/// Why a definition received on the wire was refused.
#[derive(Debug, Clone, Copy, PartialEq, Eq, Structural)]
pub enum BindingError {
    ResponseMissing,
    WorkerNameMissing,
    ComponentMissing,
    BindingMissing,
    DefinitionMissing,
    IdMissing,
    CreatedAtMissing,
    UnknownMethod(i32),
}

impl BindingError {
    /// The message that reports the error.
    pub fn message(&self) -> (r: String)
        ensures
            r@ == binding_error_text(*self),
    {
        match self {
            BindingError::ResponseMissing => "response is missing".to_owned(),
            BindingError::WorkerNameMissing => "worker name is missing".to_owned(),
            BindingError::ComponentMissing => "component is missing".to_owned(),
            BindingError::BindingMissing => "binding is missing".to_owned(),
            BindingError::DefinitionMissing => "definition is missing".to_owned(),
            BindingError::IdMissing => "Api Definition ID is missing".to_owned(),
            BindingError::CreatedAtMissing => "Created At is missing".to_owned(),
            BindingError::UnknownMethod(_) => "Failed to convert".to_owned(),
        }
    }
}

pub open spec fn binding_error_text(e: BindingError) -> Seq<char> {
    match e {
        BindingError::ResponseMissing => "response is missing"@,
        BindingError::WorkerNameMissing => "worker name is missing"@,
        BindingError::ComponentMissing => "component is missing"@,
        BindingError::BindingMissing => "binding is missing"@,
        BindingError::DefinitionMissing => "definition is missing"@,
        BindingError::IdMissing => "Api Definition ID is missing"@,
        BindingError::CreatedAtMissing => "Created At is missing"@,
        BindingError::UnknownMethod(_) => "Failed to convert"@,
    }
}

/// A component at one of its versions.
#[derive(Debug)]
pub struct VersionedComponentId {
    pub component_id: String,
    pub version: u64,
}

impl VersionedComponentId {
    pub fn duplicate(&self) -> (r: VersionedComponentId)
        ensures
            r == *self,
    {
        VersionedComponentId { component_id: self.component_id.clone(), version: self.version }
    }
}

fn dup_opt(s: &Option<String>) -> (r: Option<String>)
    ensures
        r == *s,
{
    match s {
        Some(t) => Some(t.clone()),
        None => None,
    }
}

/// How a route reaches a worker: the component, the expression that names the worker,
/// the one for the idempotency key, and the one that maps the response, each as text.
#[derive(Debug)]
pub struct GolemWorkerBinding {
    pub component_id: VersionedComponentId,
    pub worker_name: String,
    pub idempotency_key: Option<String>,
    pub response: String,
    pub binding_type: Option<WorkerBindingType>,
}

/// A binding as the wire carries it, where every part may be absent.
#[derive(Debug)]
pub struct WorkerBindingMessage {
    pub component: Option<VersionedComponentId>,
    pub worker_name: Option<String>,
    pub idempotency_key: Option<String>,
    pub response: Option<String>,
    pub binding_type: Option<i32>,
}

/// The binding type that a message stands for: the default when it names none.
pub open spec fn message_binding_type(m: WorkerBindingMessage) -> WorkerBindingType {
    match m.binding_type {
        Some(c) => binding_type_of(c),
        None => WorkerBindingType::Default,
    }
}

/// Why a message carries no binding: a response, a component, and a worker name unless
/// the binding serves files, must be there, checked in that order.
pub open spec fn binding_message_error(m: WorkerBindingMessage) -> Option<BindingError> {
    if m.response is None {
        Some(BindingError::ResponseMissing)
    } else if m.worker_name is None && message_binding_type(m) == WorkerBindingType::Default {
        Some(BindingError::WorkerNameMissing)
    } else if m.component is None {
        Some(BindingError::ComponentMissing)
    } else {
        None
    }
}

/// The binding carries what the message does; an absent worker name reads as empty.
pub open spec fn binding_matches(b: GolemWorkerBinding, m: WorkerBindingMessage) -> bool {
    &&& m.component == Some(b.component_id)
    &&& b.worker_name@ == match m.worker_name {
        Some(n) => n@,
        None => Seq::<char>::empty(),
    }
    &&& b.idempotency_key == m.idempotency_key
    &&& m.response == Some(b.response)
    &&& b.binding_type == Some(message_binding_type(m))
}

pub fn binding_from_message(m: &WorkerBindingMessage) -> (r: Result<GolemWorkerBinding, BindingError>)
    ensures
        match binding_message_error(*m) {
            Some(e) => r == Err::<GolemWorkerBinding, BindingError>(e),
            None => r matches Ok(b) && binding_matches(b, *m),
        },
{
    let binding_type = match m.binding_type {
        Some(c) => WorkerBindingType::from_code(c),
        None => WorkerBindingType::Default,
    };
    let response = match &m.response {
        Some(r) => r.clone(),
        None => {
            return Err(BindingError::ResponseMissing);
        },
    };
    let worker_name = match &m.worker_name {
        Some(n) => n.clone(),
        None => match binding_type {
            WorkerBindingType::Default => {
                return Err(BindingError::WorkerNameMissing);
            },
            WorkerBindingType::FileServer => String::new(),
        },
    };
    let component_id = match &m.component {
        Some(c) => c.duplicate(),
        None => {
            return Err(BindingError::ComponentMissing);
        },
    };
    Ok(
        GolemWorkerBinding {
            component_id,
            worker_name,
            idempotency_key: dup_opt(&m.idempotency_key),
            response,
            binding_type: Some(binding_type),
        },
    )
}

pub open spec fn opt_code(t: Option<WorkerBindingType>) -> Option<i32> {
    match t {
        Some(t) => Some(binding_type_code(t)),
        None => None,
    }
}

pub fn binding_to_message(b: &GolemWorkerBinding) -> (r: WorkerBindingMessage)
    ensures
        r.component == Some(b.component_id),
        r.worker_name == Some(b.worker_name),
        r.idempotency_key == b.idempotency_key,
        r.response == Some(b.response),
        r.binding_type == opt_code(b.binding_type),
{
    let binding_type = match b.binding_type {
        Some(t) => Some(t.code()),
        None => None,
    };
    WorkerBindingMessage {
        component: Some(b.component_id.duplicate()),
        worker_name: Some(b.worker_name.clone()),
        idempotency_key: dup_opt(&b.idempotency_key),
        response: Some(b.response.clone()),
        binding_type,
    }
}

/// A binding with a type goes to the wire and comes back whole.
pub proof fn lemma_binding_round_trip(b: GolemWorkerBinding, m: WorkerBindingMessage)
    requires
        b.binding_type is Some,
        m.component == Some(b.component_id),
        m.worker_name == Some(b.worker_name),
        m.idempotency_key == b.idempotency_key,
        m.response == Some(b.response),
        m.binding_type == opt_code(b.binding_type),
    ensures
        binding_message_error(m) is None,
        binding_matches(b, m),
{
}

/// A route: the method and path it matches, and the binding it calls.
#[derive(Debug)]
pub struct Route {
    pub method: MethodPattern,
    pub path: String,
    pub binding: GolemWorkerBinding,
}

#[derive(Debug)]
pub struct HttpRouteMessage {
    pub method: i32,
    pub path: String,
    pub binding: Option<WorkerBindingMessage>,
}

/// Why a message carries no route: its binding is missing or refused, or its method
/// code is unknown, checked in that order.
pub open spec fn route_message_error(m: HttpRouteMessage) -> Option<BindingError> {
    match m.binding {
        None => Some(BindingError::BindingMissing),
        Some(b) => match binding_message_error(b) {
            Some(e) => Some(e),
            None => if 0 <= m.method <= 8 {
                None
            } else {
                Some(BindingError::UnknownMethod(m.method))
            },
        },
    }
}

pub open spec fn route_matches(r: Route, m: HttpRouteMessage) -> bool {
    &&& method_code(r.method) == m.method
    &&& r.path == m.path
    &&& m.binding is Some
    &&& binding_matches(r.binding, m.binding->0)
}

pub fn route_from_message(m: &HttpRouteMessage) -> (r: Result<Route, BindingError>)
    ensures
        match route_message_error(*m) {
            Some(e) => r == Err::<Route, BindingError>(e),
            None => r matches Ok(route) && route_matches(route, *m),
        },
{
    let binding = match &m.binding {
        Some(b) => binding_from_message(b)?,
        None => {
            return Err(BindingError::BindingMissing);
        },
    };
    let method = MethodPattern::from_code(m.method)?;
    Ok(Route { method, path: m.path.clone(), binding })
}

/// The message that carries the route: every part of its binding present, as it is.
pub open spec fn route_message_of(r: Route, m: HttpRouteMessage) -> bool {
    &&& m.method == method_code(r.method)
    &&& m.path == r.path
    &&& m.binding matches Some(b) && b.component == Some(r.binding.component_id) && b.worker_name
        == Some(r.binding.worker_name) && b.idempotency_key == r.binding.idempotency_key
        && b.response == Some(r.binding.response) && b.binding_type == opt_code(
        r.binding.binding_type,
    )
}

pub fn route_to_message(r: &Route) -> (m: HttpRouteMessage)
    ensures
        route_message_of(*r, m),
{
    HttpRouteMessage {
        method: r.method.code(),
        path: r.path.clone(),
        binding: Some(binding_to_message(&r.binding)),
    }
}

/// The first refused route of a list, if any, with its error.
pub open spec fn first_route_error(ms: Seq<HttpRouteMessage>) -> Option<BindingError>
    decreases ms.len(),
{
    if ms.len() == 0 {
        None
    } else {
        match first_route_error(ms.drop_last()) {
            Some(e) => Some(e),
            None => route_message_error(ms.last()),
        }
    }
}

/// The routes of a list, each converted, or the error of the first refused one.
pub fn routes_from_messages(ms: &Vec<HttpRouteMessage>) -> (r: Result<Vec<Route>, BindingError>)
    ensures
        match first_route_error(ms@) {
            Some(e) => r == Err::<Vec<Route>, BindingError>(e),
            None => r matches Ok(routes) && routes@.len() == ms@.len() && forall|j: int|
                0 <= j < ms@.len() ==> route_matches(#[trigger] routes@[j], ms@[j]),
        },
{
    let mut routes: Vec<Route> = Vec::new();
    let mut i: usize = 0;
    proof {
        assert(ms@.subrange(0, 0) =~= Seq::<HttpRouteMessage>::empty());
    }
    while i < ms.len()
        invariant
            i <= ms@.len(),
            first_route_error(ms@.subrange(0, i as int)) is None,
            routes@.len() == i,
            forall|j: int| 0 <= j < i ==> route_matches(#[trigger] routes@[j], ms@[j]),
        decreases ms.len() - i,
    {
        proof {
            assert(ms@.subrange(0, i + 1).drop_last() =~= ms@.subrange(0, i as int));
        }
        match route_from_message(&ms[i]) {
            Ok(route) => {
                routes.push(route);
            },
            Err(e) => {
                proof {
                    lemma_first_route_error_prefix(ms@, i + 1);
                }
                return Err(e);
            },
        }
        i = i + 1;
    }
    proof {
        assert(ms@.subrange(0, ms@.len() as int) =~= ms@);
    }
    Ok(routes)
}

proof fn lemma_first_route_error_prefix(ms: Seq<HttpRouteMessage>, n: int)
    requires
        0 <= n <= ms.len(),
        first_route_error(ms.subrange(0, n)) is Some,
    ensures
        first_route_error(ms) == first_route_error(ms.subrange(0, n)),
    decreases ms.len() - n,
{
    if n < ms.len() {
        assert(ms.subrange(0, n + 1).drop_last() =~= ms.subrange(0, n));
        lemma_first_route_error_prefix(ms, n + 1);
    } else {
        assert(ms.subrange(0, n) =~= ms);
    }
}

/// A request to create or change an API definition.
#[derive(Debug)]
pub struct HttpApiDefinitionRequest {
    pub id: String,
    pub version: String,
    pub routes: Vec<Route>,
    pub draft: bool,
}

#[derive(Debug)]
pub struct ApiDefinitionRequestMessage {
    pub id: Option<String>,
    pub version: String,
    /// The routes of the HTTP definition, when the message holds a definition.
    pub routes: Option<Vec<HttpRouteMessage>>,
    pub draft: bool,
}

/// Why a message carries no definition request: the definition is missing, one of its
/// routes is refused, or the id is missing, checked in that order.
pub open spec fn definition_message_error(m: ApiDefinitionRequestMessage) -> Option<BindingError> {
    match m.routes {
        None => Some(BindingError::DefinitionMissing),
        Some(rs) => match first_route_error(rs@) {
            Some(e) => Some(e),
            None => if m.id is None {
                Some(BindingError::IdMissing)
            } else {
                None
            },
        },
    }
}

pub fn definition_from_message(m: &ApiDefinitionRequestMessage) -> (r: Result<
    HttpApiDefinitionRequest,
    BindingError,
>)
    ensures
        match definition_message_error(*m) {
            Some(e) => r == Err::<HttpApiDefinitionRequest, BindingError>(e),
            None => r matches Ok(d) && Some(d.id) == m.id && d.version == m.version && d.draft
                == m.draft && d.routes@.len() == m.routes->0@.len() && forall|j: int|
                0 <= j < d.routes@.len() ==> route_matches(#[trigger] d.routes@[j], m.routes->0@[j]),
        },
{
    let routes = match &m.routes {
        Some(rs) => routes_from_messages(rs)?,
        None => {
            return Err(BindingError::DefinitionMissing);
        },
    };
    let id = match &m.id {
        Some(id) => id.clone(),
        None => {
            return Err(BindingError::IdMissing);
        },
    };
    Ok(HttpApiDefinitionRequest { id, version: m.version.clone(), routes, draft: m.draft })
}

/// A stored API definition, with the time of its creation in seconds since the Unix epoch.
#[derive(Debug)]
pub struct HttpApiDefinition {
    pub id: String,
    pub version: String,
    pub routes: Vec<Route>,
    pub draft: bool,
    pub created_at: i64,
}

/// A stored API definition as the wire carries it.
#[derive(Debug)]
pub struct ApiDefinitionMessage {
    pub id: Option<String>,
    pub version: String,
    pub routes: Option<Vec<HttpRouteMessage>>,
    pub draft: bool,
    pub created_at: Option<i64>,
}

/// The message for each route, in order.
pub fn routes_to_messages(routes: &Vec<Route>) -> (r: Vec<HttpRouteMessage>)
    ensures
        r@.len() == routes@.len(),
        forall|j: int| 0 <= j < routes@.len() ==> route_message_of(#[trigger] routes@[j], r@[j]),
{
    let mut out: Vec<HttpRouteMessage> = Vec::new();
    let mut i: usize = 0;
    while i < routes.len()
        invariant
            i <= routes@.len(),
            out@.len() == i,
            forall|j: int| 0 <= j < i ==> route_message_of(#[trigger] routes@[j], out@[j]),
        decreases routes.len() - i,
    {
        let m = route_to_message(&routes[i]);
        out.push(m);
        i = i + 1;
    }
    out
}

/// Every route of a stored definition names its binding's type.
pub open spec fn routes_typed(routes: Seq<Route>) -> bool {
    forall|j: int| 0 <= j < routes.len() ==> (#[trigger] routes[j]).binding.binding_type is Some
}

impl HttpApiDefinition {
    /// The wire form of the definition.
    pub fn to_message(&self) -> (r: ApiDefinitionMessage)
        ensures
            r.id == Some(self.id),
            r.version == self.version,
            r.draft == self.draft,
            r.created_at == Some(self.created_at),
            r.routes matches Some(ms) && ms@.len() == self.routes@.len() && forall|j: int|
                0 <= j < ms@.len() ==> route_message_of(self.routes@[j], #[trigger] ms@[j]),
    {
        let routes = routes_to_messages(&self.routes);
        ApiDefinitionMessage {
            id: Some(self.id.clone()),
            version: self.version.clone(),
            routes: Some(routes),
            draft: self.draft,
            created_at: Some(self.created_at),
        }
    }
}

/// Why a message carries no stored definition: the checks of a definition request, then
/// the creation time, in that order.
pub open spec fn stored_definition_error(m: ApiDefinitionMessage) -> Option<BindingError> {
    match m.routes {
        None => Some(BindingError::DefinitionMissing),
        Some(rs) => match first_route_error(rs@) {
            Some(e) => Some(e),
            None => if m.id is None {
                Some(BindingError::IdMissing)
            } else if m.created_at is None {
                Some(BindingError::CreatedAtMissing)
            } else {
                None
            },
        },
    }
}

pub fn stored_definition_from_message(m: &ApiDefinitionMessage) -> (r: Result<HttpApiDefinition, BindingError>)
    ensures
        match stored_definition_error(*m) {
            Some(e) => r == Err::<HttpApiDefinition, BindingError>(e),
            None => r matches Ok(d) && Some(d.id) == m.id && d.version == m.version && d.draft
                == m.draft && Some(d.created_at) == m.created_at && d.routes@.len()
                == m.routes->0@.len() && forall|j: int|
                0 <= j < d.routes@.len() ==> route_matches(#[trigger] d.routes@[j], m.routes->0@[j]),
        },
{
    let routes = match &m.routes {
        Some(rs) => routes_from_messages(rs)?,
        None => {
            return Err(BindingError::DefinitionMissing);
        },
    };
    let id = match &m.id {
        Some(id) => id.clone(),
        None => {
            return Err(BindingError::IdMissing);
        },
    };
    let created_at = match m.created_at {
        Some(t) => t,
        None => {
            return Err(BindingError::CreatedAtMissing);
        },
    };
    Ok(HttpApiDefinition { id, version: m.version.clone(), routes, draft: m.draft, created_at })
}

/// A stored definition whose routes all name their binding's type goes to the wire and
/// is accepted back, each route as it was.
pub proof fn lemma_definition_round_trip(d: HttpApiDefinition, m: ApiDefinitionMessage)
    requires
        routes_typed(d.routes@),
        m.id == Some(d.id),
        m.created_at == Some(d.created_at),
        m.routes matches Some(ms) && ms@.len() == d.routes@.len() && forall|j: int|
            0 <= j < ms@.len() ==> route_message_of(d.routes@[j], #[trigger] ms@[j]),
    ensures
        stored_definition_error(m) is None,
        forall|j: int|
            0 <= j < d.routes@.len() ==> route_matches(#[trigger] d.routes@[j], m.routes->0@[j]),
{
    let ms = m.routes->0@;
    lemma_routes_accepted(d.routes@, ms, ms.len() as int);
    assert(ms.subrange(0, ms.len() as int) =~= ms);
    assert forall|j: int| 0 <= j < d.routes@.len() implies route_matches(
        #[trigger] d.routes@[j],
        ms[j],
    ) by {
        assert(route_message_of(d.routes@[j], ms[j]));
        assert(d.routes@[j].binding.binding_type is Some);
    }
}

proof fn lemma_routes_accepted(routes: Seq<Route>, ms: Seq<HttpRouteMessage>, n: int)
    requires
        routes_typed(routes),
        ms.len() == routes.len(),
        forall|j: int| 0 <= j < ms.len() ==> route_message_of(routes[j], #[trigger] ms[j]),
        0 <= n <= ms.len(),
    ensures
        first_route_error(ms.subrange(0, n)) is None,
    decreases n,
{
    if n > 0 {
        lemma_routes_accepted(routes, ms, n - 1);
        assert(ms.subrange(0, n).drop_last() =~= ms.subrange(0, n - 1));
        assert(route_message_of(routes[n - 1], ms[n - 1]));
        assert(routes[n - 1].binding.binding_type is Some);
    }
}

/// An API definition and version that a deployment serves.
#[derive(Debug)]
pub struct ApiDefinitionInfo {
    pub id: String,
    pub version: String,
}

/// A request to serve API definitions at a site.
#[derive(Debug)]
pub struct ApiDeploymentRequest {
    pub api_definitions: Vec<ApiDefinitionInfo>,
    pub site: String,
}

/// The definitions served at a site, with the time the deployment was made.
#[derive(Debug)]
pub struct ApiDeployment {
    pub api_definitions: Vec<ApiDefinitionInfo>,
    pub site: String,
    pub created_at: Option<i64>,
}

impl ApiDeployment {
    /// The deployment of the given definitions, each an id and a version, at a site.
    pub fn from_keys(keys: &Vec<(String, String)>, site: &String, created_at: i64) -> (r: ApiDeployment)
        ensures
            r.site == *site,
            r.created_at == Some(created_at),
            r.api_definitions@.len() == keys@.len(),
            forall|j: int|
                0 <= j < keys@.len() ==> (#[trigger] r.api_definitions@[j]).id == keys@[j].0
                    && r.api_definitions@[j].version == keys@[j].1,
    {
        let mut defs: Vec<ApiDefinitionInfo> = Vec::new();
        let mut i: usize = 0;
        while i < keys.len()
            invariant
                i <= keys@.len(),
                defs@.len() == i,
                forall|j: int|
                    0 <= j < i ==> (#[trigger] defs@[j]).id == keys@[j].0 && defs@[j].version
                        == keys@[j].1,
            decreases keys.len() - i,
        {
            defs.push(ApiDefinitionInfo { id: keys[i].0.clone(), version: keys[i].1.clone() });
            i = i + 1;
        }
        ApiDeployment { api_definitions: defs, site: site.clone(), created_at: Some(created_at) }
    }
}

} // verus!
