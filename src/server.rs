use vstd::prelude::*;

verus! {

/// Where the query server sends a request.
#[derive(Clone, Copy, Debug, PartialEq, Eq)]
pub enum Route {
    /// `POST /`: a query.
    GraphQLQuery,
    /// Any other method or path.
    NotFound,
}

/// The status and body of a response of the query server.
#[derive(Clone, Debug)]
pub struct HttpResponse {
    pub status: u16,
    pub body: String,
}

/// Why the query stream could not be created.
#[derive(Clone, Copy, Debug, PartialEq, Eq)]
pub enum StreamError {
    /// The query stream was created before; it has one consumer only.
    AlreadyCreated,
}

/// Why the query server could not be served.
#[derive(Clone, Debug)]
pub enum GraphQLServerError {
    InternalError(String),
}

/// Routes a request by its method and path.
pub fn route(method: &str, path: &str) -> (r: Route)
    ensures
        r == (if method@ == "POST"@ && path@ == "/"@ {
            Route::GraphQLQuery
        } else {
            Route::NotFound
        }),
{
    let is_post = method.to_owned() == "POST".to_owned();
    let is_root = path.to_owned() == "/".to_owned();
    if is_post && is_root {
        Route::GraphQLQuery
    } else {
        Route::NotFound
    }
}

/// The response to a query: 200 with the result's text, or 500 with the
/// error's description.
pub fn query_response(result: Result<String, String>) -> (r: HttpResponse)
    ensures
        result is Ok ==> r.status == 200 && r.body == result->Ok_0,
        result is Err ==> r.status == 500 && r.body == result->Err_0,
{
    match result {
        Ok(data) => HttpResponse { status: 200, body: data },
        Err(description) => HttpResponse { status: 500, body: description },
    }
}

/// The response to a request for any route but `POST /`.
pub fn not_found_response() -> (r: HttpResponse)
    ensures
        r.status == 404,
        r.body@ == "Not found"@,
{
    HttpResponse { status: 404, body: "Not found".to_owned() }
}

/// The state of the mock query server: the sinks it feeds, and the sink of its
/// query stream once a consumer has asked for that stream.
pub struct MockGraphQLServer<Q, P, T> {
    query_sink: Option<Q>,
    schema_provider_event_sink: P,
    store_event_sink: T,
}

impl<Q, P, T> MockGraphQLServer<Q, P, T> {
    /// The sink of the query stream, once it has been created.
    pub closed spec fn query_sink_spec(&self) -> Option<Q> {
        self.query_sink
    }

    pub closed spec fn schema_provider_sink_spec(&self) -> P {
        self.schema_provider_event_sink
    }

    pub closed spec fn store_sink_spec(&self) -> T {
        self.store_event_sink
    }

    pub fn new(schema_provider_event_sink: P, store_event_sink: T) -> (r: MockGraphQLServer<
        Q,
        P,
        T,
    >)
        ensures
            r.query_sink_spec() is None,
            r.schema_provider_sink_spec() == schema_provider_event_sink,
            r.store_sink_spec() == store_event_sink,
    {
        MockGraphQLServer { query_sink: None, schema_provider_event_sink, store_event_sink }
    }

    pub fn schema_provider_event_sink(&self) -> (r: &P)
        ensures
            *r == self.schema_provider_sink_spec(),
    {
        &self.schema_provider_event_sink
    }

    pub fn store_event_sink(&self) -> (r: &T)
        ensures
            *r == self.store_sink_spec(),
    {
        &self.store_event_sink
    }

    /// Whether the query stream has been created.
    pub fn has_query_stream(&self) -> (r: bool)
        ensures
            r == self.query_sink_spec() is Some,
    {
        self.query_sink.is_some()
    }

    /// Creates the query stream, fed through `sink`; only the first call
    /// succeeds, and every later one leaves the server unchanged.
    pub fn query_stream(&mut self, sink: Q) -> (r: Result<(), StreamError>)
        ensures
            old(self).query_sink_spec() is None ==> r is Ok && final(self).query_sink_spec()
                == Some(sink),
            old(self).query_sink_spec() is Some ==> r == Err::<(), StreamError>(
                StreamError::AlreadyCreated,
            ) && final(self).query_sink_spec() == old(self).query_sink_spec(),
            final(self).schema_provider_sink_spec() == old(self).schema_provider_sink_spec(),
            final(self).store_sink_spec() == old(self).store_sink_spec(),
    {
        match self.query_sink {
            Some(_) => Err(StreamError::AlreadyCreated),
            None => {
                self.query_sink = Some(sink);
                Ok(())
            },
        }
    }

    /// The sink that served queries are fed into; serving is refused while no
    /// component has asked for the query stream.
    pub fn serve(&self) -> (r: Result<&Q, GraphQLServerError>)
        ensures
            self.query_sink_spec() is Some <==> r is Ok,
            r is Ok ==> Some(*r->Ok_0) == self.query_sink_spec(),
            r is Err ==> (r->Err_0 matches GraphQLServerError::InternalError(m) && m@
                == "No component set up to handle incoming queries"@),
    {
        match &self.query_sink {
            Some(sink) => Ok(sink),
            None => Err(
                GraphQLServerError::InternalError(
                    "No component set up to handle incoming queries".to_owned(),
                ),
            ),
        }
    }
}

} // verus!
