use crate::errors::AppError;
use crate::ids::{parse_uuid, uuid_parse};
use vstd::prelude::*;
use vstd::string::{StringExecFns, StrSliceExecFns};

verus! {

/// The request methods the table tells apart; any other is `Other`.
#[derive(Clone, Copy, Debug, PartialEq, Eq, Structural)]
pub enum Method {
    Get,
    Post,
    Put,
    Delete,
    Other,
}

/// The operations a route can lead to.
#[derive(Clone, Copy, Debug, PartialEq, Eq, Structural)]
pub enum Handler {
    Root,
    Health,
    CreateUser,
    ListUsers,
    GetUser,
    UpdateUser,
    DeleteUser,
}

/// One line of the table: a method and a path pattern lead to a handler. The
/// pattern is `prefix`, followed by one parameter segment if `has_param`.
pub struct Route {
    pub method: Method,
    pub prefix: String,
    pub has_param: bool,
    pub handler: Handler,
}

/// A line of the table as plain values.
pub ghost struct RouteView {
    pub method: Method,
    pub prefix: Seq<char>,
    pub has_param: bool,
    pub handler: Handler,
}

impl View for Route {
    type V = RouteView;

    open spec fn view(&self) -> RouteView {
        RouteView {
            method: self.method,
            prefix: self.prefix@,
            has_param: self.has_param,
            handler: self.handler,
        }
    }
}

/// A route that matched, with the text of its parameter segment if it has one.
#[derive(Debug, PartialEq, Eq)]
pub struct Matched {
    pub handler: Handler,
    pub param: Option<String>,
}

/// A matched route as plain values.
pub ghost struct MatchedView {
    pub handler: Handler,
    pub param: Option<Seq<char>>,
}

impl View for Matched {
    type V = MatchedView;

    open spec fn view(&self) -> MatchedView {
        MatchedView {
            handler: self.handler,
            param: match self.param {
                Some(p) => Some(p@),
                None => None,
            },
        }
    }
}

/// A request bound to its operation, with the user id where the route has one.
#[derive(Clone, Copy, Debug, PartialEq, Eq, Structural)]
pub enum Call {
    Root,
    Health,
    CreateUser,
    ListUsers,
    GetUser(u128),
    UpdateUser(u128),
    DeleteUser(u128),
}

/// Whether a path fits a route's pattern: `None` if not, else the parameter
/// segment, if the pattern has one. A pattern without a parameter fits its own
/// text only; one with a parameter fits its prefix followed by one non-empty
/// segment without a slash.
pub open spec fn pattern_fit(route: RouteView, path: Seq<char>) -> Option<Option<Seq<char>>> {
    if !route.has_param {
        if path == route.prefix {
            Some(None)
        } else {
            None
        }
    } else if path.len() > route.prefix.len() && path.subrange(0, route.prefix.len() as int)
        == route.prefix && !path.subrange(route.prefix.len() as int, path.len() as int).contains(
        '/',
    ) {
        Some(Some(path.subrange(route.prefix.len() as int, path.len() as int)))
    } else {
        None
    }
}

/// The first line of the table, from `from` on, that fits the method and path.
pub open spec fn resolve_from(table: Seq<RouteView>, method: Method, path: Seq<char>, from: int)
    -> Option<MatchedView>
    decreases table.len() - from,
{
    if from < 0 || from >= table.len() {
        None
    } else if table[from].method == method && pattern_fit(table[from], path) is Some {
        Some(MatchedView { handler: table[from].handler, param: pattern_fit(table[from], path)->Some_0 })
    } else {
        resolve_from(table, method, path, from + 1)
    }
}

/// The view of an optional match.
pub open spec fn matched_view(found: Option<Matched>) -> Option<MatchedView> {
    match found {
        Some(m) => Some(m@),
        None => None,
    }
}

/// The views of a table's lines, line by line.
pub open spec fn routes_view(routes: Seq<Route>) -> Seq<RouteView> {
    Seq::new(routes.len(), |i: int| routes[i]@)
}

/// The service's table of routes, in order.
pub open spec fn route_table() -> Seq<RouteView> {
    seq![
        RouteView { method: Method::Get, prefix: "/"@, has_param: false, handler: Handler::Root },
        RouteView {
            method: Method::Get,
            prefix: "/health"@,
            has_param: false,
            handler: Handler::Health,
        },
        RouteView {
            method: Method::Post,
            prefix: "/users"@,
            has_param: false,
            handler: Handler::CreateUser,
        },
        RouteView {
            method: Method::Get,
            prefix: "/users"@,
            has_param: false,
            handler: Handler::ListUsers,
        },
        RouteView {
            method: Method::Get,
            prefix: "/users/"@,
            has_param: true,
            handler: Handler::GetUser,
        },
        RouteView {
            method: Method::Put,
            prefix: "/users/"@,
            has_param: true,
            handler: Handler::UpdateUser,
        },
        RouteView {
            method: Method::Delete,
            prefix: "/users/"@,
            has_param: true,
            handler: Handler::DeleteUser,
        },
    ]
}

/// The id segment of a path of the form `/users/` and one non-empty segment.
pub open spec fn user_path_id(path: Seq<char>) -> Option<Seq<char>> {
    if path.len() > 7 && path.subrange(0, 7) == "/users/"@ && !path.subrange(
        7,
        path.len() as int,
    ).contains('/') {
        Some(path.subrange(7, path.len() as int))
    } else {
        None
    }
}

/// What the service's table decides, said directly.
pub open spec fn expected_match(method: Method, path: Seq<char>) -> Option<MatchedView> {
    if path == "/"@ {
        if method == Method::Get {
            Some(MatchedView { handler: Handler::Root, param: None })
        } else {
            None
        }
    } else if path == "/health"@ {
        if method == Method::Get {
            Some(MatchedView { handler: Handler::Health, param: None })
        } else {
            None
        }
    } else if path == "/users"@ {
        match method {
            Method::Post => Some(MatchedView { handler: Handler::CreateUser, param: None }),
            Method::Get => Some(MatchedView { handler: Handler::ListUsers, param: None }),
            _ => None,
        }
    } else {
        match user_path_id(path) {
            Some(id) => match method {
                Method::Get => Some(MatchedView { handler: Handler::GetUser, param: Some(id) }),
                Method::Put => Some(MatchedView { handler: Handler::UpdateUser, param: Some(id) }),
                Method::Delete => Some(
                    MatchedView { handler: Handler::DeleteUser, param: Some(id) },
                ),
                _ => None,
            },
            None => None,
        }
    }
}

/// The call a matched handler stands for, given what its parameter parsed to:
/// a handler that takes an id needs one, and is a bad request without.
pub open spec fn call_of(handler: Handler, id: Option<u128>) -> Option<Call> {
    match handler {
        Handler::Root => Some(Call::Root),
        Handler::Health => Some(Call::Health),
        Handler::CreateUser => Some(Call::CreateUser),
        Handler::ListUsers => Some(Call::ListUsers),
        Handler::GetUser => match id {
            Some(id) => Some(Call::GetUser(id)),
            None => None,
        },
        Handler::UpdateUser => match id {
            Some(id) => Some(Call::UpdateUser(id)),
            None => None,
        },
        Handler::DeleteUser => match id {
            Some(id) => Some(Call::DeleteUser(id)),
            None => None,
        },
    }
}

/// The id that a matched route's parameter parses to, if it has a parameter
/// and that is the text of a UUID.
pub open spec fn parsed_param(param: Option<Seq<char>>) -> Option<u128> {
    match param {
        Some(text) => uuid_parse(text),
        None => None,
    }
}

/// Whether an outcome of binding says what `call_of` says: the call, or a
/// `BadRequest` that names the id as the fault.
pub open spec fn binds_to(outcome: Result<Call, AppError>, expected: Option<Call>) -> bool {
    match expected {
        Some(call) => outcome == Ok::<Call, AppError>(call),
        None => outcome is Err && outcome->Err_0 is BadRequest
            && outcome->Err_0->BadRequest_0@ == "Invalid user id"@,
    }
}

fn has_slash(text: &str) -> (found: bool)
    ensures
        found == text@.contains('/'),
{
    let n = text.unicode_len();
    let mut i: usize = 0;
    while i < n
        invariant
            n == text@.len(),
            i <= n,
            forall|k: int| 0 <= k < i ==> text@[k] != '/',
        decreases n - i,
    {
        if text.get_char(i) == '/' {
            return true;
        }
        i += 1;
    }
    false
}

impl Route {
    /// Fits a path to this route's pattern.
    pub fn fit(&self, path: &str) -> (found: Option<Option<String>>)
        ensures
            match found {
                Some(Some(p)) => pattern_fit(self@, path@) == Some(Some(p@)),
                Some(None) => pattern_fit(self@, path@) == Some(None::<Seq<char>>),
                None => pattern_fit(self@, path@) is None,
            },
    {
        if !self.has_param {
            if String::from_str(path) == self.prefix {
                Some(None)
            } else {
                None
            }
        } else {
            let n = path.unicode_len();
            let p = self.prefix.as_str().unicode_len();
            if n > p {
                let head = path.substring_char(0, p);
                let rest = path.substring_char(p, n);
                if String::from_str(head) == self.prefix && !has_slash(rest) {
                    Some(Some(String::from_str(rest)))
                } else {
                    None
                }
            } else {
                None
            }
        }
    }
}

/// The table of routes.
pub struct Router {
    routes: Vec<Route>,
}

impl View for Router {
    type V = Seq<RouteView>;

    closed spec fn view(&self) -> Seq<RouteView> {
        routes_view(self.routes@)
    }
}

/// Binds a matched handler to its call, given what its parameter parsed to.
pub fn bind(handler: Handler, id: Option<u128>) -> (outcome: Result<Call, AppError>)
    ensures
        binds_to(outcome, call_of(handler, id)),
{
    match handler {
        Handler::Root => Ok(Call::Root),
        Handler::Health => Ok(Call::Health),
        Handler::CreateUser => Ok(Call::CreateUser),
        Handler::ListUsers => Ok(Call::ListUsers),
        Handler::GetUser => match id {
            Some(id) => Ok(Call::GetUser(id)),
            None => Err(AppError::BadRequest(String::from_str("Invalid user id"))),
        },
        Handler::UpdateUser => match id {
            Some(id) => Ok(Call::UpdateUser(id)),
            None => Err(AppError::BadRequest(String::from_str("Invalid user id"))),
        },
        Handler::DeleteUser => match id {
            Some(id) => Ok(Call::DeleteUser(id)),
            None => Err(AppError::BadRequest(String::from_str("Invalid user id"))),
        },
    }
}

impl Router {
    /// The first route of the table that fits the method and path, if any.
    pub fn resolve(&self, method: Method, path: &str) -> (found: Option<Matched>)
        ensures
            matched_view(found) == resolve_from(self@, method, path@, 0),
    {
        let mut i: usize = 0;
        while i < self.routes.len()
            invariant
                i <= self.routes.len(),
                self@.len() == self.routes.len(),
                resolve_from(self@, method, path@, 0) == resolve_from(self@, method, path@, i as int),
            decreases self.routes.len() - i,
        {
            let route = &self.routes[i];
            assert(self@[i as int] == route@);
            if route.method == method {
                match route.fit(path) {
                    Some(param) => {
                        return Some(Matched { handler: route.handler, param });
                    },
                    None => {},
                }
            }
            i += 1;
        }
        None
    }

    /// Routes a request: `None` where no route fits; else the call it stands
    /// for, or `BadRequest` where the route takes an id and the segment is not
    /// the text of a UUID.
    pub fn dispatch(&self, method: Method, path: &str) -> (outcome: Option<Result<Call, AppError>>)
        ensures
            match resolve_from(self@, method, path@, 0) {
                Some(m) => outcome is Some && binds_to(
                    outcome->Some_0,
                    call_of(m.handler, parsed_param(m.param)),
                ),
                None => outcome is None,
            },
    {
        match self.resolve(method, path) {
            Some(m) => {
                let id = match &m.param {
                    Some(text) => parse_uuid(text.as_str()),
                    None => None,
                };
                Some(bind(m.handler, id))
            },
            None => None,
        }
    }
}

/// The service's table decides as `expected_match` says: each method and
/// path lead to the one handler listed for them, with the id segment as the
/// parameter, and every other pair leads nowhere.
pub proof fn lemma_table_decides(method: Method, path: Seq<char>)
    ensures
        resolve_from(route_table(), method, path, 0) == expected_match(method, path),
{
    reveal_strlit("/");
    reveal_strlit("/health");
    reveal_strlit("/users");
    reveal_strlit("/users/");
    reveal_with_fuel(resolve_from, 8);
    let table = route_table();
    assert(table.len() == 7);
    if path == "/"@ || path == "/health"@ || path == "/users"@ {
        assert(pattern_fit(table[4], path) is None);
        assert(pattern_fit(table[5], path) is None);
        assert(pattern_fit(table[6], path) is None);
    }
}

/// Builds the service's table of routes.
pub fn create_router() -> (router: Router)
    ensures
        router@ == route_table(),
{
    let mut routes: Vec<Route> = Vec::new();
    routes.push(
        Route {
            method: Method::Get,
            prefix: String::from_str("/"),
            has_param: false,
            handler: Handler::Root,
        },
    );
    routes.push(
        Route {
            method: Method::Get,
            prefix: String::from_str("/health"),
            has_param: false,
            handler: Handler::Health,
        },
    );
    routes.push(
        Route {
            method: Method::Post,
            prefix: String::from_str("/users"),
            has_param: false,
            handler: Handler::CreateUser,
        },
    );
    routes.push(
        Route {
            method: Method::Get,
            prefix: String::from_str("/users"),
            has_param: false,
            handler: Handler::ListUsers,
        },
    );
    routes.push(
        Route {
            method: Method::Get,
            prefix: String::from_str("/users/"),
            has_param: true,
            handler: Handler::GetUser,
        },
    );
    routes.push(
        Route {
            method: Method::Put,
            prefix: String::from_str("/users/"),
            has_param: true,
            handler: Handler::UpdateUser,
        },
    );
    routes.push(
        Route {
            method: Method::Delete,
            prefix: String::from_str("/users/"),
            has_param: true,
            handler: Handler::DeleteUser,
        },
    );
    let router = Router { routes };
    assert(router@ =~= route_table());
    router
}

/// Routes a request by the service's table: to the one call listed for its
/// method and path, to `BadRequest` where the id segment is not the text of a
/// UUID, and nowhere (`None`) for every other method and path.
pub fn route(method: Method, path: &str) -> (outcome: Option<Result<Call, AppError>>)
    ensures
        match expected_match(method, path@) {
            Some(m) => outcome is Some && binds_to(
                outcome->Some_0,
                call_of(m.handler, parsed_param(m.param)),
            ),
            None => outcome is None,
        },
{
    let router = create_router();
    proof {
        lemma_table_decides(method, path@);
    }
    router.dispatch(method, path)
}

} // verus!
