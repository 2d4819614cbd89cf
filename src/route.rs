use vstd::prelude::*;

verus! {

/// The port the server listens on, on every interface.
pub const BIND_PORT: u16 = 8080;

/// An HTTP method that a route answers.
#[derive(Clone, Copy, Debug, PartialEq, Eq)]
pub enum Method {
    Get,
    Post,
}

/// The routes of the service.
#[derive(Clone, Copy, Debug, PartialEq, Eq)]
pub enum Route {
    /// The greeting `Hello world!`.
    Hello,
    /// The greeting `Hey there!`.
    Hey,
    /// The echo of the request body.
    Echo,
    /// The insert of one user.
    CreateUser,
}

impl Route {
    /// The path at which the route is served.
    pub open spec fn spec_path(self) -> Seq<char> {
        match self {
            Route::Hello => "/"@,
            Route::Hey => "/hey"@,
            Route::Echo => "/echo"@,
            Route::CreateUser => "/user"@,
        }
    }

    /// The method that the route answers.
    pub open spec fn spec_method(self) -> Method {
        match self {
            Route::Hello | Route::Hey => Method::Get,
            Route::Echo | Route::CreateUser => Method::Post,
        }
    }

    pub fn path(&self) -> (r: &'static str)
        ensures
            r@ == self.spec_path(),
    {
        match self {
            Route::Hello => "/",
            Route::Hey => "/hey",
            Route::Echo => "/echo",
            Route::CreateUser => "/user",
        }
    }

    pub fn method(&self) -> (r: Method)
        ensures
            r == self.spec_method(),
    {
        match self {
            Route::Hello | Route::Hey => Method::Get,
            Route::Echo | Route::CreateUser => Method::Post,
        }
    }
}

/// No two routes share a method and a path.
pub proof fn lemma_routes_distinct(a: Route, b: Route)
    requires
        a != b,
    ensures
        a.spec_method() != b.spec_method() || a.spec_path() != b.spec_path(),
{
    reveal_strlit("/");
    reveal_strlit("/hey");
    reveal_strlit("/echo");
    reveal_strlit("/user");
    assert("/"@.len() != "/hey"@.len());
    assert("/echo"@[1] != "/user"@[1]);
}

} // verus!
