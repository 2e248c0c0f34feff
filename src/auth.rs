//! Request authentication: a token checker, the middleware that asks it, and
//! the records handed to the account routes.
use std::marker::PhantomData;
use std::rc::Rc;

use vstd::prelude::*;

verus! {

/// Finds the user a request token belongs to.
pub trait TokenChecker<T> {
    /// The verified user data for `request_token`, or `None` when the token
    /// is not valid and the request is to be answered with 401 Unauthorized.
    fn get_user_id(&self, request_token: &str) -> Option<T>;
}

/// The middleware factory: holds the token checker.
pub struct TokenAuth<F, Type> {
    finder: F,
    phantom_type: PhantomData<Type>,
}

impl<F, Type> TokenAuth<F, Type> where F: TokenChecker<Type> {
    /// The token checker.
    pub closed spec fn finder_view(&self) -> F {
        self.finder
    }

    /// Constructs the middleware factory.
    pub fn new(finder: F) -> (r: Self)
        ensures
            r.finder_view() == finder,
    {
        TokenAuth { finder, phantom_type: PhantomData }
    }

    /// The middleware in front of `service`, asking this factory's checker.
    pub fn middleware<S>(self, service: S) -> (r: TokenAuthMiddleware<S, F, Type>)
        ensures
            r.finder_view() == self.finder_view(),
            *r.service_view() == service,
    {
        TokenAuthMiddleware { service: Rc::new(service), token_finder: self.finder, phantom_type: PhantomData }
    }
}

/// The middleware: lets a request through to the service only with a valid
/// token.
pub struct TokenAuthMiddleware<S, F, Type> {
    service: Rc<S>,
    token_finder: F,
    phantom_type: PhantomData<Type>,
}

impl<S, F, Type> TokenAuthMiddleware<S, F, Type> where F: TokenChecker<Type> {
    /// The token checker.
    pub closed spec fn finder_view(&self) -> F {
        self.token_finder
    }

    /// The wrapped service.
    pub closed spec fn service_view(&self) -> Rc<S> {
        self.service
    }

    /// The wrapped service.
    pub fn service(&self) -> (r: &S)
        ensures
            *r == *self.service_view(),
    {
        &*self.service
    }

    /// The user data to attach to a request with the given authorization
    /// header: a request without one is refused without asking the checker,
    /// and one with a token gets what the checker finds.
    pub fn authorize(&self, token: Option<&str>) -> (r: Option<Type>)
        ensures
            token is None ==> r is None,
    {
        match token {
            Some(t) => self.token_finder.get_user_id(t),
            None => None,
        }
    }
}

/// What the profile route answers with.
#[derive(Clone, Debug)]
pub struct UserProfile {
    pub username: String,
    pub email: String,
}

/// The body of a request for a verification email.
#[derive(Debug)]
pub struct VerificationUserInfo {
    pub email: String,
}

/// The user data a valid token yields.
#[derive(Clone, Debug)]
pub struct AuthResult {
    pub user_id: u32,
    pub permissions: Vec<String>,
}

} // verus!
