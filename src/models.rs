//! The data that handlers receive and return.

use vstd::prelude::*;

verus! {

/// std's `Mutex`, carried opaque in the shared state; the library only holds
/// it, and assumes nothing of it.
#[verifier::external_type_specification]
#[verifier::external_body]
#[verifier::reject_recursive_types(T)]
pub struct ExMutex<T: ?Sized>(std::sync::Mutex<T>);

/// State shared by every request: the application's name.
pub struct AppState {
    pub app_name: String,
}

/// A hit counter shared by every request. The lock is held only while the
/// counter is bumped and read.
pub struct AppStateWithCounter {
    pub counter: std::sync::Mutex<i32>,
}

/// A user's id and name, as taken from a request path.
#[derive(Debug, Clone, PartialEq, Eq)]
pub struct UserInfo {
    pub user_id: u32,
    pub name: String,
}

/// A search: the query, and the language if one was given.
#[derive(Debug, Clone, PartialEq, Eq)]
pub struct SearchQuery {
    pub q: String,
    pub lang: Option<String>,
}

/// A user's name and e-mail address, as sent in a JSON body.
#[derive(Debug, Clone, PartialEq, Eq)]
pub struct UserIput {
    pub username: String,
    pub email: String,
}

/// A login form.
#[derive(Debug, Clone, PartialEq, Eq)]
pub struct LoginInfo {
    pub username: String,
    pub password: String,
}

/// A user's name and age, sent back as JSON.
#[derive(Debug, Clone, PartialEq, Eq)]
pub struct MyStruct {
    pub name: String,
    pub age: u32,
}

} // verus!
