//! What each endpoint answers, computed from the values the HTTP layer has
//! already extracted from the request.

use vstd::prelude::*;
use vstd::string::*;
use crate::errors::{
    plain_content_type, MyError, MyNewError, MySimpleError,
    ResponseDescriptor, UserError, UserFacingError,
};
use crate::models::{AppState, LoginInfo, MyStruct, SearchQuery, UserInfo, UserIput};
use crate::text::{decimal, push_decimal, push_signed_decimal, signed_decimal};
use crate::utils::do_thing_that_may_fail;

verus! {

/// Relies on rand's `Rng::gen_ratio` on the thread-local generator: true
/// with a chance of `numerator` in `denominator`, always true when the two
/// are equal and always false when `numerator` is 0. It panics when
/// `denominator` is 0 or smaller than `numerator`.
#[verifier::external_body]
fn chance(numerator: u32, denominator: u32) -> (r: bool)
    requires
        0 < denominator,
        numerator <= denominator,
    ensures
        numerator == 0 ==> !r,
        numerator == denominator ==> r,
{
    rand::Rng::gen_ratio(&mut rand::thread_rng(), numerator, denominator)
}

/// The greeting of the site's root.
pub fn first_hello() -> (r: String)
    ensures
        r@ == "hello actix-web"@,
{
    String::from_str("hello actix-web")
}

/// Echoes a request body back behind a fixed prefix.
pub fn echo(req_body: &str) -> (r: String)
    ensures
        r@ == "test "@ + req_body@,
{
    String::from_str("test ").concat(req_body)
}

pub fn manual_hello() -> (r: String)
    ensures
        r@ == "hello there"@,
{
    String::from_str("hello there")
}

/// Greets on behalf of the application named in the shared state.
pub fn index2(data: &AppState) -> (r: String)
    ensures
        r@ == "Hello from "@ + data.app_name@ + "!"@,
{
    String::from_str("Hello from ").concat(data.app_name.as_str()).concat("!")
}

pub fn index() -> (r: String)
    ensures
        r@ == "hello from index"@,
{
    String::from_str("hello from index")
}

/// Counts one more hit and reports the new count.
pub fn index3(counter: &mut i32) -> (r: String)
    requires
        *old(counter) < i32::MAX,
    ensures
        *final(counter) == *old(counter) + 1,
        r@ == "Hello from index3! Counter: "@ + signed_decimal(*final(counter) as int),
{
    *counter = *counter + 1;
    let mut s = String::from_str("Hello from index3! Counter: ");
    push_signed_decimal(&mut s, *counter);
    s
}

/// The text that reports a user's id and name taken from a path.
pub open spec fn path_greeting(user_id: u32, name: Seq<char>) -> Seq<char> {
    "Hello from Path_test! User ID: "@ + decimal(user_id as nat) + ", Name: "@ + name
}

/// Reports the user id and name taken from a path.
pub fn path_test(user_id: u32, name: &str) -> (r: String)
    ensures
        r@ == path_greeting(user_id, name@),
{
    let mut s = String::from_str("Hello from Path_test! User ID: ");
    push_decimal(&mut s, user_id as u64);
    s.append(", Name: ");
    s.append(name);
    s
}

/// Reports the user id and name taken from a path, read into a struct.
pub fn path_test_by_struct(path: &UserInfo) -> (r: String)
    ensures
        r@ == path_greeting(path.user_id, path.name@),
{
    path_test(path.user_id, path.name.as_str())
}

/// Reports a search query, and its language when one was given.
pub fn query_test(query: &SearchQuery) -> (r: String)
    ensures
        query.lang matches Some(lang) ==> r@ == "Hello from query_test! Query: "@ + query.q@
            + ", lang: "@ + lang@,
        query.lang is None ==> r@ == "Hello from query_test! Query: "@ + query.q@,
{
    let s = String::from_str("Hello from query_test! Query: ").concat(query.q.as_str());
    match &query.lang {
        Some(lang) => s.concat(", lang: ").concat(lang.as_str()),
        None => s,
    }
}

/// Reports the user name and e-mail address of a JSON body.
pub fn json_test(user: &UserIput) -> (r: String)
    ensures
        r@ == "Hello from json_test! Username: "@ + user.username@ + ", Email: "@ + user.email@,
{
    String::from_str("Hello from json_test! Username: ").concat(user.username.as_str()).concat(
        ", Email: ",
    ).concat(user.email.as_str())
}

/// Reports the fields of a login form.
pub fn login(form: &LoginInfo) -> (r: String)
    ensures
        r@ == "Hello from login! Username: "@ + form.username@ + ", Password: "@
            + form.password@,
{
    String::from_str("Hello from login! Username: ").concat(form.username.as_str()).concat(
        ", Password: ",
    ).concat(form.password.as_str())
}

/// `s` is the sample user sent back as JSON.
pub open spec fn is_sample_user(s: MyStruct) -> bool {
    s.name@ == "Kayano"@ && s.age == 18
}

/// The sample user.
pub fn my_struct_test() -> (r: MyStruct)
    ensures
        is_sample_user(r),
{
    MyStruct { name: String::from_str("Kayano"), age: 18 }
}

/// The answer of an operation that succeeds or fails at random.
#[derive(Debug, Clone, PartialEq, Eq)]
pub enum ProcessResult {
    /// The sample user.
    Success(MyStruct),
    /// A bare server error.
    Failure(ResponseDescriptor),
}

/// `r` is the answer for the given outcome of the operation.
pub open spec fn answers(r: ProcessResult, success: bool) -> bool {
    if success {
        r matches ProcessResult::Success(s) && is_sample_user(s)
    } else {
        r matches ProcessResult::Failure(d) && d.status == 500 && d.content_type@
            == plain_content_type() && d.body@ == "error"@
    }
}

/// The answer for a given outcome of the operation.
pub fn process_outcome(success: bool) -> (r: ProcessResult)
    ensures
        answers(r, success),
{
    if success {
        ProcessResult::Success(my_struct_test())
    } else {
        ProcessResult::Failure(
            ResponseDescriptor {
                status: 500,
                content_type: String::from_str("text/plain; charset=utf-8"),
                body: String::from_str("error"),
            },
        )
    }
}

/// Runs an operation that succeeds seven times in ten, and answers for it.
pub fn process_data() -> (r: ProcessResult)
    ensures
        answers(r, true) || answers(r, false),
{
    let success = chance(7, 10);
    process_outcome(success)
}

/// Always fails with a plain error.
pub fn index_by_my_error() -> (r: Result<&'static str, MyError>)
    ensures
        r matches Err(e) && e.name@ == "测试错误"@,
{
    Err(MyError { name: "测试错误" })
}

pub fn index_by_my_new_error_internal() -> (r: Result<&'static str, MyNewError>)
    ensures
        r == Err::<&'static str, MyNewError>(MyNewError::InternalError),
{
    Err(MyNewError::InternalError)
}

pub fn index_by_my_new_error_timeout() -> (r: Result<&'static str, MyNewError>)
    ensures
        r == Err::<&'static str, MyNewError>(MyNewError::Timeout),
{
    Err(MyNewError::Timeout)
}

pub fn index_by_my_new_error_bad_client_data() -> (r: Result<&'static str, MyNewError>)
    ensures
        r == Err::<&'static str, MyNewError>(MyNewError::BadClientData),
{
    Err(MyNewError::BadClientData)
}

/// Fails with an error of its own that it turns into a "bad request"
/// response carrying the error's message as plain text.
pub fn index_by_simple_error() -> (r: Result<String, ResponseDescriptor>)
    ensures
        r matches Err(d) && d.status == 400 && d.content_type@ == plain_content_type() && d.body@
            == "测试错误"@,
{
    let result: Result<String, MySimpleError> = Err(MySimpleError { name: "测试错误" });
    match result {
        Ok(s) => Ok(s),
        Err(err) => Err(
            ResponseDescriptor {
                status: 400,
                content_type: String::from_str("text/plain; charset=utf-8"),
                body: String::from_str(err.name),
            },
        ),
    }
}

/// Whether `c` occurs in `s`.
fn has_char(s: &str, c: char) -> (r: bool)
    ensures
        r == s@.contains(c),
{
    let n = s.unicode_len();
    let mut i: usize = 0;
    while i < n
        invariant
            n == s@.len(),
            i <= n,
            forall|j: int| 0 <= j < i ==> s@[j] != c,
        decreases n - i,
    {
        if s.get_char(i) == c {
            return true;
        }
        i = i + 1;
    }
    false
}

/// Checks an e-mail address: it must hold an `@`; if not, the `email` field
/// failed validation.
pub fn validate_email(user_input: &str) -> (r: Result<&'static str, UserError>)
    ensures
        user_input@.contains('@') <==> r is Ok,
        r matches Ok(m) ==> m@ == "处理成功"@,
        r matches Err(e) ==> e.spec_field() == "email"@,
{
    if !has_char(user_input, '@') {
        return Err(UserError::ValidationError { field: String::from_str("email") });
    }
    Ok("处理成功")
}

/// Validates a fixed input that lacks an `@`, so it fails on the `email`
/// field.
pub fn process_form() -> (r: Result<&'static str, UserError>)
    ensures
        r matches Err(e) && e.spec_field() == "email"@,
{
    let user_input = "invalid_email";
    proof {
        reveal_strlit("invalid_email");
        assert(!user_input@.contains('@'));
    }
    validate_email(user_input)
}

/// Runs the failing database call and launders its fault into the
/// user-facing error, which keeps nothing of it.
pub fn index_by_user_facing_error() -> (r: Result<&'static str, UserFacingError>)
    ensures
        r == Err::<&'static str, UserFacingError>(UserFacingError::InternalError),
{
    match do_thing_that_may_fail() {
        Ok(()) => Ok("处理成功"),
        Err(e) => Err(UserFacingError::from(e)),
    }
}

pub fn index_resource() -> (r: String)
    ensures
        r@ == "index resource"@,
{
    String::from_str("index resource")
}

/// Greets the name matched in the path, or the world when there is none.
pub fn get_user(name: Option<&str>) -> (r: String)
    ensures
        name matches Some(n) ==> r@ == "Hello "@ + n@ + "!"@,
        name is None ==> r@ == "Hello World!"@,
{
    match name {
        Some(n) => String::from_str("Hello ").concat(n).concat("!"),
        None => String::from_str("Hello World!"),
    }
}

/// Answers an update of the user named in the path as [`get_user`] does.
pub fn updata_user(name: Option<&str>) -> (r: String)
    ensures
        name matches Some(n) ==> r@ == "Hello "@ + n@ + "!"@,
        name is None ==> r@ == "Hello World!"@,
{
    get_user(name)
}

} // verus!
