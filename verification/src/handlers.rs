//! The decisions of the HTTP handlers and of the timer actor: what each
//! answers, given what it was asked.
use vstd::prelude::*;
use vstd::string::*;

verus! {

/// A response that is known at once.
#[derive(Clone, Debug, PartialEq, Eq)]
pub struct Page {
    /// HTTP status code.
    pub status: u16,
    /// Value of the `Content-Type` header, if one is set.
    pub content_type: Option<String>,
    /// The body.
    pub body: String,
}

/// What a handler answers: a response now, or one that arrives later
/// through a one-shot channel.
#[derive(Clone, Debug, PartialEq, Eq)]
pub enum Reply {
    Now(Page),
    Later,
}

/// The status code of a bad request.
pub const BAD_REQUEST: u16 = 400;

/// The status code of a successful request.
pub const OK: u16 = 200;

/// A page with status `status`, no content type and body `body`.
pub open spec fn plain_page(p: Page, status: u16, body: Seq<char>) -> bool {
    &&& p.status == status
    &&& p.content_type is None
    &&& p.body@ == body
}

/// A page with status 200, content type `text/html` and body `body`.
pub open spec fn html_page(p: Page, body: Seq<char>) -> bool {
    &&& p.status == OK
    &&& p.content_type matches Some(t) && t@ == "text/html"@
    &&& p.body@ == body
}

/// The text a greeting is made of: `Hello `, the name (`World` where none
/// is given) and `!`.
pub open spec fn greeting_text(name: Option<Seq<char>>) -> Seq<char> {
    "Hello "@ + (match name {
        Some(n) => n,
        None => "World"@,
    }) + "!"@
}

/// Greets the name taken from the request path, or the world.
pub fn greeting(name: Option<&str>) -> (r: String)
    ensures
        r@ == greeting_text(match name {
            Some(n) => Some(n@),
            None => None::<Seq<char>>,
        }),
        name matches Some(n) ==> r@ == "Hello "@ + n@ + "!"@,
        name is None ==> r@ == "Hello World!"@,
{
    let to: &str = match name {
        Some(n) => n,
        None => "World",
    };
    let mut r = String::from_str("Hello ");
    r.append(to);
    r.append("!");
    proof {
        reveal_strlit("Hello ");
        reveal_strlit("World");
        reveal_strlit("!");
        reveal_strlit("Hello World!");
        assert("Hello "@ + "World"@ + "!"@ =~= "Hello World!"@);
    }
    r
}

/// Whatever name is given, the greeting is `Hello `, that name unchanged and
/// `!`; two greetings are equal only for equal names. `World` is greeted
/// only when no name is given.
pub proof fn law_greeting_echoes_name(a: &str, b: &str, ra: String, rb: String, rn: String)
    requires
        call_ensures(greeting, (Some(a),), ra),
        call_ensures(greeting, (Some(b),), rb),
        call_ensures(greeting, (None::<&str>,), rn),
    ensures
        ra@ == "Hello "@ + a@ + "!"@,
        ra@.len() == a@.len() + 7,
        ra@.subrange(6, 6 + a@.len() as int) == a@,
        ra@ == rb@ <==> a@ == b@,
        rn@ == "Hello World!"@,
{
    reveal_strlit("Hello ");
    reveal_strlit("!");
    assert(ra@.subrange(6, 6 + a@.len() as int) =~= a@);
    assert(rb@ == "Hello "@ + b@ + "!"@);
    assert(rb@.len() == b@.len() + 7);
    if ra@ == rb@ {
        assert(rb@.subrange(6, 6 + b@.len() as int) =~= b@);
        assert(a@.len() == b@.len());
        assert(a@ =~= b@);
    }
}

fn bad_request(body: &str) -> (p: Page)
    ensures
        plain_page(p, BAD_REQUEST, body@),
{
    Page { status: BAD_REQUEST, content_type: None, body: String::from_str(body) }
}

fn html_hello() -> (p: Page)
    ensures
        html_page(p, "Hello!"@),
{
    proof {
        reveal_strlit("text/html");
    }
    Page {
        status: OK,
        content_type: Some(String::from_str("text/html")),
        body: String::from_str("Hello!"),
    }
}

/// Whether the JVM handler's result arrives later. It never does yet.
pub fn is_async_result() -> (r: bool)
    ensures
        !r,
{
    false
}

/// What the JVM-backed handler answers: where the result arrives later it
/// waits for it, otherwise it refuses the request with `Bad data`.
pub fn java_handler_reply(async_result: bool) -> (r: Reply)
    ensures
        async_result ==> r is Later,
        !async_result ==> (r matches Reply::Now(p) && plain_page(p, BAD_REQUEST, "Bad data"@)),
{
    if !async_result {
        Reply::Now(bad_request("Bad data"))
    } else {
        Reply::Later
    }
}

/// Whether the sample handler fails. It always does.
pub fn is_error() -> (r: bool)
    ensures
        r,
{
    true
}

/// What the sample handler answers: a bad request with `bad request` when
/// it fails, else an HTML page `Hello!`.
pub fn error_handler_reply(error: bool) -> (r: Result<Page, Page>)
    ensures
        error ==> (r matches Err(p) && plain_page(p, BAD_REQUEST, "bad request"@)),
        !error ==> (r matches Ok(p) && html_page(p, "Hello!"@)),
{
    if error {
        Err(bad_request("bad request"))
    } else {
        Ok(html_hello())
    }
}

/// Whether the two-way handler answers at once. It always does.
pub fn is_a_variant() -> (r: bool)
    ensures
        r,
{
    true
}

/// What the two-way handler answers: at once a bad request with
/// `Bad data`, or later, through the channel, an HTML page `Hello!`.
pub fn either_handler_reply(a_variant: bool) -> (r: Reply)
    ensures
        a_variant ==> (r matches Reply::Now(p) && plain_page(p, BAD_REQUEST, "Bad data"@)),
        !a_variant ==> r is Later,
{
    if a_variant {
        Reply::Now(bad_request("Bad data"))
    } else {
        Reply::Later
    }
}

/// The page sent through the channel of the two-way handler.
pub fn either_handler_later_page() -> (p: Page)
    ensures
        html_page(p, "Hello!"@),
{
    html_hello()
}

/// The times, in seconds after it starts, at which the timer actor pings
/// itself: at once, and again one second later.
pub fn timer_ping_delays() -> (r: Vec<u64>)
    ensures
        r@ == seq![0u64, 1u64],
{
    let mut r: Vec<u64> = Vec::new();
    r.push(0);
    r.push(1);
    assert(r@ =~= seq![0u64, 1u64]);
    r
}

/// Messages the timer actor understands.
#[derive(Clone, Copy, PartialEq, Eq, Debug)]
pub enum Messages {
    Ping,
    Pong,
}

/// The timer actor's answers.
#[derive(Clone, Copy, PartialEq, Eq, Debug)]
pub enum Responses {
    GotPing,
    GotPong,
}

/// The answer the timer actor gives to a message: each message is
/// acknowledged by its own kind.
pub open spec fn spec_reply_to(msg: Messages) -> Responses {
    match msg {
        Messages::Ping => Responses::GotPing,
        Messages::Pong => Responses::GotPong,
    }
}

/// Answers a message sent to the timer actor.
pub fn reply_to(msg: Messages) -> (r: Responses)
    ensures
        r == spec_reply_to(msg),
{
    match msg {
        Messages::Ping => Responses::GotPing,
        Messages::Pong => Responses::GotPong,
    }
}

/// Different messages get different answers: the answer tells which
/// message was received.
pub proof fn lemma_reply_identifies_message(a: Messages, b: Messages)
    ensures
        spec_reply_to(a) == spec_reply_to(b) <==> a == b,
{
}

} // verus!
