//! The failure classifier.
//!
//! Request handling can leave several independent failure signals on one
//! failed request. The classifier runs once, after all processing for the
//! request has ended, probes the attached signals in a fixed priority
//! order, and produces exactly one response together with the one
//! diagnostic event to emit for it. It can never itself fail: an
//! unrecognized or empty signal set falls through to the unmatched-route
//! response.

use vstd::prelude::*;
use vstd::string::StringExecFns;
use crate::digits::ParseFailure;
use crate::digits::parse_u32;
use crate::digits::parse_u32_spec;
use crate::taxonomy::DbFailure;
use crate::taxonomy::Error;
use crate::taxonomy::api_layer_error_text;
use crate::taxonomy::error_text;

verus! {

/// The driver code the relational store reports for a violated
/// uniqueness constraint.
pub const DUPLICATE_KEY: u32 = 23505;

/// One failure signal attached to a failed request. Independent stages
/// of the pipeline may each attach one, so a request can carry several.
#[derive(Clone, Debug, PartialEq, Eq)]
pub enum Signal {
    /// A domain failure from the taxonomy.
    Kind(Error),
    /// The framework could not deserialize the request body; carries the
    /// parser's literal message.
    BodyDeserialize(String),
    /// The framework rejected the request under the CORS policy; carries
    /// the policy engine's literal message.
    CorsForbidden(String),
}

/// The dispatch category a signal falls under. The category's fixed
/// priority, not the order of attachment, decides which signal answers.
#[derive(Clone, Copy, Debug, PartialEq, Eq, Structural)]
pub enum Category {
    Database,
    Transport,
    Unauthorized,
    WrongPassword,
    Middleware,
    UpstreamClient,
    UpstreamServer,
    MalformedBody,
    OtherKind,
    Cors,
}

/// The category of a signal.
pub open spec fn category(s: Signal) -> Category {
    match s {
        Signal::Kind(Error::DatabaseQueryError(_)) => Category::Database,
        Signal::Kind(Error::ReqwestAPIError(_)) => Category::Transport,
        Signal::Kind(Error::Unauthorized) => Category::Unauthorized,
        Signal::Kind(Error::WrongPassword) => Category::WrongPassword,
        Signal::Kind(Error::MiddlewareReqwestError(_)) => Category::Middleware,
        Signal::Kind(Error::ClientError(_)) => Category::UpstreamClient,
        Signal::Kind(Error::ServerError(_)) => Category::UpstreamServer,
        Signal::BodyDeserialize(_) => Category::MalformedBody,
        Signal::Kind(_) => Category::OtherKind,
        Signal::CorsForbidden(_) => Category::Cors,
    }
}

/// The fixed dispatch priority of a category; a lower rank answers
/// first. This ordering is part of the compatibility surface.
pub open spec fn rank(c: Category) -> int {
    match c {
        Category::Database => 0,
        Category::Transport => 1,
        Category::Unauthorized => 2,
        Category::WrongPassword => 3,
        Category::Middleware => 4,
        Category::UpstreamClient => 5,
        Category::UpstreamServer => 6,
        Category::MalformedBody => 7,
        Category::OtherKind => 8,
        Category::Cors => 9,
    }
}

/// The signal that answers the request: the earliest-attached signal of
/// the highest-priority category present.
pub open spec fn selected(s: Seq<Signal>) -> Option<Signal>
    decreases s.len(),
{
    if s.len() == 0 {
        Option::None
    } else {
        match selected(s.drop_first()) {
            Option::None => Option::Some(s[0]),
            Option::Some(b) => if rank(category(s[0])) <= rank(category(b)) {
                Option::Some(s[0])
            } else {
                Option::Some(b)
            },
        }
    }
}

/// Severity of the one diagnostic event a classification emits.
#[derive(Clone, Copy, Debug, PartialEq, Eq, Structural)]
pub enum LogLevel {
    Error,
    Warn,
}

/// What one classification decides, as mathematical values: the response
/// the client sees and the diagnostic event the operator sees.
pub ghost struct Classification {
    pub status: int,
    pub body: Seq<char>,
    pub level: LogLevel,
    pub log: Seq<char>,
}

/// Whether a data-layer failure is the store's duplicate-key constraint
/// violation: its driver code is present and denotes `DUPLICATE_KEY`.
pub open spec fn is_duplicate_key(db: DbFailure) -> bool {
    match db.code {
        Option::Some(c) => parse_u32_spec(c@) == Result::<u32, ParseFailure>::Ok(DUPLICATE_KEY),
        Option::None => false,
    }
}

/// The response and log event owed to one selected signal. The body for
/// database and external failures is a fixed literal; the carried error
/// text goes to the log line only.
pub open spec fn respond(sig: Signal) -> Classification {
    match sig {
        Signal::Kind(Error::DatabaseQueryError(db)) => Classification {
            status: 422,
            body: if is_duplicate_key(db) {
                "Account already exists"@
            } else {
                "Cannot update data"@
            },
            level: LogLevel::Error,
            log: "Database query error: "@ + db.detail@,
        },
        Signal::Kind(Error::ReqwestAPIError(d)) => Classification {
            status: 500,
            body: "Internal Server Error"@,
            level: LogLevel::Error,
            log: d@,
        },
        Signal::Kind(Error::Unauthorized) => Classification {
            status: 401,
            body: "No permission to changing underlying resource"@,
            level: LogLevel::Error,
            log: "Not matching account id"@,
        },
        Signal::Kind(Error::WrongPassword) => Classification {
            status: 401,
            body: "Wrong E-Mail/Password combination"@,
            level: LogLevel::Error,
            log: "Entered wrong password"@,
        },
        Signal::Kind(Error::MiddlewareReqwestError(d)) => Classification {
            status: 500,
            body: "Internal Server Error"@,
            level: LogLevel::Error,
            log: d@,
        },
        Signal::Kind(Error::ClientError(a)) => Classification {
            status: 500,
            body: "Internal Server Error"@,
            level: LogLevel::Error,
            log: api_layer_error_text(a),
        },
        Signal::Kind(Error::ServerError(a)) => Classification {
            status: 500,
            body: "Internal Server Error"@,
            level: LogLevel::Error,
            log: api_layer_error_text(a),
        },
        Signal::BodyDeserialize(m) => Classification {
            status: 422,
            body: m@,
            level: LogLevel::Error,
            log: "Cannot deserizalize request body: "@ + m@,
        },
        Signal::Kind(e) => Classification {
            status: 416,
            body: error_text(e),
            level: LogLevel::Error,
            log: error_text(e),
        },
        Signal::CorsForbidden(m) => Classification {
            status: 403,
            body: m@,
            level: LogLevel::Error,
            log: "CORS forbidden error: "@ + m@,
        },
    }
}

/// The classification of a failed request's signals: the first category
/// in dispatch order with a signal present answers; with no signal
/// recognized at all, the route is reported unmatched.
pub open spec fn classify(s: Seq<Signal>) -> Classification {
    match selected(s) {
        Option::Some(sig) => respond(sig),
        Option::None => Classification {
            status: 404,
            body: "Route not found"@,
            level: LogLevel::Warn,
            log: "Requested route was not found"@,
        },
    }
}

/// The client-facing half of a classification.
#[derive(Clone, Debug, PartialEq, Eq)]
pub struct Response {
    pub status: u16,
    pub body: String,
}

/// The operator-facing half: the one structured event to emit for a
/// classification, carrying the full internal detail.
#[derive(Clone, Debug, PartialEq, Eq)]
pub struct LogEvent {
    pub level: LogLevel,
    pub message: String,
}

fn rank_of(c: Category) -> (r: u32)
    ensures
        r as int == rank(c),
{
    match c {
        Category::Database => 0,
        Category::Transport => 1,
        Category::Unauthorized => 2,
        Category::WrongPassword => 3,
        Category::Middleware => 4,
        Category::UpstreamClient => 5,
        Category::UpstreamServer => 6,
        Category::MalformedBody => 7,
        Category::OtherKind => 8,
        Category::Cors => 9,
    }
}

fn category_of(s: &Signal) -> (c: Category)
    ensures
        c == category(*s),
{
    match s {
        Signal::Kind(Error::DatabaseQueryError(_)) => Category::Database,
        Signal::Kind(Error::ReqwestAPIError(_)) => Category::Transport,
        Signal::Kind(Error::Unauthorized) => Category::Unauthorized,
        Signal::Kind(Error::WrongPassword) => Category::WrongPassword,
        Signal::Kind(Error::MiddlewareReqwestError(_)) => Category::Middleware,
        Signal::Kind(Error::ClientError(_)) => Category::UpstreamClient,
        Signal::Kind(Error::ServerError(_)) => Category::UpstreamServer,
        Signal::BodyDeserialize(_) => Category::MalformedBody,
        Signal::Kind(_) => Category::OtherKind,
        Signal::CorsForbidden(_) => Category::Cors,
    }
}

fn respond_to(sig: &Signal) -> (r: (Response, LogEvent))
    ensures
        r.0.status as int == respond(*sig).status,
        r.0.body@ == respond(*sig).body,
        r.1.level == respond(*sig).level,
        r.1.message@ == respond(*sig).log,
{
    match sig {
        Signal::Kind(Error::DatabaseQueryError(db)) => {
            let duplicate = match &db.code {
                Option::Some(c) => match parse_u32(c.as_str()) {
                    Ok(v) => v == DUPLICATE_KEY,
                    Err(_) => false,
                },
                Option::None => false,
            };
            let body = if duplicate {
                String::from_str("Account already exists")
            } else {
                String::from_str("Cannot update data")
            };
            let message = String::from_str("Database query error: ").concat(db.detail.as_str());
            (Response { status: 422, body }, LogEvent { level: LogLevel::Error, message })
        },
        Signal::Kind(Error::ReqwestAPIError(d)) => (
            Response { status: 500, body: String::from_str("Internal Server Error") },
            LogEvent { level: LogLevel::Error, message: d.clone() },
        ),
        Signal::Kind(Error::Unauthorized) => (
            Response {
                status: 401,
                body: String::from_str("No permission to changing underlying resource"),
            },
            LogEvent { level: LogLevel::Error, message: String::from_str("Not matching account id") },
        ),
        Signal::Kind(Error::WrongPassword) => (
            Response { status: 401, body: String::from_str("Wrong E-Mail/Password combination") },
            LogEvent { level: LogLevel::Error, message: String::from_str("Entered wrong password") },
        ),
        Signal::Kind(Error::MiddlewareReqwestError(d)) => (
            Response { status: 500, body: String::from_str("Internal Server Error") },
            LogEvent { level: LogLevel::Error, message: d.clone() },
        ),
        Signal::Kind(Error::ClientError(a)) => (
            Response { status: 500, body: String::from_str("Internal Server Error") },
            LogEvent { level: LogLevel::Error, message: a.render() },
        ),
        Signal::Kind(Error::ServerError(a)) => (
            Response { status: 500, body: String::from_str("Internal Server Error") },
            LogEvent { level: LogLevel::Error, message: a.render() },
        ),
        Signal::BodyDeserialize(m) => (
            Response { status: 422, body: m.clone() },
            LogEvent {
                level: LogLevel::Error,
                message: String::from_str("Cannot deserizalize request body: ").concat(m.as_str()),
            },
        ),
        Signal::Kind(e) => {
            let text = e.render();
            (
                Response { status: 416, body: text.clone() },
                LogEvent { level: LogLevel::Error, message: text },
            )
        },
        Signal::CorsForbidden(m) => (
            Response { status: 403, body: m.clone() },
            LogEvent {
                level: LogLevel::Error,
                message: String::from_str("CORS forbidden error: ").concat(m.as_str()),
            },
        ),
    }
}

/// The single recovery point, run once per failed request. It inspects
/// every attached signal, answers for the one whose category comes
/// earliest in the dispatch order, and reports the one diagnostic event
/// to emit. It is total: some response is always produced.
pub fn return_error(signals: &Vec<Signal>) -> (r: (Response, LogEvent))
    ensures
        r.0.status as int == classify(signals@).status,
        r.0.body@ == classify(signals@).body,
        r.1.level == classify(signals@).level,
        r.1.message@ == classify(signals@).log,
{
    let n = signals.len();
    let mut best: Option<usize> = Option::None;
    let mut i: usize = n;
    while i > 0
        invariant
            n == signals@.len(),
            i <= n,
            match best {
                Option::Some(j) => i <= j < n && selected(signals@.skip(i as int))
                    == Option::Some(signals@[j as int]),
                Option::None => selected(signals@.skip(i as int)) == Option::<Signal>::None,
            },
        decreases i,
    {
        i = i - 1;
        proof {
            assert(signals@.skip(i as int).drop_first() =~= signals@.skip(i + 1));
            assert(signals@.skip(i as int)[0] == signals@[i as int]);
        }
        match best {
            Option::None => {
                best = Option::Some(i);
            },
            Option::Some(j) => {
                let ri = rank_of(category_of(&signals[i]));
                let rj = rank_of(category_of(&signals[j]));
                if ri <= rj {
                    best = Option::Some(i);
                }
            },
        }
    }
    proof {
        assert(signals@.skip(0) =~= signals@);
    }
    match best {
        Option::Some(j) => respond_to(&signals[j]),
        Option::None => (
            Response { status: 404, body: String::from_str("Route not found") },
            LogEvent {
                level: LogLevel::Warn,
                message: String::from_str("Requested route was not found"),
            },
        ),
    }
}

/// Whether `needle` occurs contiguously inside `hay`.
pub open spec fn contains_seq(hay: Seq<char>, needle: Seq<char>) -> bool {
    exists|k: int|
        0 <= k && k + needle.len() <= hay.len() && #[trigger] hay.subrange(k, k + needle.len())
            == needle
}

proof fn lemma_concat_contains(prefix: Seq<char>, needle: Seq<char>)
    ensures
        contains_seq(prefix + needle, needle),
{
    let hay = prefix + needle;
    assert(hay.subrange(prefix.len() as int, prefix.len() as int + needle.len() as int)
        =~= needle);
}

/// Law: a single attached signal is always the one that answers.
pub proof fn lemma_single_signal(sig: Signal)
    ensures
        classify(seq![sig]) == respond(sig),
{
    assert(seq![sig].drop_first() =~= Seq::<Signal>::empty());
    assert(selected(seq![sig].drop_first()) == Option::<Signal>::None);
    assert(selected(seq![sig]) == Option::Some(sig));
}

/// Law: with no signal attached at all, the classification is the
/// unmatched-route fallback, logged at warning severity.
pub proof fn lemma_no_signal(s: Seq<Signal>)
    requires
        s.len() == 0,
    ensures
        classify(s).status == 404,
        classify(s).body == "Route not found"@,
        classify(s).level == LogLevel::Warn,
{
}

/// Law: each taxonomy kind fed alone into the classifier yields exactly
/// the status and body the compatibility table owes for it.
pub proof fn lemma_single_kind(e: Error)
    ensures
        ({
            let c = classify(seq![Signal::Kind(e)]);
            match e {
                Error::DatabaseQueryError(db) => c.status == 422 && c.body == (
                if is_duplicate_key(db) {
                    "Account already exists"@
                } else {
                    "Cannot update data"@
                }),
                Error::ReqwestAPIError(_) => c.status == 500 && c.body
                    == "Internal Server Error"@,
                Error::Unauthorized => c.status == 401 && c.body
                    == "No permission to changing underlying resource"@,
                Error::WrongPassword => c.status == 401 && c.body
                    == "Wrong E-Mail/Password combination"@,
                Error::MiddlewareReqwestError(_) => c.status == 500 && c.body
                    == "Internal Server Error"@,
                Error::ClientError(_) => c.status == 500 && c.body == "Internal Server Error"@,
                Error::ServerError(_) => c.status == 500 && c.body == "Internal Server Error"@,
                _ => c.status == 416 && c.body == error_text(e),
            }
        }),
{
    lemma_single_signal(Signal::Kind(e));
}

/// Law: a data-layer failure classifies by its driver code alone, always
/// at 422: the duplicate-key code yields the duplicate-account body, any
/// other or absent code the generic update-failure body.
pub proof fn lemma_database_code(db: DbFailure)
    ensures
        ({
            let c = classify(seq![Signal::Kind(Error::DatabaseQueryError(db))]);
            &&& c.status == 422
            &&& is_duplicate_key(db) ==> c.body == "Account already exists"@
            &&& !is_duplicate_key(db) ==> c.body == "Cannot update data"@
        }),
{
    lemma_single_signal(Signal::Kind(Error::DatabaseQueryError(db)));
}

/// Law: of two simultaneously attached signals, the one whose category
/// comes earlier in the dispatch order answers, whichever order the two
/// were attached in.
pub proof fn lemma_priority(a: Signal, b: Signal)
    requires
        rank(category(a)) < rank(category(b)),
    ensures
        classify(seq![a, b]) == classify(seq![a]),
        classify(seq![b, a]) == classify(seq![a]),
{
    lemma_single_signal(a);
    assert(seq![a].drop_first() =~= Seq::<Signal>::empty());
    assert(seq![b].drop_first() =~= Seq::<Signal>::empty());
    assert(selected(seq![a].drop_first()) == Option::<Signal>::None);
    assert(selected(seq![b].drop_first()) == Option::<Signal>::None);
    assert(selected(seq![a]) == Option::Some(a));
    assert(selected(seq![b]) == Option::Some(b));
    assert(seq![a, b].drop_first() =~= seq![b]);
    assert(seq![b, a].drop_first() =~= seq![a]);
    assert(selected(seq![a, b]) == Option::Some(a));
    assert(selected(seq![b, a]) == Option::Some(a));
}

/// Law (opacity): a data-layer failure answers with one of two fixed
/// literals — never the driver's text — while the log line carries the
/// driver's full text.
pub proof fn lemma_database_opacity(db: DbFailure)
    ensures
        ({
            let c = classify(seq![Signal::Kind(Error::DatabaseQueryError(db))]);
            &&& c.body == "Account already exists"@ || c.body == "Cannot update data"@
            &&& contains_seq(c.log, db.detail@)
        }),
{
    lemma_single_signal(Signal::Kind(Error::DatabaseQueryError(db)));
    lemma_concat_contains("Database query error: "@, db.detail@);
}

/// Law (opacity): transport, middleware and upstream failures all answer
/// with the fixed internal-error literal — never the carried error text
/// or upstream message — while the log line carries that detail in full.
pub proof fn lemma_external_opacity(e: Error)
    requires
        (e matches Error::ReqwestAPIError(_)) || (e matches Error::MiddlewareReqwestError(_)) || (
        e matches Error::ClientError(_)) || (e matches Error::ServerError(_)),
    ensures
        ({
            let c = classify(seq![Signal::Kind(e)]);
            &&& c.body == "Internal Server Error"@
            &&& (e matches Error::ReqwestAPIError(d) ==> c.log == d@)
            &&& (e matches Error::MiddlewareReqwestError(d) ==> c.log == d@)
            &&& (e matches Error::ClientError(a) ==> contains_seq(c.log, a.message@))
            &&& (e matches Error::ServerError(a) ==> contains_seq(c.log, a.message@))
        }),
{
    lemma_single_signal(Signal::Kind(e));
    match e {
        Error::ClientError(a) => lemma_concat_contains(
            "Status: "@ + crate::digits::dec_rep(a.status as int) + ", Message: "@,
            a.message@,
        ),
        Error::ServerError(a) => lemma_concat_contains(
            "Status: "@ + crate::digits::dec_rep(a.status as int) + ", Message: "@,
            a.message@,
        ),
        _ => {},
    }
}

/// Law: the framework-native signals answer with the framework's own
/// literal message: a malformed request body at 422, a CORS rejection
/// at 403.
pub proof fn lemma_framework_signals(m: String)
    ensures
        ({
            let c = classify(seq![Signal::BodyDeserialize(m)]);
            c.status == 422 && c.body == m@ && contains_seq(c.log, m@)
        }),
        ({
            let c = classify(seq![Signal::CorsForbidden(m)]);
            c.status == 403 && c.body == m@ && contains_seq(c.log, m@)
        }),
{
    lemma_single_signal(Signal::BodyDeserialize(m));
    lemma_single_signal(Signal::CorsForbidden(m));
    lemma_concat_contains("Cannot deserizalize request body: "@, m@);
    lemma_concat_contains("CORS forbidden error: "@, m@);
}

} // verus!
