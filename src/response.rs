use crate::json::{is_json, json_of, member_of, node_of, node_view, parse_json, take_member, Node};
use serde_json::Value;
use vstd::prelude::*;
use vstd::string::*;

verus! {

/// The first words of every description of a reply that could not be decoded.
pub const DECODE_FAILURE: &'static str = "error decoding response body: ";

/// The description of a reply that is JSON of none of the expected shapes.
pub const UNMATCHED: &'static str =
    "error decoding response body: the reply is of none of the expected shapes";

/// A successful reply: the server's help text and the decoded result.
#[derive(Debug)]
pub struct Success<T> {
    pub help: String,
    pub result: T,
}

/// A reply that reports an error: the server's help text and its error value.
#[derive(Debug)]
pub struct Fail {
    pub help: String,
    pub error: Value,
}

/// Every outcome of one call of an action.
#[derive(Debug)]
pub enum Response<T> {
    /// The server answered with a help text and a result of the expected shape.
    Result(Success<T>),
    /// The server answered with a help text and an error.
    Error(Fail),
    /// The server answered with a bare JSON string.
    StringError(String),
    /// The request could not be carried out.
    ReqwestError(String),
    /// The reply was received but is of none of the shapes above.
    DecodeError(String),
}

/// The members of an object reply that the decoding reads.
#[derive(Debug)]
pub struct Envelope {
    /// The `help` member, where there is one and it is a string.
    pub help: Option<String>,
    /// The `result` member, where there is one.
    pub result: Option<Value>,
    /// The `error` member, where there is one.
    pub error: Option<Value>,
}

/// The top level of a reply that is JSON.
#[derive(Debug)]
pub enum Payload {
    Object(Envelope),
    Text(String),
    Other,
}

/// The members of the object `m` that the decoding reads.
pub open spec fn envelope_of(m: serde_json::Map<String, Value>) -> Envelope {
    Envelope {
        help: match member_of(m, "help"@) {
            Some(v) => match node_view(v) {
                Node::Text(s) => Some(s),
                _ => None,
            },
            None => None,
        },
        result: member_of(m, "result"@),
        error: member_of(m, "error"@),
    }
}

/// The top level of the reply body `b`, where it is JSON.
pub open spec fn payload_of(b: Seq<u8>) -> Payload {
    match node_view(json_of(b)) {
        Node::Object(m) => Payload::Object(envelope_of(m)),
        Node::Text(s) => Payload::Text(s),
        Node::Other => Payload::Other,
    }
}

/// `r` is the outcome of decoding the reply body `body`, where `decode`
/// reads the `result` member of a success envelope.
pub open spec fn is_decoding<T, F: FnOnce(&Value) -> Option<T>>(
    body: Seq<u8>,
    decode: F,
    r: Response<T>,
) -> bool {
    if is_json(body) {
        exists|d: Option<T>|
            is_resolution(payload_of(body), d, r) && #[trigger] decoded_from(
                decode,
                payload_of(body),
                d,
            )
    } else {
        r matches Response::DecodeError(t) && t@.len() >= DECODE_FAILURE@.len() && t@.subrange(
            0,
            DECODE_FAILURE@.len() as int,
        ) == DECODE_FAILURE@
    }
}

/// `r` is the decode failure for a reply of none of the expected shapes.
pub open spec fn is_unmatched<T>(r: Response<T>) -> bool {
    r matches Response::DecodeError(d) && d@ == UNMATCHED@
}

/// The outcome for the reply `p`, where `decoded` is what its `result` member
/// decodes to as `T`: a success envelope first, then an error envelope, then a
/// bare string, and a decode failure where none of them fits.
pub open spec fn is_resolution<T>(p: Payload, decoded: Option<T>, r: Response<T>) -> bool {
    match p {
        Payload::Object(e) => {
            if e.help is Some && e.result is Some && decoded is Some {
                r == Response::Result(Success { help: e.help->0, result: decoded->0 })
            } else if e.help is Some && e.error is Some {
                r == Response::<T>::Error(Fail { help: e.help->0, error: e.error->0 })
            } else {
                is_unmatched(r)
            }
        },
        Payload::Text(s) => r == Response::<T>::StringError(s),
        Payload::Other => is_unmatched(r),
    }
}

/// `d` is what `decode` gave for the `result` member of `p`, where `p` is an
/// object with a string `help` and a `result`; elsewhere `decode` was not asked.
pub open spec fn decoded_from<T, F: FnOnce(&Value) -> Option<T>>(
    decode: F,
    p: Payload,
    d: Option<T>,
) -> bool {
    match p {
        Payload::Object(e) => if e.help is Some && e.result is Some {
            call_ensures(decode, (&e.result->0,), d)
        } else {
            d is None
        },
        _ => d is None,
    }
}

/// The two outcomes are of the same variant, with the same contents.
pub open spec fn same_response<T>(a: Response<T>, b: Response<T>) -> bool {
    match (a, b) {
        (Response::Result(x), Response::Result(y)) => x.help@ == y.help@ && x.result == y.result,
        (Response::Error(x), Response::Error(y)) => x.help@ == y.help@ && x.error == y.error,
        (Response::StringError(x), Response::StringError(y)) => x@ == y@,
        (Response::ReqwestError(x), Response::ReqwestError(y)) => x@ == y@,
        (Response::DecodeError(x), Response::DecodeError(y)) => x@ == y@,
        _ => false,
    }
}

/// The outcome of a call whose request could not be carried out; `reason`
/// describes why.
pub fn transport_failure<T>(reason: String) -> (r: Response<T>)
    ensures
        r == Response::<T>::ReqwestError(reason),
{
    Response::ReqwestError(reason)
}

fn read_envelope(m: serde_json::Map<String, Value>) -> (r: Envelope)
    ensures
        r == envelope_of(m),
{
    proof {
        reveal_strlit("help");
        reveal_strlit("result");
        reveal_strlit("error");
        assert("help"@.len() != "result"@.len());
        assert("help"@.len() != "error"@.len());
        assert("result"@.len() != "error"@.len());
    }
    let mut members = m;
    let help_member = take_member(&mut members, "help");
    let result = take_member(&mut members, "result");
    let error = take_member(&mut members, "error");
    let help = match help_member {
        Some(v) => match node_of(v) {
            Node::Text(s) => Some(s),
            _ => None,
        },
        None => None,
    };
    Envelope { help, result, error }
}

/// Reads the top level of a reply body. Fails, with a description, exactly
/// where the body is not JSON.
pub fn read_payload(body: &[u8]) -> (r: Result<Payload, String>)
    ensures
        r is Err == !is_json(body@),
        r matches Ok(p) ==> p == payload_of(body@),
        r matches Err(d) ==> d@.len() > 0 && d@.len() >= DECODE_FAILURE@.len() && d@.subrange(
            0,
            DECODE_FAILURE@.len() as int,
        ) == DECODE_FAILURE@,
{
    match parse_json(body) {
        Ok(v) => match node_of(v) {
            Node::Object(m) => Ok(Payload::Object(read_envelope(m))),
            Node::Text(s) => Ok(Payload::Text(s)),
            Node::Other => Ok(Payload::Other),
        },
        Err(e) => {
            proof {
                reveal_strlit("error decoding response body: ");
            }
            let mut d = DECODE_FAILURE.to_owned();
            let detail = e.to_string();
            d.append(detail.as_str());
            assert(d@.subrange(0, DECODE_FAILURE@.len() as int) =~= DECODE_FAILURE@);
            Err(d)
        },
    }
}

fn unmatched<T>() -> (r: Response<T>)
    ensures
        is_unmatched(r),
{
    Response::DecodeError(UNMATCHED.to_owned())
}

/// Picks the outcome for the reply `p`, where `decoded` is what its `result`
/// member decodes to as `T` (`None` where it does not): a success envelope is
/// tried first, then an error envelope, then a bare string.
pub fn resolve<T>(p: Payload, decoded: Option<T>) -> (r: Response<T>)
    ensures
        is_resolution(p, decoded, r),
{
    match p {
        Payload::Object(e) => {
            let Envelope { help, result, error } = e;
            match help {
                Some(h) => match (result, decoded) {
                    (Some(_), Some(t)) => Response::Result(Success { help: h, result: t }),
                    _ => match error {
                        Some(err) => Response::Error(Fail { help: h, error: err }),
                        None => unmatched(),
                    },
                },
                None => unmatched(),
            }
        },
        Payload::Text(s) => Response::StringError(s),
        Payload::Other => unmatched(),
    }
}

/// Decodes a reply body; `decode_result` turns the `result` member of a
/// success envelope into a `T`, or gives `None` where it is not of that shape.
/// A body that is not JSON gives a decode failure; otherwise the outcome is
/// the one that `resolve` picks for the body's top level and what
/// `decode_result` gave for its `result` member.
pub fn decode_body<T, F: FnOnce(&Value) -> Option<T>>(body: &[u8], decode_result: F) -> (r:
    Response<T>)
    requires
        forall|v: &Value| call_requires(decode_result, (v,)),
    ensures
        is_decoding(body@, decode_result, r),
        r matches Response::DecodeError(d) ==> d@.len() > 0,
        !(r is ReqwestError),
{
    proof {
        reveal_strlit("error decoding response body: ");
        reveal_strlit("error decoding response body: the reply is of none of the expected shapes");
    }
    match read_payload(body) {
        Err(d) => Response::DecodeError(d),
        Ok(p) => {
            let decoded = match &p {
                Payload::Object(e) => match (&e.help, &e.result) {
                    (Some(_), Some(v)) => decode_result(v),
                    _ => None,
                },
                _ => None,
            };
            let r = resolve(p, decoded);
            assert(decoded_from(decode_result, payload_of(body@), decoded));
            r
        },
    }
}

/// The outcome is fixed by the reply and the decoded result alone: two calls
/// that read the same reply, and decode its result alike, give the same outcome.
pub proof fn lemma_same_reply_same_outcome<T>(
    p: Payload,
    decoded: Option<T>,
    r1: Response<T>,
    r2: Response<T>,
)
    requires
        is_resolution(p, decoded, r1),
        is_resolution(p, decoded, r2),
    ensures
        same_response(r1, r2),
{
}

/// Decoding one reply body twice, with a decoder that gives one answer for
/// one value, gives outcomes of the same variant with the same contents; a
/// body that is not JSON gives a decode failure both times.
pub proof fn lemma_same_body_same_outcome<T, F: FnOnce(&Value) -> Option<T>>(
    body: Seq<u8>,
    decode: F,
    r1: Response<T>,
    r2: Response<T>,
)
    requires
        forall|v: &Value, d1: Option<T>, d2: Option<T>|
            call_ensures(decode, (v,), d1) && call_ensures(decode, (v,), d2) ==> d1 == d2,
        is_decoding(body, decode, r1),
        is_decoding(body, decode, r2),
    ensures
        is_json(body) ==> same_response(r1, r2),
        !is_json(body) ==> r1 is DecodeError && r2 is DecodeError,
{
    if is_json(body) {
        let p = payload_of(body);
        let d1 = choose|d: Option<T>| is_resolution(p, d, r1) && #[trigger] decoded_from(decode, p, d);
        let d2 = choose|d: Option<T>| is_resolution(p, d, r2) && #[trigger] decoded_from(decode, p, d);
        assert(d1 == d2);
        lemma_same_reply_same_outcome(p, d1, r1, r2);
    }
}

} // verus!
