use vstd::prelude::*;

use super::frame::{encode, wire, Frame};
use super::{Error, ErrorView};

verus! {

/// A payload that travels in frames of one fixed kind.
pub trait Packet {
    spec fn spec_kind() -> Seq<char>;

    fn kind() -> (r: String)
        ensures
            r@ == Self::spec_kind(),
    ;
}

/// A request, paired once and for all with the reply it expects.
pub trait Request: Packet {
    type Expect: Response;
}

/// A reply payload.
pub trait Response: Packet {
}

/// The `result/` prefix that wraps a reply which may carry an error message.
pub open spec fn result_prefix() -> Seq<char> {
    seq!['r', 'e', 's', 'u', 'l', 't', '/']
}

impl<P: Response> Packet for Result<P, String> {
    open spec fn spec_kind() -> Seq<char> {
        result_prefix() + P::spec_kind()
    }

    fn kind() -> (r: String) {
        let mut s = String::from_str("result/");
        let inner = P::kind();
        s.append(inner.as_str());
        proof {
            reveal_strlit("result/");
        }
        assert(s@ =~= result_prefix() + P::spec_kind());
        s
    }
}

impl<P: Response> Response for Result<P, String> {
}

/// The wire text that sends `req_body` as a request of kind `R`.
pub fn request_line<R: Request>(req_body: &str) -> (r: String)
    ensures
        r@ == wire(R::spec_kind(), req_body@),
{
    let kind = R::kind();
    encode(kind.as_str(), req_body)
}

/// The outcome of waiting for a reply of kind `expected`, given what the
/// engine handed over: `None` once it has stopped.
pub open spec fn reply_outcome(
    item: Option<Result<(Seq<char>, Seq<char>), ErrorView>>,
    expected: Seq<char>,
) -> Result<Seq<char>, ErrorView> {
    match item {
        None => Err(ErrorView::ConnectionClosed),
        Some(Err(e)) => Err(e),
        Some(Ok((kind, body))) => if kind == expected {
            Ok(body)
        } else {
            Err(ErrorView::KindMismatch(expected, kind))
        },
    }
}

pub open spec fn item_view(item: Option<Result<Frame, Error>>) -> Option<Result<(Seq<char>, Seq<char>), ErrorView>> {
    match item {
        None => None,
        Some(Err(e)) => Some(Err(e@)),
        Some(Ok(f)) => Some(Ok((f.kind@, f.body@))),
    }
}

pub open spec fn outcome_view(r: Result<String, Error>) -> Result<Seq<char>, ErrorView> {
    match r {
        Ok(b) => Ok(b@),
        Err(e) => Err(e@),
    }
}

/// Checks what the engine handed over against the reply kind `R`, and gives
/// the body to parse.
pub fn accept_reply<R: Response>(item: Option<Result<Frame, Error>>) -> (r: Result<String, Error>)
    ensures
        outcome_view(r) == reply_outcome(item_view(item), R::spec_kind()),
{
    match item {
        None => Err(Error::ConnectionClosed),
        Some(Err(e)) => Err(e),
        Some(Ok(f)) => {
            let expected = R::kind();
            if f.kind == expected {
                Ok(f.body)
            } else {
                Err(Error::KindMismatch { expected, actual: f.kind })
            }
        },
    }
}

/// A request on a connection whose engine has stopped fails: either the
/// engine's queue refuses it, or the wait ends with `ConnectionClosed`.
pub proof fn lemma_request_after_stop_fails(expected: Seq<char>)
    ensures
        reply_outcome(None, expected) == Err::<Seq<char>, ErrorView>(ErrorView::ConnectionClosed),
{
}

} // verus!
