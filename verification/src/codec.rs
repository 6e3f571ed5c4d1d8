use vstd::prelude::*;

use crate::changelog::{tenant_views, ChangeLogResponse, LogEntry};
use crate::watch::WatchRequest;

verus! {

/// The error serde_json reports on a malformed body. Opaque here: it is
/// carried only to be rendered into the rejection message.
#[verifier::external_type_specification]
#[verifier::external_body]
pub struct ExJsonError(serde_json::Error);

/// What parsing a watch request body yields: client id, cluster, tenant
/// filter and base version when the bytes are a well-formed JSON tuple of
/// that shape, nothing otherwise. Parsing depends on the bytes alone.
pub uninterp spec fn parsed_watch(b: Seq<u8>) -> Option<
    (Seq<char>, Seq<char>, Seq<Seq<char>>, u64),
>;

/// Relies on serde_json::from_slice: decodes the four-field watch tuple;
/// whether it succeeds, and the decoded values, depend on the bytes alone.
#[verifier::external_body]
fn parse_watch_tuple(body: &[u8]) -> (r: Result<
    (String, String, Vec<String>, u64),
    serde_json::Error,
>)
    ensures
        r is Ok <==> parsed_watch(body@) is Some,
        r is Ok ==> ({
            let (c, t, ts, v) = parsed_watch(body@)->Some_0;
            &&& r->Ok_0.0@ == c
            &&& r->Ok_0.1@ == t
            &&& tenant_views(r->Ok_0.2@) == ts
            &&& r->Ok_0.3 == v
        }),
{
    serde_json::from_slice::<(String, String, Vec<String>, u64)>(body)
}

/// Relies on serde_json::Error's Display impl: renders the decode failure
/// reason for the client. Nothing is claimed of the wording.
#[verifier::external_body]
fn decode_error_message(e: &serde_json::Error) -> String {
    e.to_string()
}

/// Decodes a watch request body: the request exactly when the bytes parse
/// as the expected tuple, otherwise the decode failure reason.
pub fn decode_watch_request(body: &[u8]) -> (r: Result<WatchRequest, String>)
    ensures
        r is Ok <==> parsed_watch(body@) is Some,
        r is Ok ==> ({
            let (c, t, ts, v) = parsed_watch(body@)->Some_0;
            &&& r->Ok_0.client_id@ == c
            &&& r->Ok_0.cluster@ == t
            &&& tenant_views(r->Ok_0.tenants@) == ts
            &&& r->Ok_0.base_version == v
        }),
{
    match parse_watch_tuple(body) {
        Ok((client_id, cluster, tenants, base_version)) => Ok(
            WatchRequest { client_id, cluster, tenants, base_version },
        ),
        Err(e) => Err(decode_error_message(&e)),
    }
}

/// Rows already in plain-tuple form, viewed as character sequences.
pub open spec fn row_views(rows: Seq<(u64, String, String, String)>) -> Seq<
    (u64, Seq<char>, Seq<char>, Seq<char>),
> {
    rows.map_values(|r: (u64, String, String, String)| (r.0, r.1@, r.2@, r.3@))
}

/// A response's rows in the same plain form.
pub open spec fn entry_rows(entries: Seq<LogEntry>) -> Seq<(u64, Seq<char>, Seq<char>, Seq<char>)> {
    entries.map_values(|e: LogEntry| (e.version, e.cluster@, e.tenant@, e.payload@))
}

/// What encoding a successful watch response yields: one uniform envelope
/// over the rows and the maximum version, a function of those values alone.
pub uninterp spec fn encoded_response(
    rows: Seq<(u64, Seq<char>, Seq<char>, Seq<char>)>,
    max_ver: u64,
) -> Seq<char>;

/// Relies on serde_json::to_string: renders the uniform watch envelope, a
/// result wrapping the rows and the maximum version. On these types the
/// call cannot fail (serde_json fails only on a failing Serialize impl or a
/// non-string map key), and its output depends on the values alone.
#[verifier::external_body]
fn encode_ok_envelope(rows: &Vec<(u64, String, String, String)>, max_ver: u64) -> (r: String)
    ensures
        r@ == encoded_response(row_views(rows@), max_ver),
{
    let body: Result<(&Vec<(u64, String, String, String)>, u64), String> = Ok((rows, max_ver));
    serde_json::to_string(&body).unwrap()
}

/// Encodes a watch response. Every return path of a watch call goes through
/// this one function, so clients parse a single response shape whichever
/// path produced it.
pub fn response_encode(resp: &ChangeLogResponse) -> (r: String)
    ensures
        r@ == encoded_response(entry_rows(resp.entries@), resp.max_ver),
{
    let mut rows: Vec<(u64, String, String, String)> = Vec::new();
    let mut i: usize = 0;
    while i < resp.entries.len()
        invariant
            0 <= i <= resp.entries@.len(),
            rows@.len() == i,
            forall|j: int|
                0 <= j < i ==> #[trigger] rows@[j] == ((
                    resp.entries@[j].version,
                    resp.entries@[j].cluster,
                    resp.entries@[j].tenant,
                    resp.entries@[j].payload,
                )),
        decreases resp.entries@.len() - i,
    {
        let e = &resp.entries[i];
        rows.push((e.version, e.cluster.clone(), e.tenant.clone(), e.payload.clone()));
        i += 1;
    }
    proof {
        assert(row_views(rows@) =~= entry_rows(resp.entries@));
    }
    encode_ok_envelope(&rows, resp.max_ver)
}

} // verus!
