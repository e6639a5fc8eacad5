//! The verified face of the external REST sink: endpoint and header
//! construction, and the write operation each record kind uses.
//!
//! The HTTP transport itself lives outside this crate; it sends exactly the
//! requests assembled here and reports back only success or failure.

use vstd::prelude::*;
use vstd::string::StringExecFns;

verus! {

/// Path fragment every sink table sits under.
pub const REST_PATH: &'static str = "/rest/v1/";

/// Preference header value for a plain insert: the sink returns the stored
/// representation.
pub const PREFER_INSERT: &'static str = "return=representation";

/// Preference header value for an upsert by primary key: the sink merges
/// duplicates instead of rejecting them.
pub const PREFER_UPSERT: &'static str = "resolution=merge-duplicates";

/// How a write is sent to the sink.
#[derive(Clone, Copy, Debug, PartialEq, Eq, Structural)]
pub enum SinkWrite {
    /// `POST` of one record or a batch, duplicates rejected.
    Insert,
    /// `POST` of one record, merged over the row with the same primary key.
    Upsert,
}

/// The preference header accompanying a write.
pub fn prefer_header(w: SinkWrite) -> (r: &'static str)
    ensures
        w == SinkWrite::Insert ==> r@ == PREFER_INSERT@,
        w == SinkWrite::Upsert ==> r@ == PREFER_UPSERT@,
{
    match w {
        SinkWrite::Insert => PREFER_INSERT,
        SinkWrite::Upsert => PREFER_UPSERT,
    }
}

/// The endpoint of one table: the sink's base address, the fixed REST path,
/// and the table name.
pub fn rest_endpoint(base_url: &str, table: &str) -> (r: String)
    ensures
        r@ == base_url@ + REST_PATH@ + table@,
{
    let mut r = base_url.to_owned();
    r.append(REST_PATH);
    r.append(table);
    r
}

/// The endpoint deleting every row of one table: the table's endpoint with a
/// filter matching every non-blank primary key. Replace-all sends this,
/// followed by an insert of the fresh rows.
pub fn delete_all_endpoint(base_url: &str, table: &str, primary_key: &str) -> (r: String)
    ensures
        r@ == base_url@ + REST_PATH@ + table@ + "?"@ + primary_key@ + "=neq."@,
{
    let mut r = rest_endpoint(base_url, table);
    r.append("?");
    r.append(primary_key);
    r.append("=neq.");
    r
}

/// The bearer credential header value carried by every sink request.
pub fn bearer_token(key: &str) -> (r: String)
    ensures
        r@ == "Bearer "@ + key@,
{
    let mut r = "Bearer ".to_owned();
    r.append(key);
    r
}

} // verus!
