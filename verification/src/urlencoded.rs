//! Lists of parameters as they stand in a URL.
use vstd::prelude::*;

use crate::maps;
use crate::maps::TextMap;

verus! {

/// The parameters that a query holds, in their order, or what is wrong with it.
pub uninterp spec fn query_pairs(s: Seq<char>) -> Result<Seq<(Seq<char>, Seq<char>)>, Seq<char>>;

/// `serde_urlencoded::from_str` into a list of pairs: the pairs, or the text of the error,
/// as the name `query_pairs` stands for.
#[verifier::external_body]
fn decode_pairs(s: &str) -> (r: Result<Vec<(String, String)>, String>)
    ensures
        match r {
            Ok(v) => query_pairs(s@) == Ok::<Seq<(Seq<char>, Seq<char>)>, Seq<char>>(
                maps::pairs(v@),
            ),
            Err(e) => query_pairs(s@) == Err::<Seq<(Seq<char>, Seq<char>)>, Seq<char>>(e@),
        },
{
    serde_urlencoded::from_str::<Vec<(String, String)>>(s).map_err(|e| e.to_string())
}

/// The query that holds a list of parameters, or why there is none.
pub uninterp spec fn query_text(v: Seq<(Seq<char>, Seq<char>)>) -> Result<Seq<char>, Seq<char>>;

/// `serde_urlencoded::to_string` on a list of pairs: the query, or the text of the error,
/// as the name `query_text` stands for. What it writes, `serde_urlencoded::from_str` reads
/// back: it escapes every character that ends a key or a value.
#[verifier::external_body]
fn encode_pairs(v: &Vec<(String, String)>) -> (r: Result<String, String>)
    ensures
        match r {
            Ok(s) => query_text(maps::pairs(v@)) == Ok::<Seq<char>, Seq<char>>(s@)
                && query_pairs(s@) == Ok::<Seq<(Seq<char>, Seq<char>)>, Seq<char>>(
                maps::pairs(v@),
            ),
            Err(e) => query_text(maps::pairs(v@)) == Err::<Seq<char>, Seq<char>>(e@),
        },
{
    serde_urlencoded::to_string(v).map_err(|e| e.to_string())
}

/// The map of the parameters of a query: of two under one key, the later counts.
pub open spec fn query_map(s: Seq<char>) -> Result<Map<Seq<char>, Seq<char>>, Seq<char>> {
    match query_pairs(s) {
        Ok(v) => Ok(maps::pairs_map(v)),
        Err(e) => Err(e),
    }
}

/// Reads a query as a map.
pub fn parse_query(s: &str) -> (r: Result<TextMap<String>, String>)
    ensures
        match r {
            Ok(m) => m.wf() && query_map(s@) == Ok::<Map<Seq<char>, Seq<char>>, Seq<char>>(
                maps::text_map(m@),
            ),
            Err(e) => query_map(s@) == Err::<Map<Seq<char>, Seq<char>>, Seq<char>>(e@),
        },
{
    match decode_pairs(s) {
        Ok(v) => {
            proof {
                maps::lemma_pairs_map(v@);
            }
            Ok(TextMap::from_entries(v))
        },
        Err(e) => Err(e),
    }
}

/// Writes a list of parameters as a query, from which it can be read back.
pub fn write_query(v: &Vec<(String, String)>) -> (r: Result<String, String>)
    ensures
        match r {
            Ok(s) => query_text(maps::pairs(v@)) == Ok::<Seq<char>, Seq<char>>(s@)
                && query_pairs(s@) == Ok::<Seq<(Seq<char>, Seq<char>)>, Seq<char>>(
                maps::pairs(v@),
            ),
            Err(e) => query_text(maps::pairs(v@)) == Err::<Seq<char>, Seq<char>>(e@),
        },
{
    encode_pairs(v)
}

}
