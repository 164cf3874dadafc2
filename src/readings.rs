use vstd::prelude::*;
use vstd::string::*;
use crate::text::{words, split_words};

verus! {

/// The seconds field of the uptime source: its first word, or `0` when it
/// holds none.
pub open spec fn uptime_field(text: Seq<char>) -> Seq<char> {
    if words(text).len() > 0 {
        words(text)[0]
    } else {
        "0"@
    }
}

/// Picks the seconds field out of the uptime source's text.
pub fn uptime_token(text: &str) -> (r: String)
    ensures
        r@ == uptime_field(text@),
{
    let mut ws = split_words(text);
    if ws.len() > 0 {
        assert(ws.deep_view()[0] == ws@[0]@);
        ws.swap_remove(0)
    } else {
        String::from_str("0")
    }
}

/// Picks the three load figures out of the load-average source's text: its
/// first three words, each taken whatever it holds, or `None` when there
/// are fewer than three.
pub fn load_fields(text: &str) -> (r: Option<(String, String, String)>)
    ensures
        r.is_some() <==> words(text@).len() >= 3,
        r matches Some(t) ==> t.0@ == words(text@)[0] && t.1@ == words(text@)[1]
            && t.2@ == words(text@)[2],
{
    let ws = split_words(text);
    if ws.len() >= 3 {
        assert(ws.deep_view()[0] == ws@[0]@);
        assert(ws.deep_view()[1] == ws@[1]@);
        assert(ws.deep_view()[2] == ws@[2]@);
        Some((ws[0].clone(), ws[1].clone(), ws[2].clone()))
    } else {
        None
    }
}

} // verus!
