use vstd::prelude::*;

use crate::error::AppError;
use crate::json::{
    array_len, as_str, item, json_array_len, json_item, json_parse_error, json_pointer, json_str,
    parse_json, parsed_json, pointer,
};

verus! {

/// The first `n` strings of a JSON array, or `None` where one of them is not
/// a string.
pub open spec fn strings_of(arr: serde_json::Value, n: nat) -> Option<Seq<Seq<char>>>
    decreases n,
{
    if n == 0 {
        Some(seq![])
    } else {
        match strings_of(arr, (n - 1) as nat) {
            None => None,
            Some(prev) => match json_item(arr, (n - 1) as nat) {
                Some(e) => match json_str(e) {
                    Some(s) => Some(prev.push(s)),
                    None => None,
                },
                None => None,
            },
        }
    }
}

/// The asset identifiers that a configuration text lists under "tokens", or
/// `None` where the text is not of the form `{"tokens": [string, ...]}`.
pub open spec fn config_tokens(text: Seq<char>) -> Option<Seq<Seq<char>>> {
    match parsed_json(text) {
        None => None,
        Some(doc) => match json_pointer(doc, "/tokens"@) {
            None => None,
            Some(arr) => match json_array_len(arr) {
                None => None,
                Some(n) => strings_of(arr, n),
            },
        },
    }
}

/// Why a configuration text is refused, after the common lead
/// "Error deserializing JSON file: ".
pub open spec fn config_error(text: Seq<char>) -> Seq<char> {
    match parsed_json(text) {
        None => json_parse_error(text),
        Some(doc) => match json_pointer(doc, "/tokens"@) {
            None => "missing field `tokens`"@,
            Some(arr) => match json_array_len(arr) {
                None => "`tokens` is not an array"@,
                Some(_) => "every token must be a string"@,
            },
        },
    }
}

/// The configured list of asset identifiers.
#[derive(Debug)]
pub struct Config {
    pub tokens: Vec<String>,
}

impl Config {
    /// Reads a configuration text `{"tokens": [string, ...]}`.
    pub fn from_json(text: &str) -> (r: Result<Config, AppError>)
        ensures
            match config_tokens(text@) {
                Some(ts) => r matches Ok(c) && c.tokens@.map_values(|t: String| t@) == ts,
                None => r matches Err(AppError::JsonError(m)) && m@ == "Error deserializing JSON file: "@
                    + config_error(text@),
            },
    {
        let doc = match parse_json(text) {
            Ok(d) => d,
            Err(e) => return Err(config_failure(e.as_str())),
        };
        let arr = match pointer(&doc, "/tokens") {
            Some(a) => a,
            None => return Err(config_failure("missing field `tokens`")),
        };
        let n = match array_len(arr) {
            Some(n) => n,
            None => return Err(config_failure("`tokens` is not an array")),
        };
        let mut tokens: Vec<String> = Vec::new();
        let mut i: usize = 0;
        while i < n
            invariant
                i <= n,
                parsed_json(text@) == Some(doc),
                json_pointer(doc, "/tokens"@) == Some(*arr),
                json_array_len(*arr) == Some(n as nat),
                strings_of(*arr, i as nat) == Some(tokens@.map_values(|t: String| t@)),
            decreases n - i,
        {
            let s = match item(arr, i) {
                Some(e) => match as_str(e) {
                    Some(s) => s,
                    None => {
                        proof {
                            assert(strings_of(*arr, (i + 1) as nat) is None);
                            lemma_strings_stop(*arr, i as nat, n as nat);
                        }
                        return Err(config_failure("every token must be a string"));
                    },
                },
                None => {
                    proof {
                            assert(strings_of(*arr, (i + 1) as nat) is None);
                            lemma_strings_stop(*arr, i as nat, n as nat);
                        }
                    return Err(config_failure("every token must be a string"));
                },
            };
            let ghost before = tokens@;
            tokens.push(String::from_str(s));
            assert(tokens@.map_values(|t: String| t@) =~= before.map_values(|t: String| t@).push(s@));
            i = i + 1;
        }
        Ok(Config { tokens })
    }
}

fn config_failure(why: &str) -> (r: AppError)
    ensures
        r matches AppError::JsonError(m) && m@ == "Error deserializing JSON file: "@ + why@,
{
    let mut m = String::from_str("Error deserializing JSON file: ");
    m.append(why);
    AppError::JsonError(m)
}

/// Once one element is not a string, no longer prefix is all strings.
proof fn lemma_strings_stop(arr: serde_json::Value, i: nat, n: nat)
    requires
        i < n,
        strings_of(arr, (i + 1) as nat) is None,
    ensures
        strings_of(arr, n) is None,
    decreases n - i,
{
    if i + 1 < n {
        lemma_strings_stop(arr, i + 1, n);
    }
}

} // verus!
