use serde_json::Value;
use vstd::prelude::*;

use crate::json::{as_str, json_pointer, json_str, pointer};
use crate::websocket_handler::WebSocketHandler;

verus! {

/// The lookup service's coin endpoint; the lowercased identifier follows a slash.
pub const COINGECKO_API_COINS: &'static str = "https://api.coingecko.com/api/v3/coins";

/// The lowercase form of a text.
pub uninterp spec fn lower_of(s: Seq<char>) -> Seq<char>;

/// Relies on `str::to_lowercase`: the lowercase form depends on the text alone.
#[verifier::external_body]
fn lowercase(s: &str) -> (r: String)
    ensures
        r@ == lower_of(s@),
{
    s.to_lowercase()
}

/// The URL at which the lookup service describes an asset identifier.
pub fn lookup_url(token: &str) -> (r: String)
    ensures
        r@ == COINGECKO_API_COINS@ + "/"@ + lower_of(token@),
{
    let mut url = String::from_str(COINGECKO_API_COINS);
    url.append("/");
    let lower = lowercase(token);
    url.append(lower.as_str());
    url
}

/// The text at `ptr` of a lookup response, if it is a string.
pub open spec fn response_str(resp: Value, ptr: Seq<char>) -> Option<Seq<char>> {
    match json_pointer(resp, ptr) {
        Some(v) => json_str(v),
        None => None,
    }
}

/// Whether a lookup response is the service's "not found" answer.
pub open spec fn reports_not_found(resp: Value) -> bool {
    response_str(resp, "/error"@) == Some("coin not found"@)
}

/// The chain address that a lookup response gives, if any.
pub open spec fn resolved_address(resp: Value) -> Option<Seq<char>> {
    if reports_not_found(resp) {
        None
    } else {
        response_str(resp, "/platforms/sui"@)
    }
}

/// What a lookup response says of an asset identifier.
#[derive(Debug)]
pub enum Lookup {
    /// The service does not know the identifier.
    NotFound,
    /// The identifier's chain address.
    Found(String),
    /// The service knows the identifier but gives no chain address.
    NoAddress,
}

fn read_str(resp: &Value, ptr: &str) -> (r: Option<String>)
    ensures
        match r {
            Some(t) => response_str(*resp, ptr@) == Some(t@),
            None => response_str(*resp, ptr@) is None,
        },
{
    match pointer(resp, ptr) {
        Some(v) => match as_str(v) {
            Some(s) => Some(String::from_str(s)),
            None => None,
        },
        None => None,
    }
}

/// Classifies a lookup response.
pub fn classify_lookup(response: &Value) -> (r: Lookup)
    ensures
        r is NotFound <==> reports_not_found(*response),
        match r {
            Lookup::Found(a) => resolved_address(*response) == Some(a@),
            _ => resolved_address(*response) is None,
        },
{
    let not_found = String::from_str("coin not found");
    match read_str(response, "/error") {
        Some(e) => {
            if e == not_found {
                return Lookup::NotFound;
            }
        },
        None => {},
    }
    match read_str(response, "/platforms/sui") {
        Some(a) => Lookup::Found(a),
        None => Lookup::NoAddress,
    }
}

/// A feeder: one asset's name and chain address.
#[derive(Debug)]
pub struct Client {
    token_name: String,
    contract_address: String,
}

impl View for Client {
    type V = (Seq<char>, Seq<char>);

    closed spec fn view(&self) -> (Seq<char>, Seq<char>) {
        (self.token_name@, self.contract_address@)
    }
}

impl Client {
    pub fn new(token_name: String, contract_address: String) -> (r: Client)
        ensures
            r@ == (token_name@, contract_address@),
    {
        Client { token_name, contract_address }
    }

    /// The asset's name.
    pub fn token_name(&self) -> (r: &str)
        ensures
            r@ == self@.0,
    {
        self.token_name.as_str()
    }

    /// The asset's chain address.
    pub fn contract_address(&self) -> (r: &str)
        ensures
            r@ == self@.1,
    {
        self.contract_address.as_str()
    }

    /// The connection handler that runs this feeder.
    pub fn handler(&self) -> (r: WebSocketHandler)
        ensures
            r@ == self@,
    {
        WebSocketHandler::new(self.token_name.clone(), self.contract_address.clone())
    }
}

/// The feeders that lookup responses give, in the order of the identifiers:
/// those whose response resolves to an address.
pub open spec fn pool_of(tokens: Seq<Seq<char>>, responses: Seq<Value>) -> Seq<(Seq<char>, Seq<char>)>
    decreases tokens.len(),
{
    if tokens.len() == 0 || responses.len() == 0 {
        seq![]
    } else {
        let rest = pool_of(tokens.drop_last(), responses.drop_last());
        match resolved_address(responses.last()) {
            Some(a) => rest.push((tokens.last(), a)),
            None => rest,
        }
    }
}

/// An identifier that the lookup service does not know adds no feeder, and
/// the identifiers before and after it are resolved as if it were absent.
pub proof fn lemma_unknown_dropped(
    tokens: Seq<Seq<char>>,
    responses: Seq<Value>,
    token: Seq<char>,
    response: Value,
    more_tokens: Seq<Seq<char>>,
    more_responses: Seq<Value>,
)
    requires
        tokens.len() == responses.len(),
        more_tokens.len() == more_responses.len(),
        reports_not_found(response),
    ensures
        pool_of(tokens.push(token) + more_tokens, responses.push(response) + more_responses)
            == pool_of(tokens + more_tokens, responses + more_responses),
    decreases more_tokens.len(),
{
    if more_tokens.len() == 0 {
        assert(tokens.push(token) + more_tokens =~= tokens.push(token));
        assert(responses.push(response) + more_responses =~= responses.push(response));
        assert(tokens + more_tokens =~= tokens);
        assert(responses + more_responses =~= responses);
        assert(tokens.push(token).drop_last() =~= tokens);
        assert(responses.push(response).drop_last() =~= responses);
    } else {
        let mt = more_tokens.drop_last();
        let mr = more_responses.drop_last();
        lemma_unknown_dropped(tokens, responses, token, response, mt, mr);
        assert((tokens.push(token) + more_tokens).drop_last() =~= tokens.push(token) + mt);
        assert((responses.push(response) + more_responses).drop_last() =~= responses.push(response) + mr);
        assert((tokens + more_tokens).drop_last() =~= tokens + mt);
        assert((responses + more_responses).drop_last() =~= responses + mr);
    }
}

/// The pool of feeders.
#[derive(Debug)]
pub struct ClientManager {
    clients: Vec<Client>,
}

impl View for ClientManager {
    type V = Seq<(Seq<char>, Seq<char>)>;

    closed spec fn view(&self) -> Seq<(Seq<char>, Seq<char>)> {
        self.clients@.map_values(|c: Client| c@)
    }
}

impl ClientManager {
    pub fn new() -> (r: ClientManager)
        ensures
            r@ == Seq::<(Seq<char>, Seq<char>)>::empty(),
    {
        let r = ClientManager { clients: Vec::new() };
        assert(r@ =~= Seq::<(Seq<char>, Seq<char>)>::empty());
        r
    }

    /// Adds a feeder for each identifier whose lookup response resolves to an
    /// address, in input order; identifiers that are not found, or have no
    /// address, are skipped.
    pub fn create_clients(&mut self, tokens: &Vec<String>, responses: &Vec<Value>)
        requires
            tokens@.len() == responses@.len(),
        ensures
            final(self)@ == old(self)@ + pool_of(tokens@.map_values(|t: String| t@), responses@),
    {
        let ghost names = tokens@.map_values(|t: String| t@);
        let mut i: usize = 0;
        while i < tokens.len()
            invariant
                tokens@.len() == responses@.len(),
                i <= tokens@.len(),
                names == tokens@.map_values(|t: String| t@),
                self@ == old(self)@ + pool_of(names.subrange(0, i as int), responses@.subrange(0, i as int)),
            decreases tokens@.len() - i,
        {
            proof {
                assert(names.subrange(0, i + 1).drop_last() =~= names.subrange(0, i as int));
                assert(responses@.subrange(0, i + 1).drop_last() =~= responses@.subrange(0, i as int));
            }
            match classify_lookup(&responses[i]) {
                Lookup::Found(address) => {
                    let ghost before = self@;
                    let client = Client::new(tokens[i].clone(), address);
                    self.clients.push(client);
                    assert(self@ =~= before.push(client@));
                },
                _ => {},
            }
            i = i + 1;
        }
        assert(names.subrange(0, i as int) =~= names);
        assert(responses@.subrange(0, i as int) =~= responses@);
    }

    /// The feeders, in the order they were added.
    pub fn into_clients(self) -> (r: Vec<Client>)
        ensures
            r@.map_values(|c: Client| c@) == self@,
    {
        self.clients
    }
}

} // verus!
