use vstd::prelude::*;
use crate::error::RepoError;

verus! {

/// The methods a saved request can carry.
#[derive(Debug, Clone, Copy, PartialEq, Eq, Structural)]
pub enum Methods {
    GET,
    POST,
    DELETE,
    MODIFY,
    PUT,
}

impl Methods {
    /// The upper-case token a method is written as.
    pub open spec fn token(self) -> Seq<char> {
        match self {
            Methods::GET => "GET"@,
            Methods::POST => "POST"@,
            Methods::DELETE => "DELETE"@,
            Methods::MODIFY => "MODIFY"@,
            Methods::PUT => "PUT"@,
        }
    }

    /// The method that a token names, if it names one. The match is exact: case matters.
    pub open spec fn named_by(token: Seq<char>) -> Option<Methods> {
        if token == "GET"@ {
            Some(Methods::GET)
        } else if token == "POST"@ {
            Some(Methods::POST)
        } else if token == "DELETE"@ {
            Some(Methods::DELETE)
        } else if token == "MODIFY"@ {
            Some(Methods::MODIFY)
        } else if token == "PUT"@ {
            Some(Methods::PUT)
        } else {
            None
        }
    }

    /// Parses a method token.
    pub fn from_str(input: &str) -> (res: Result<Methods, RepoError>)
        ensures
            res == match Methods::named_by(input@) {
                Some(method) => Ok::<Methods, RepoError>(method),
                None => Err(RepoError::InvalidMethod),
            },
    {
        let token = input.to_owned();
        if token == "GET".to_owned() {
            Ok(Methods::GET)
        } else if token == "POST".to_owned() {
            Ok(Methods::POST)
        } else if token == "DELETE".to_owned() {
            Ok(Methods::DELETE)
        } else if token == "MODIFY".to_owned() {
            Ok(Methods::MODIFY)
        } else if token == "PUT".to_owned() {
            Ok(Methods::PUT)
        } else {
            Err(RepoError::InvalidMethod)
        }
    }

    /// The token of the method, borrowed.
    pub fn as_str(&self) -> (res: &'static str)
        ensures
            res@ == self.token(),
    {
        match self {
            Methods::GET => "GET",
            Methods::POST => "POST",
            Methods::DELETE => "DELETE",
            Methods::MODIFY => "MODIFY",
            Methods::PUT => "PUT",
        }
    }

    /// The token of the method, owned.
    pub fn to_string(&self) -> (res: String)
        ensures
            res@ == self.token(),
    {
        self.as_str().to_owned()
    }
}

/// The five tokens are pairwise different, so no token names two methods.
pub proof fn lemma_tokens_distinct(a: Methods, b: Methods)
    ensures
        a.token() == b.token() <==> a == b,
{
    reveal_strlit("GET");
    reveal_strlit("POST");
    reveal_strlit("DELETE");
    reveal_strlit("MODIFY");
    reveal_strlit("PUT");
    if a != b {
        let s = a.token();
        let t = b.token();
        assert(s.len() != t.len() || s[0] != t[0] || s[1] != t[1]);
    }
}

/// Rendering a method and parsing the token gives the method back.
pub proof fn lemma_parse_of_render(method: Methods)
    ensures
        Methods::named_by(method.token()) == Some(method),
{
    lemma_tokens_distinct(method, Methods::GET);
    lemma_tokens_distinct(method, Methods::POST);
    lemma_tokens_distinct(method, Methods::DELETE);
    lemma_tokens_distinct(method, Methods::MODIFY);
    lemma_tokens_distinct(method, Methods::PUT);
}

/// Parsing a token and rendering the method gives the token back; a token that parses
/// is therefore one of the five, and every other string is refused.
pub proof fn lemma_render_of_parse(token: Seq<char>)
    ensures
        match Methods::named_by(token) {
            Some(method) => method.token() == token,
            None => forall|method: Methods| method.token() != token,
        },
{
    if Methods::named_by(token) is None {
        assert forall|method: Methods| method.token() != token by {
            match method {
                Methods::GET => {},
                Methods::POST => {},
                Methods::DELETE => {},
                Methods::MODIFY => {},
                Methods::PUT => {},
            }
        }
    }
}

} // verus!
