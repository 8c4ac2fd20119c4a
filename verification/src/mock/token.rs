//! A token generator for tests.

use vstd::prelude::*;
use vstd::string::StringExecFns;
use crate::data_type::id::Id;
use crate::token::GeneratorTrait;

verus! {

/// The token that [`TokenGeneratorMock`] hands out for a user: a fixed
/// prefix, then the printed form of the user's identifier.
pub open spec fn mock_token(user_id: Seq<char>) -> Seq<char> {
    "token-"@ + user_id
}

/// A generator whose tokens are bound to the user: the same user always
/// gets the same token, and two users never share one.
pub struct TokenGeneratorMock {}

impl TokenGeneratorMock {
    pub fn new() -> TokenGeneratorMock {
        TokenGeneratorMock {  }
    }
}

impl Default for TokenGeneratorMock {
    fn default() -> TokenGeneratorMock {
        TokenGeneratorMock::new()
    }
}

impl GeneratorTrait for TokenGeneratorMock {
    open spec fn generates(&self, user_id: Seq<char>, token: Seq<char>) -> bool {
        token == mock_token(user_id)
    }

    fn generate(&self, user_id: &Id) -> (token: String) {
        let prefix = String::from_str("token-");
        let printed = user_id.to_string();
        prefix.concat(printed.as_str())
    }
}

/// Tokens of two users differ.
pub proof fn mock_tokens_differ(first: Seq<char>, second: Seq<char>)
    requires
        first != second,
    ensures
        mock_token(first) != mock_token(second),
{
    let prefix = "token-"@;
    if mock_token(first) == mock_token(second) {
        assert(mock_token(first).subrange(prefix.len() as int, mock_token(first).len() as int)
            =~= first);
        assert(mock_token(second).subrange(prefix.len() as int, mock_token(second).len() as int)
            =~= second);
    }
}

} // verus!
