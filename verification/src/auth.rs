//! Websocket credentials: what the public bullet endpoint answers, and the
//! token and endpoint taken from it.

use vstd::prelude::*;

verus! {

/// One websocket server offered by the bullet endpoint.
#[derive(Clone, Debug)]
pub struct InstanceServer {
    pub endpoint: String,
    pub encrypt: bool,
    pub protocol: String,
    pub ping_interval: u32,
    pub ping_timeout: u32,
}

/// The token and servers of a bullet answer.
#[derive(Clone, Debug)]
pub struct Token {
    pub token: String,
    pub instance_servers: Vec<InstanceServer>,
}

/// The answer of `POST /api/v1/bullet-public`.
#[derive(Clone, Debug)]
pub struct TokenResponse {
    pub code: String,
    pub data: Token,
}

/// What a websocket connection needs: the token and the server endpoint.
#[derive(Clone, Debug)]
pub struct FinalCredentials {
    pub token: String,
    pub endpoint: String,
}

/// The token and the first server's endpoint of a bullet answer.
pub open spec fn credentials_of(response: TokenResponse) -> (Seq<char>, Seq<char>) {
    (response.data.token@, response.data.instance_servers@[0].endpoint@)
}

/// Equal bullet answers give equal credentials: the token and endpoint
/// depend on the answer alone.
pub proof fn lemma_equal_answers_equal_credentials(first: TokenResponse, second: TokenResponse)
    requires
        first.data.token@ == second.data.token@,
        first.data.instance_servers@.len() > 0,
        second.data.instance_servers@.len() > 0,
        first.data.instance_servers@[0].endpoint@ == second.data.instance_servers@[0].endpoint@,
    ensures
        credentials_of(first) == credentials_of(second),
{
}

impl FinalCredentials {
    /// The credentials of a bullet answer: its token and the endpoint of its
    /// first server.
    pub fn from_token_response(response: TokenResponse) -> (cred: FinalCredentials)
        requires
            response.data.instance_servers.len() > 0,
        ensures
            (cred.token@, cred.endpoint@) == credentials_of(response),
    {
        let endpoint = response.data.instance_servers[0].endpoint.clone();
        FinalCredentials { token: response.data.token, endpoint }
    }
}

} // verus!
