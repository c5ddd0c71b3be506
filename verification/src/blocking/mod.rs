//! The client for callers that wait for each exchange to complete.

use vstd::prelude::*;

use crate::endpoint;
use crate::endpoint::{
    bot_path, page_params, plain_get, search_params, stats_built, user_path, vote_check_built,
    widget_built,
};
use crate::error::ClientError;
use crate::model::{WidgetQuery, WidgetType};
use crate::request::{built, Method, Request};

verus! {

/// The client for callers that block during the exchange.
pub struct Client {
    authorization: &'static str,
}

impl Client {
    /// The access token the client was made with.
    pub closed spec fn token(&self) -> Seq<char> {
        self.authorization@
    }

    /// A client that authenticates with the given access token.
    pub fn new(authorization: &'static str) -> (client: Self)
        ensures
            client.token() == authorization@,
    {
        Self { authorization }
    }

    /// The request that fetches a bot by id: a plain read of `bots/{id}`,
    /// without query string, headers or body.
    pub fn get_bot(&self, bot_id: &str) -> (request: Request)
        ensures
            request@ == plain_get(bot_path(bot_id@)),
    {
        endpoint::bot(bot_id)
    }

    /// The request that searches bots by free text: a read of `search/bots`
    /// with the text and the page, the first where none is given.
    pub fn search_bot(&self, search: &str, page: Option<usize>) -> (r: Result<
        Request,
        ClientError,
    >)
        ensures
            built(Method::Get, "search/bots"@, None, Some(search_params(search@, page)), None, r),
    {
        endpoint::search(search, page)
    }

    /// The request that lists bots by vote rank: a read of `list/bots/votes`
    /// with the page, the first where none is given.
    pub fn get_votes_list(&self, page: Option<usize>) -> (r: Result<Request, ClientError>)
        ensures
            built(Method::Get, "list/bots/votes"@, None, Some(page_params(page)), None, r),
    {
        endpoint::votes_list(page)
    }

    /// The request that lists the newest bots: a plain read of
    /// `list/bots/new`.
    pub fn get_new_bot_list(&self) -> (request: Request)
        ensures
            request@ == plain_get("list/bots/new"@),
    {
        endpoint::new_bot_list()
    }

    /// The request that checks whether a user voted for a bot: an
    /// authenticated read of `bots/{id}/vote` with the user's id.
    pub fn get_vote_check(&self, bot_id: &str, user_id: &str) -> (r: Result<Request, ClientError>)
        ensures
            vote_check_built(self.token(), bot_id@, user_id@, r),
    {
        endpoint::vote_check(self.authorization, bot_id, user_id)
    }

    /// The request that reports a bot's server count: an authenticated post
    /// to `bots/{id}/stats`.
    pub fn update_servers(&self, bot_id: &str, servers: usize) -> (r: Result<Request, ClientError>)
        ensures
            stats_built(self.token(), bot_id@, Some(servers), None, r),
    {
        endpoint::stats(self.authorization, bot_id, Some(servers), None)
    }

    /// The request that fetches a user's profile: a plain read of
    /// `users/{id}`.
    pub fn get_user(&self, user_id: &str) -> (request: Request)
        ensures
            request@ == plain_get(user_path(user_id@)),
    {
        endpoint::user(user_id)
    }

    /// The URL of a bot's widget image, with the options, if any are given,
    /// as its query string, in the form a URL parser serializes it to.
    /// Nothing is fetched.
    pub fn get_bot_widget(
        &self,
        bot_id: &str,
        widget_type: WidgetType,
        widget_query: Option<WidgetQuery>,
    ) -> (r: Result<String, ClientError>)
        ensures
            widget_built(
                bot_id@,
                widget_type,
                match widget_query {
                    Some(q) => Some(q@),
                    None => None,
                },
                r,
            ),
    {
        endpoint::bot_widget(bot_id, widget_type, widget_query)
    }
}

} // verus!
