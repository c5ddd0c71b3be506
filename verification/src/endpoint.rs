//! One builder per remote operation: the fixed path, the fixed parameter
//! mapping, and the defaults. Both clients build their requests here.

use vstd::prelude::*;
use vstd::string::*;

use crate::error::ClientError;
use crate::model::{WidgetQuery, WidgetQueryView, WidgetType};
use crate::params::{Pairs, Params};
use crate::request::{
    auth_headers, authorized_headers, built, direct, is_header_value, plain_url, prepare,
    prepared, resolve, resolved, target, Method, Request, RequestView,
};
use crate::text::{decimal, decimal_text, join};

verus! {

/// The request of a public read without parameters.
pub open spec fn plain_get(path: Seq<char>) -> RequestView {
    prepared(Method::Get, plain_url(path), None, None)
}

/// The page to ask for, as text: the given one, or the first.
pub open spec fn page_text(page: Option<usize>) -> Seq<char> {
    match page {
        Some(p) => decimal(p as nat),
        None => "1"@,
    }
}

/// Path of a bot's record.
pub open spec fn bot_path(bot_id: Seq<char>) -> Seq<char> {
    "bots/"@ + bot_id
}

/// Path of the vote check of a bot.
pub open spec fn vote_path(bot_id: Seq<char>) -> Seq<char> {
    "bots/"@ + bot_id + "/vote"@
}

/// Path of the statistics of a bot.
pub open spec fn stats_path(bot_id: Seq<char>) -> Seq<char> {
    "bots/"@ + bot_id + "/stats"@
}

/// Path of a user's profile.
pub open spec fn user_path(user_id: Seq<char>) -> Seq<char> {
    "users/"@ + user_id
}

/// Path of a bot's widget image.
pub open spec fn widget_path(widget_type: WidgetType, bot_id: Seq<char>) -> Seq<char> {
    "widget/bots/"@ + widget_type.name() + "/"@ + bot_id + ".svg"@
}

/// Parameters of a search.
pub open spec fn search_params(search: Seq<char>, page: Option<usize>) -> Pairs {
    seq![("query"@, search), ("page"@, page_text(page))]
}

/// Parameters of a paginated list.
pub open spec fn page_params(page: Option<usize>) -> Pairs {
    seq![("page"@, page_text(page))]
}

/// Parameters of a vote check.
pub open spec fn vote_params(user_id: Seq<char>) -> Pairs {
    seq![("userID"@, user_id)]
}

/// Parameters that carry the options of a widget, defaults filled in.
pub open spec fn widget_params(query: WidgetQueryView) -> Pairs {
    seq![
        ("style"@, query.style_name()),
        ("icon"@, query.icon_name()),
        ("scale"@, query.scale_value().text),
    ]
}

/// The count a statistics update reports: the server count where one is
/// given, else the shard count, else nothing.
pub open spec fn stats_body(servers: Option<usize>, shards: Option<usize>) -> Option<Pairs> {
    match servers {
        Some(n) => Some(seq![("servers"@, decimal(n as nat))]),
        None => match shards {
            Some(n) => Some(seq![("shards"@, decimal(n as nat))]),
            None => None,
        },
    }
}

/// Whether `r` is the outcome of building a statistics update: the token
/// must be fit for a header, and a count must be given.
pub open spec fn stats_built(
    token: Seq<char>,
    bot_id: Seq<char>,
    servers: Option<usize>,
    shards: Option<usize>,
    r: Result<Request, ClientError>,
) -> bool {
    if !is_header_value(token) {
        r == Err::<Request, ClientError>(ClientError::InvalidToken)
    } else if stats_body(servers, shards) is None {
        r == Err::<Request, ClientError>(ClientError::MissingParameter)
    } else {
        r is Ok && r->Ok_0@ == prepared(
            Method::Post,
            plain_url(stats_path(bot_id)),
            Some(auth_headers(token)),
            stats_body(servers, shards),
        )
    }
}

/// Whether `r` is the outcome of building a vote check.
pub open spec fn vote_check_built(
    token: Seq<char>,
    bot_id: Seq<char>,
    user_id: Seq<char>,
    r: Result<Request, ClientError>,
) -> bool {
    if !is_header_value(token) {
        r == Err::<Request, ClientError>(ClientError::InvalidToken)
    } else {
        built(
            Method::Get,
            vote_path(bot_id),
            Some(auth_headers(token)),
            Some(vote_params(user_id)),
            None,
            r,
        )
    }
}

/// Whether `r` is the outcome of building a widget URL: the address of the
/// image, with the options, if any are given, as its query string, parsed
/// and given back in its serialized form.
pub open spec fn widget_built(
    bot_id: Seq<char>,
    widget_type: WidgetType,
    query: Option<WidgetQueryView>,
    r: Result<String, ClientError>,
) -> bool {
    let params = match query {
        Some(q) => Some(widget_params(q)),
        None => None,
    };
    match target(widget_path(widget_type, bot_id), params) {
        Some(url) => resolved(url, r),
        None => r == Err::<String, ClientError>(ClientError::InvalidUrl),
    }
}

/// The page to ask for, as text.
pub fn page_value(page: Option<usize>) -> (text: String)
    ensures
        text@ == page_text(page),
{
    match page {
        Some(p) => decimal_text(p),
        None => String::from_str("1"),
    }
}

/// Fetch a bot by id.
pub fn bot(bot_id: &str) -> (request: Request)
    ensures
        request@ == plain_get(bot_path(bot_id@)),
{
    let path = join("bots/", bot_id);
    direct(Method::Get, path.as_str(), None, None)
}

/// Search bots by free text, one page at a time.
pub fn search(words: &str, page: Option<usize>) -> (r: Result<Request, ClientError>)
    ensures
        built(Method::Get, "search/bots"@, None, Some(search_params(words@, page)), None, r),
{
    let mut query = Params::new();
    query.insert("query", String::from_str(words));
    proof {
        reveal_strlit("query");
        reveal_strlit("page");
        assert("query"@.len() != "page"@.len());
    }
    query.insert("page", page_value(page));
    assert(query@ =~= search_params(words@, page));
    prepare(Method::Get, "search/bots", None, Some(query), None)
}

/// List bots by vote rank, one page at a time.
pub fn votes_list(page: Option<usize>) -> (r: Result<Request, ClientError>)
    ensures
        built(Method::Get, "list/bots/votes"@, None, Some(page_params(page)), None, r),
{
    let mut query = Params::new();
    query.insert("page", page_value(page));
    assert(query@ =~= page_params(page));
    prepare(Method::Get, "list/bots/votes", None, Some(query), None)
}

/// List the newest bots.
pub fn new_bot_list() -> (request: Request)
    ensures
        request@ == plain_get("list/bots/new"@),
{
    direct(Method::Get, "list/bots/new", None, None)
}

/// Check whether a user has voted for a bot.
pub fn vote_check(token: &str, bot_id: &str, user_id: &str) -> (r: Result<Request, ClientError>)
    ensures
        vote_check_built(token@, bot_id@, user_id@, r),
{
    let headers = match authorized_headers(token) {
        Ok(h) => h,
        Err(e) => {
            return Err(e);
        },
    };
    let mut query = Params::new();
    query.insert("userID", String::from_str(user_id));
    assert(query@ =~= vote_params(user_id@));
    let mut path = join("bots/", bot_id);
    path.append("/vote");
    prepare(Method::Get, path.as_str(), Some(headers), Some(query), None)
}

/// Report a bot's server count, or its shard count where no server count
/// is given.
pub fn stats(token: &str, bot_id: &str, servers: Option<usize>, shards: Option<usize>) -> (r:
    Result<Request, ClientError>)
    ensures
        stats_built(token@, bot_id@, servers, shards, r),
{
    let headers = match authorized_headers(token) {
        Ok(h) => h,
        Err(e) => {
            return Err(e);
        },
    };
    let mut json = Params::new();
    match servers {
        Some(n) => json.insert("servers", decimal_text(n)),
        None => match shards {
            Some(n) => json.insert("shards", decimal_text(n)),
            None => {
                return Err(ClientError::MissingParameter);
            },
        },
    }
    assert(Some(json@) =~= stats_body(servers, shards));
    let mut path = join("bots/", bot_id);
    path.append("/stats");
    Ok(direct(Method::Post, path.as_str(), Some(headers), Some(json)))
}

/// Fetch a user's profile by id.
pub fn user(user_id: &str) -> (request: Request)
    ensures
        request@ == plain_get(user_path(user_id@)),
{
    let path = join("users/", user_id);
    direct(Method::Get, path.as_str(), None, None)
}

/// Build the URL of a bot's widget image.
pub fn bot_widget(bot_id: &str, widget_type: WidgetType, widget_query: Option<WidgetQuery>) -> (r:
    Result<String, ClientError>)
    ensures
        widget_built(
            bot_id@,
            widget_type,
            match widget_query {
                Some(q) => Some(q@),
                None => None,
            },
            r,
        ),
{
    let query = match &widget_query {
        Some(q) => {
            let mut query = Params::new();
            query.insert("style", String::from_str(q.to_style()));
            proof {
                reveal_strlit("style");
                reveal_strlit("icon");
                reveal_strlit("scale");
                assert("style"@.len() != "icon"@.len());
                assert("style"@[1] != "scale"@[1]);
                assert("icon"@.len() != "scale"@.len());
            }
            query.insert("icon", String::from_str(q.to_icon()));
            query.insert("scale", q.to_scale().text);
            assert(query@ =~= widget_params(q@));
            Some(query)
        },
        None => None,
    };
    let mut path = join("widget/bots/", widget_type.to_string().as_str());
    path.append("/");
    path.append(bot_id);
    path.append(".svg");
    assert(path@ =~= widget_path(widget_type, bot_id@));
    match prepare(Method::Get, path.as_str(), None, query, None) {
        Ok(request) => resolve(request.url.as_str()),
        Err(e) => Err(e),
    }
}

/// A call without a page asks for page `1`, as a call for page one does.
pub proof fn page_defaults_to_first(words: Seq<char>)
    ensures
        page_text(None) == "1"@,
        page_text(None) == page_text(Some(1)),
        search_params(words, None) == search_params(words, Some(1)),
        page_params(None) == page_params(Some(1)),
{
    reveal_strlit("1");
    assert("1"@ =~= decimal(1));
}

/// Fetching a bot asks for the base address, `/bots/` and the id, with
/// nothing before, between or after; without headers and without a body.
/// Where the id holds no question mark, the URL holds none: there is no
/// query string.
pub proof fn bot_url_is_base_and_id(bot_id: Seq<char>)
    ensures
        plain_get(bot_path(bot_id)).url == "https://koreanbots.dev/api/v2/bots/"@ + bot_id,
        plain_get(bot_path(bot_id)).method == Method::Get,
        plain_get(bot_path(bot_id)).headers.len() == 0,
        plain_get(bot_path(bot_id)).body is None,
        !bot_id.contains('?') ==> !plain_get(bot_path(bot_id)).url.contains('?'),
{
    reveal_strlit("https://koreanbots.dev/api/v2");
    reveal_strlit("/");
    reveal_strlit("bots/");
    reveal_strlit("https://koreanbots.dev/api/v2/bots/");
    let prefix = "https://koreanbots.dev/api/v2/bots/"@;
    let url = plain_get(bot_path(bot_id)).url;
    assert(url =~= prefix + bot_id);
    assert(!prefix.contains('?'));
    if !bot_id.contains('?') {
        assert forall|i: int| 0 <= i < url.len() implies url[i] != '?' by {
            if i >= prefix.len() {
                assert(bot_id.contains(bot_id[i - prefix.len()]));
            } else {
                assert(prefix.contains(prefix[i]));
            }
        }
    }
}

} // verus!
