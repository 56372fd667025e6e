use vstd::prelude::*;

use crate::oauth::{str_texts, OAuthProvider};
use crate::web::{join_url, joined_url, parse_url, parsed_url, url_result_text, UrlError};

verus! {

/// A project as listed by the TickTick API.
#[derive(Debug, Clone)]
pub struct ProjectSummary {
    pub id: String,
    pub name: String,
}

/// A task as listed inside a project by the TickTick API.
#[derive(Debug, Clone)]
pub struct TaskSummary {
    pub id: String,
    pub title: String,
    /// 0 while the task is open, anything else once it is completed.
    pub status: i32,
}

/// The data of one project: its tasks.
#[derive(Debug, Clone)]
pub struct ProjectData {
    pub tasks: Vec<TaskSummary>,
}

} // verus!

verus! {

/// Where TickTick users authorize this client.
pub const AUTH_URL: &'static str = "https://ticktick.com/oauth/authorize";

/// Where the authorization code is exchanged for a token.
pub const TOKEN_URL: &'static str = "https://ticktick.com/oauth/token";

/// The root of the TickTick Open API.
pub const BASE_URL: &'static str = "https://api.ticktick.com/open/v1";

/// The scopes this client asks for, joined with a space.
pub open spec fn ticktick_scopes() -> Seq<Seq<char>> {
    seq!["tasks:read"@, "tasks:write"@]
}

/// The TickTick authorization server.
pub struct TickTickOAuthProvider;

impl OAuthProvider for TickTickOAuthProvider {
    fn authorize_url(&self) -> (r: &str)
        ensures
            r@ == AUTH_URL@,
    {
        AUTH_URL
    }

    fn token_url(&self) -> (r: &str)
        ensures
            r@ == TOKEN_URL@,
    {
        TOKEN_URL
    }

    fn scopes(&self) -> (r: &[&str])
        ensures
            str_texts(r@) == ticktick_scopes(),
    {
        let r: &[&str] = &["tasks:read", "tasks:write"];
        assert(str_texts(r@) =~= ticktick_scopes());
        r
    }
}

/// The text with a `/` at its end, added when it is not there already.
pub open spec fn with_trailing_slash(s: Seq<char>) -> Seq<char> {
    if s.len() > 0 && s.last() == '/' {
        s
    } else {
        s.push('/')
    }
}

/// The text keeps its characters and ends with `/`: a `/` is added only
/// when it is not there already, so adding it a second time changes nothing.
pub proof fn lemma_trailing_slash_idempotent(s: Seq<char>)
    ensures
        with_trailing_slash(with_trailing_slash(s)) == with_trailing_slash(s),
        with_trailing_slash(s).len() > 0,
        with_trailing_slash(s).last() == '/',
        with_trailing_slash(s).subrange(0, s.len() as int) == s,
        (s.len() > 0 && s.last() == '/') ==> with_trailing_slash(s) == s,
        !(s.len() > 0 && s.last() == '/') ==> with_trailing_slash(s).len() == s.len() + 1,
{
    assert(with_trailing_slash(s).subrange(0, s.len() as int) =~= s);
}

/// The API root as a URL that ends with `/`, so that endpoint paths are
/// resolved below it.
pub struct ApiBase {
    url: String,
}

impl ApiBase {
    #[verifier::type_invariant]
    spec fn parses(self) -> bool {
        parsed_url(self.url@) is Ok
    }

    /// The root's text.
    pub closed spec fn text(self) -> Seq<char> {
        self.url@
    }

    /// The root `base` with a trailing `/`; fails exactly when that text is
    /// not a URL.
    pub fn new(base: &str) -> (r: Result<ApiBase, UrlError>)
        ensures
            match parsed_url(with_trailing_slash(base@)) {
                Ok(_) => r is Ok && r->Ok_0.text() == with_trailing_slash(base@),
                Err(e) => r is Err && r->Err_0 == e,
            },
    {
        let n: usize = base.unicode_len();
        let mut text = String::from_str(base);
        if !(n > 0 && base.get_char(n - 1) == '/') {
            text.append("/");
            proof {
                reveal_strlit("/");
            }
        }
        assert(text@ == with_trailing_slash(base@));
        match parse_url(text.as_str()) {
            Ok(_) => Ok(ApiBase { url: text }),
            Err(e) => Err(e),
        }
    }

    /// The root's text.
    pub fn as_str(&self) -> (r: &str)
        ensures
            r@ == self.text(),
    {
        self.url.as_str()
    }

    /// The URL of `path` below the root.
    pub fn endpoint(&self, path: &str) -> (r: Result<String, UrlError>)
        ensures
            url_result_text(r) == joined_url(self.text(), path@),
    {
        proof {
            use_type_invariant(self);
        }
        join_url(self.url.as_str(), path)
    }

    /// The URL that lists the user's projects.
    pub fn projects_url(&self) -> (r: Result<String, UrlError>)
        ensures
            url_result_text(r) == joined_url(self.text(), "project"@),
    {
        self.endpoint("project")
    }

    /// The URL of the data (the tasks) of project `project_id`.
    pub fn project_data_url(&self, project_id: &str) -> (r: Result<String, UrlError>)
        ensures
            url_result_text(r) == joined_url(self.text(), "project/"@ + project_id@ + "/data"@),
    {
        let mut path = String::from_str("project/");
        path.append(project_id);
        path.append("/data");
        self.endpoint(path.as_str())
    }

    /// The URL of task `task_id` of project `project_id`.
    pub fn task_url(&self, project_id: &str, task_id: &str) -> (r: Result<String, UrlError>)
        ensures
            url_result_text(r) == joined_url(
                self.text(),
                "project/"@ + project_id@ + "/task/"@ + task_id@,
            ),
    {
        let mut path = String::from_str("project/");
        path.append(project_id);
        path.append("/task/");
        path.append(task_id);
        self.endpoint(path.as_str())
    }
}

} // verus!
