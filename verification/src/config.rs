//! Configuration: credential resolution with placeholder fallbacks, the
//! fixed pipeline defaults, and the fully determined fetch request.

use vstd::prelude::*;

verus! {

/// The three run inputs. Each is optional on the command line; a missing
/// one falls back to a placeholder literal matching its own name, so that
/// resolution itself never fails and invalid values surface downstream.
pub struct Args {
    pub gh_token: String,
    pub notion_token: String,
    pub notion_database_id: String,
}

/// What a resolved credential is: the given value, or the fallback.
pub open spec fn resolved(given: Option<String>, fallback: Seq<char>) -> Seq<char> {
    match given {
        Some(s) => s@,
        None => fallback,
    }
}

/// Resolves the three optional inputs, substituting each one's
/// placeholder literal when it is absent. Performs no validation.
pub fn resolve_args(
    gh_token: Option<String>,
    notion_token: Option<String>,
    notion_database_id: Option<String>,
) -> (args: Args)
    ensures
        args.gh_token@ == resolved(gh_token, "gh_token"@),
        args.notion_token@ == resolved(notion_token, "notion_token"@),
        args.notion_database_id@ == resolved(notion_database_id, "notion_database_id"@),
{
    Args {
        gh_token: match gh_token {
            Some(s) => s,
            None => String::from_str("gh_token"),
        },
        notion_token: match notion_token {
            Some(s) => s,
            None => String::from_str("notion_token"),
        },
        notion_database_id: match notion_database_id {
            Some(s) => s,
            None => String::from_str("notion_database_id"),
        },
    }
}

/// The fixed targets of a run: where to query, where to write, where to
/// publish. Defaults below reproduce the pipeline's standing configuration.
pub struct Config {
    pub target_repo_url: String,
    pub api_base_url: String,
    pub output_path: String,
    pub clone_path: String,
}

/// The standing configuration: the destination repository, the content
/// API base, the page output directory inside the working copy, and the
/// working copy's own path.
pub fn default_config() -> (c: Config)
    ensures
        c.target_repo_url@ == "https://github.com/Almo7aya/almo7aya.github.io.git"@,
        c.api_base_url@ == "https://api.notion.com/v1/databases/"@,
        c.output_path@ == "dist/content/reading/"@,
        c.clone_path@ == "dist/"@,
{
    Config {
        target_repo_url: String::from_str("https://github.com/Almo7aya/almo7aya.github.io.git"),
        api_base_url: String::from_str("https://api.notion.com/v1/databases/"),
        output_path: String::from_str("dist/content/reading/"),
        clone_path: String::from_str("dist/"),
    }
}

/// One fully determined database query: the URL and every header value of
/// the single POST the fetch stage sends (its body is empty).
pub struct FetchRequest {
    pub url: String,
    pub api_version: String,
    pub authorization: String,
    pub accept: String,
    pub content_type: String,
}

/// Builds the query request for the given database: `<base><id>/query`,
/// a fixed API version, bearer authorization, and JSON accept and
/// content types.
pub fn build_fetch_request(api_base_url: &str, database_id: &str, token: &str) -> (r: FetchRequest)
    ensures
        r.url@ == api_base_url@ + database_id@ + "/query"@,
        r.api_version@ == "2022-06-28"@,
        r.authorization@ == "Bearer "@ + token@,
        r.accept@ == "application/json"@,
        r.content_type@ == "application/json"@,
{
    let mut url = String::from_str(api_base_url);
    url.append(database_id);
    url.append("/query");
    let mut authorization = String::from_str("Bearer ");
    authorization.append(token);
    FetchRequest {
        url,
        api_version: String::from_str("2022-06-28"),
        authorization,
        accept: String::from_str("application/json"),
        content_type: String::from_str("application/json"),
    }
}

} // verus!
