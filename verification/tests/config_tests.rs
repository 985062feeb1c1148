use reading_sync::config::{build_fetch_request, default_config, resolve_args};

#[test]
fn missing_arguments_fall_back_to_placeholders() {
    let args = resolve_args(None, None, None);
    assert_eq!(args.gh_token, "gh_token");
    assert_eq!(args.notion_token, "notion_token");
    assert_eq!(args.notion_database_id, "notion_database_id");
}

#[test]
fn given_arguments_are_kept() {
    let args = resolve_args(
        Some(String::from("g")),
        Some(String::from("n")),
        Some(String::from("d")),
    );
    assert_eq!(args.gh_token, "g");
    assert_eq!(args.notion_token, "n");
    assert_eq!(args.notion_database_id, "d");
}

#[test]
fn default_config_targets_are_fixed() {
    let cfg = default_config();
    assert_eq!(cfg.target_repo_url, "https://github.com/Almo7aya/almo7aya.github.io.git");
    assert_eq!(cfg.api_base_url, "https://api.notion.com/v1/databases/");
    assert_eq!(cfg.output_path, "dist/content/reading/");
    assert_eq!(cfg.clone_path, "dist/");
}

#[test]
fn fetch_request_is_fully_determined() {
    let r = build_fetch_request("https://api.notion.com/v1/databases/", "db123", "secret");
    assert_eq!(r.url, "https://api.notion.com/v1/databases/db123/query");
    assert_eq!(r.api_version, "2022-06-28");
    assert_eq!(r.authorization, "Bearer secret");
    assert_eq!(r.accept, "application/json");
    assert_eq!(r.content_type, "application/json");
}
