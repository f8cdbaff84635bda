use scaffold_core::cli::action_after_confirm;
use scaffold_core::cli::action_for_missing;
use scaffold_core::cli::apply_service_suffix;
use scaffold_core::cli::choose_method_name;
use scaffold_core::cli::clean_file_name;
use scaffold_core::cli::join_path;
use scaffold_core::cli::language_from_selection;
use scaffold_core::cli::parse_language;
use scaffold_core::cli::MissingDirsAction;
use scaffold_core::ensure::plan_missing;
use scaffold_core::generator::generate_controller_template;
use scaffold_core::generator::generate_service_template;
use scaffold_core::generator::source_file_path;
use scaffold_core::generator::to_pascal_case;
use scaffold_core::i18n::I18n;
use scaffold_core::i18n::Language;
use scaffold_core::listing::list_child_dirs;
use scaffold_core::listing::DirEntry;
use scaffold_core::navigate::navigate_tree;
use scaffold_core::navigate::DirTree;
use scaffold_core::navigate::NavState;
use scaffold_core::navigate::Subdir;
use scaffold_core::registry::merge_registry;
use scaffold_core::registry::registration_line;
use scaffold_core::registry::registry_file_path;
use scaffold_core::text::contains_str;
use scaffold_core::text::join_with;
use scaffold_core::text::str_le;

#[test]
fn test_to_pascal_case() {
    assert_eq!(to_pascal_case("user_profile"), "UserProfile");
    assert_eq!(to_pascal_case("test"), "Test");
    assert_eq!(to_pascal_case("my_api_controller"), "MyApiController");
}

#[test]
fn pascal_case_edges() {
    assert_eq!(to_pascal_case(""), "");
    assert_eq!(to_pascal_case("_"), "");
    assert_eq!(to_pascal_case("a__b"), "AB");
    assert_eq!(to_pascal_case("_leading"), "Leading");
    assert_eq!(to_pascal_case("trailing_"), "Trailing");
}

fn entry(name: &str, is_dir: bool) -> DirEntry {
    DirEntry { name: String::from(name), is_dir }
}

#[test]
fn listing_is_sorted_and_dirs_only() {
    let entries = vec![
        entry("zeta", true),
        entry("notes.txt", false),
        entry("alpha", true),
        entry("midway", true),
        entry("readme.md", false),
    ];
    let r = list_child_dirs(entries);
    assert_eq!(r, vec!["alpha".to_string(), "midway".to_string(), "zeta".to_string()]);
}

#[test]
fn listing_of_files_only_is_empty() {
    let entries = vec![entry("a.rs", false), entry("b.rs", false)];
    assert!(list_child_dirs(entries).is_empty());
}

fn leaf(name: &str) -> Subdir {
    Subdir { name: String::from(name), tree: DirTree { children: vec![] } }
}

#[test]
fn navigation_follows_choices() {
    let tree = DirTree {
        children: vec![
            Subdir {
                name: String::from("api"),
                tree: DirTree { children: vec![leaf("v1"), leaf("v2")] },
            },
            leaf("web"),
        ],
    };
    // descend into "api", then into its second child "v2", then done
    assert_eq!(navigate_tree(&tree, &vec![1, 2, 0]), "api/v2");
    // done immediately at the base: empty relative path
    assert_eq!(navigate_tree(&tree, &vec![0]), "");
    // descend into "web": a leaf, so navigation ends without another choice
    assert_eq!(navigate_tree(&tree, &vec![2, 1, 1]), "web");
}

#[test]
fn navigation_at_leaf_needs_no_choice() {
    let tree = DirTree { children: vec![] };
    assert_eq!(navigate_tree(&tree, &vec![]), "");
    assert_eq!(navigate_tree(&tree, &vec![1, 1]), "");
}

#[test]
fn nav_state_tracks_position() {
    let mut state = NavState::at_base();
    assert_eq!(state.display_path("service"), "service/");
    let children = vec![String::from("admin")];
    let done = state.apply_selection(&children, 1);
    assert!(!done);
    assert_eq!(state.display_path("service"), "service/admin/");
    assert_eq!(state.relative_path(), "admin");
    let done = state.apply_selection(&vec![String::from("x")], 0);
    assert!(done);
    assert_eq!(state.relative_path(), "admin");
}

#[test]
fn registry_first_registration_creates_line() {
    let r = merge_registry(None, "alpha");
    assert!(r.changed);
    assert_eq!(r.content, "pub mod alpha;\n");
    assert_eq!(registration_line("alpha"), "pub mod alpha;\n");
}

#[test]
fn registry_is_idempotent() {
    let first = merge_registry(None, "foo");
    let second = merge_registry(Some(first.content.as_str()), "foo");
    assert!(!second.changed);
    assert_eq!(second.content, first.content);
}

#[test]
fn registry_appends_in_order() {
    let first = merge_registry(None, "foo");
    let second = merge_registry(Some(first.content.as_str()), "bar");
    assert!(second.changed);
    assert_eq!(second.content, "pub mod foo;\npub mod bar;\n");
    let foo_at = second.content.find("pub mod foo;").unwrap();
    let bar_at = second.content.find("pub mod bar;").unwrap();
    assert!(foo_at < bar_at);
}

#[test]
fn registry_keeps_existing_content() {
    let existing = "// handwritten header\npub mod old_one;\n";
    let merged = merge_registry(Some(existing), "new_one");
    assert!(merged.changed);
    assert_eq!(merged.content, "// handwritten header\npub mod old_one;\npub mod new_one;\n");
    let unchanged = merge_registry(Some(existing), "old_one");
    assert!(!unchanged.changed);
    assert_eq!(unchanged.content, existing);
}

#[test]
fn scenario_navigate_then_register() {
    // base="/proj/service", one child "admin" with no further children
    let tree = DirTree { children: vec![leaf("admin")] };
    let rel = navigate_tree(&tree, &vec![1]);
    assert_eq!(rel, "admin");
    let target = join_path("/proj/service", rel.as_str());
    assert_eq!(target, "/proj/service/admin");
    // an empty directory: no registry yet
    let first = merge_registry(None, "user_hsk_service");
    assert_eq!(first.content, "pub mod user_hsk_service;\n");
    let second = merge_registry(Some(first.content.as_str()), "user_hsk_service");
    assert!(!second.changed);
    assert_eq!(second.content, first.content);
    assert_eq!(registry_file_path(target.as_str()), "/proj/service/admin/mod.rs");
}

#[test]
fn planning_missing_directories() {
    let required = vec![String::from("/p/controller"), String::from("/p/service")];
    // everything already exists: nothing to create
    let none_missing = plan_missing(&required, &vec![true, true]);
    assert!(none_missing.is_empty());
    // a mix: exactly the absent one is planned
    let one_missing = plan_missing(&required, &vec![true, false]);
    assert_eq!(one_missing, vec![String::from("/p/service")]);
    let both_missing = plan_missing(&required, &vec![false, false]);
    assert_eq!(both_missing, required);
}

#[test]
fn service_template_exact() {
    let text = generate_service_template("do_work");
    let expected = "use sea_orm::DatabaseConnection;\nuse error_crate::api_error::ApiResult;\n\npub async fn do_work(\n    conn: &DatabaseConnection,\n    domain: &str,\n) -> ApiResult<()> {\n    // Add your service logic here\n    \n    Ok(())\n}\n";
    assert_eq!(text, expected);
}

#[test]
fn controller_template_wires_names() {
    let text = generate_controller_template("user_profile", "get_profile", "user_service");
    assert!(text.starts_with("use axum::extract::Query;\n"));
    assert!(text.contains("use service_admin_chinese_hsk::user_service;\n"));
    assert!(text.contains("pub struct UserProfileRequest {\n"));
    assert!(text.contains("pub struct UserProfileResponse {\n"));
    assert!(text.contains("pub async fn get_profile(\n"));
    assert!(text.contains("SafeJson(body): SafeJson<UserProfileRequest>,\n"));
    assert!(text.contains("let res = user_service::get_profile(&state.conn, &domain).await?;\n"));
    assert!(text.ends_with("Ok(ApiResponse::success(result).to_json())\n}\n"));
}

#[test]
fn language_codes() {
    assert_eq!(Language::from_str("zh"), Language::Zh);
    assert_eq!(Language::from_str("ZH"), Language::Zh);
    assert_eq!(Language::from_str("en"), Language::En);
    assert_eq!(Language::from_str("fr"), Language::En);
    assert_eq!(parse_language("en"), Some(Language::En));
    assert_eq!(parse_language("zh"), Some(Language::Zh));
    assert_eq!(parse_language("Zh"), None);
    assert_eq!(parse_language("de"), None);
    assert_eq!(language_from_selection(0), Language::En);
    assert_eq!(language_from_selection(1), Language::Zh);
    assert_eq!(language_from_selection(7), Language::En);
}

#[test]
fn messages_in_both_languages() {
    let en = I18n::new(Language::En);
    let zh = I18n::new(Language::Zh);
    assert_eq!(en.target_not_found(), "Target directory not found");
    assert_eq!(zh.target_not_found(), "目标目录不存在");
    assert_eq!(en.done_option(), "✓ Done (create file here)");
    assert_eq!(zh.current_path(), "当前路径");
    assert_eq!(en.file_created("/tmp/a.rs"), "✓ Created: /tmp/a.rs");
    assert_eq!(zh.mod_updated("m"), "✓ 已更新: m");
    assert_eq!(
        I18n::invalid_language("xx"),
        "Invalid language: xx. Please choose 'en' or 'zh'."
    );
    assert_eq!(
        I18n::select_language_prompt(),
        "Please select a language / 请选择语言"
    );
    let dirs = vec![String::from("controller"), String::from("service")];
    assert_eq!(
        en.directories_not_found(&dirs),
        "Directory not found: controller, service"
    );
    assert_eq!(zh.directories_not_found(&dirs), "未找到目录: controller, service");
    assert_eq!(en.create_directories_option(&dirs), "Create controller, service directories");
    assert_eq!(zh.task_cancelled(&dirs), "用户放弃创建: controller, service");
}

#[test]
fn prompt_decisions() {
    assert_eq!(action_for_missing(0), MissingDirsAction::Create);
    assert_eq!(action_for_missing(1), MissingDirsAction::ConfirmCancel);
    assert_eq!(action_for_missing(2), MissingDirsAction::End);
    assert_eq!(action_after_confirm(0), MissingDirsAction::Create);
    assert_eq!(action_after_confirm(1), MissingDirsAction::End);
}

#[test]
fn entered_names_are_cleaned() {
    assert_eq!(clean_file_name("  user  "), "user");
    assert_eq!(clean_file_name("user"), "user");
    assert_eq!(choose_method_name("  get_all  ", "user"), "get_all");
    assert_eq!(choose_method_name("   ", "user"), "user");
    assert_eq!(choose_method_name("", "user"), "user");
}

#[test]
fn name_and_path_building() {
    assert_eq!(apply_service_suffix("user", true), "user_service");
    assert_eq!(apply_service_suffix("user", false), "user");
    assert_eq!(join_path("/proj/controller", "admin"), "/proj/controller/admin");
    assert_eq!(source_file_path("/proj/service/admin", "user"), "/proj/service/admin/user.rs");
}

#[test]
fn text_helpers() {
    assert!(contains_str("pub mod a;\npub mod b;\n", "pub mod b"));
    assert!(!contains_str("pub mod ab;\n", "pub mod b"));
    assert!(contains_str("anything", ""));
    assert!(str_le("alpha", "beta"));
    assert!(str_le("alpha", "alpha"));
    assert!(!str_le("beta", "alpha"));
    assert!(str_le("alp", "alpha"));
    let parts = vec![String::from("a"), String::from("b"), String::from("c")];
    assert_eq!(join_with(&parts, "/"), "a/b/c");
    assert_eq!(join_with(&vec![], "/"), "");
    assert_eq!(join_with(&vec![String::from("solo")], ", "), "solo");
}
