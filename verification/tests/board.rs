use agent_bridge::dooray::authorization_value;
use agent_bridge::dooray::comment_outcome;
use agent_bridge::dooray::import_already_synced;
use agent_bridge::dooray::import_done;
use agent_bridge::dooray::import_no_detail;
use agent_bridge::dooray::import_not_found;
use agent_bridge::dooray::import_number_not_found;
use agent_bridge::dooray::project_code_or_default;
use agent_bridge::dooray::update_task_outcome;
use agent_bridge::dooray::comment_from_log;
use agent_bridge::dooray::group_tags;
use agent_bridge::dooray::mask_token;
use agent_bridge::dooray::masked_settings;
use agent_bridge::dooray::project_from_raw;
use agent_bridge::dooray::record_sync;
use agent_bridge::dooray::resolve_author_name;
use agent_bridge::dooray::settings_from_request;
use agent_bridge::dooray::status_for_workflow_class;
use agent_bridge::dooray::DoorayComment;
use agent_bridge::dooray::DoorayTagItem;
use agent_bridge::dooray::DooraySettings;
use agent_bridge::dooray::SaveSettingsRequest;
use agent_bridge::dooray::SyncResult;
use agent_bridge::mentions::build_mention_html;
use agent_bridge::mentions::extract_task_ids;
use agent_bridge::mentions::html_escape;
use agent_bridge::mentions::replace_task_urls;
use agent_bridge::mentions::TaskMentionInfo;
use agent_bridge::tasks::agent_working_dir;
use agent_bridge::tasks::dooray_branch_name;
use agent_bridge::tasks::format_task_number;
use agent_bridge::tasks::format_task_number_or_id;
use agent_bridge::tasks::merge_task_update;
use agent_bridge::tasks::CreateTask;
use agent_bridge::tasks::Task;
use agent_bridge::tasks::TaskStatus;
use agent_bridge::tasks::UpdateTask;
use agent_bridge::text::assoc_lookup;
use agent_bridge::text::i64_to_string;
use agent_bridge::text::starts_with;
use agent_bridge::text::trim_text;
use agent_bridge::text::u64_to_string;

fn sample_task() -> Task {
    Task {
        id: "t1".to_string(),
        project_id: "p1".to_string(),
        title: "Title".to_string(),
        description: Some("Desc".to_string()),
        status: TaskStatus::Todo,
        parent_workspace_id: None,
        created_at_ms: 0,
        updated_at_ms: 0,
        dooray_task_id: None,
        dooray_project_id: None,
        dooray_task_number: None,
        design_session_id: None,
        reference_dooray_url: None,
    }
}

#[test]
fn short_tokens_are_fully_starred() {
    assert_eq!(mask_token(""), "");
    assert_eq!(mask_token("abc"), "***");
    assert_eq!(mask_token("abcdefgh"), "********");
}

#[test]
fn long_tokens_keep_only_their_ends() {
    assert_eq!(mask_token("abcdefghi"), "abcd...fghi");
    assert_eq!(mask_token("0123456789abcdef"), "0123...cdef");
}

#[test]
fn settings_are_masked_without_touching_other_fields() {
    let s = DooraySettings {
        id: "default".to_string(),
        dooray_token: "secret-token-value".to_string(),
        selected_project_id: Some("p".to_string()),
        selected_project_name: Some("PROJ".to_string()),
        selected_tag_ids: None,
        dooray_domain: Some("example.dooray.com".to_string()),
        member_id: Some("m1".to_string()),
        created_at_ms: 7,
        updated_at_ms: 8,
    };
    let m = masked_settings(&s);
    assert_eq!(m.dooray_token, "secr...alue");
    assert_eq!(m.selected_project_name, Some("PROJ".to_string()));
    assert_eq!(m.created_at_ms, 7);
}

#[test]
fn saved_settings_take_fields_from_the_request() {
    let req = SaveSettingsRequest {
        dooray_token: "tok".to_string(),
        selected_project_id: None,
        selected_project_name: None,
        dooray_domain: Some("d".to_string()),
    };
    let c = settings_from_request(req, Some("member-9".to_string()));
    assert_eq!(c.dooray_token, "tok");
    assert_eq!(c.selected_tag_ids, None);
    assert_eq!(c.member_id, Some("member-9".to_string()));
}

#[test]
fn authorization_value_adds_the_scheme_once() {
    assert_eq!(authorization_value("  abc  "), "dooray-api abc");
    assert_eq!(authorization_value("dooray-api xyz"), "dooray-api xyz");
}

#[test]
fn workflow_class_maps_to_board_status() {
    assert_eq!(
        status_for_workflow_class(&Some("working".to_string())),
        TaskStatus::InProgress
    );
    assert_eq!(
        status_for_workflow_class(&Some("registered".to_string())),
        TaskStatus::Todo
    );
    assert_eq!(
        status_for_workflow_class(&Some("backlog".to_string())),
        TaskStatus::Todo
    );
    assert_eq!(status_for_workflow_class(&None), TaskStatus::Todo);
}

#[test]
fn listed_projects_use_the_code_as_name() {
    let p = project_from_raw("i".to_string(), "CODE".to_string(), None);
    assert_eq!(p.name, "CODE");
    assert_eq!(p.code, "CODE");
}

#[test]
fn sync_counts_created_and_updated() {
    let mut r = SyncResult { created: 0, updated: 0, skipped: 0 };
    record_sync(&mut r, false);
    record_sync(&mut r, true);
    record_sync(&mut r, false);
    assert_eq!(r, SyncResult { created: 2, updated: 1, skipped: 0 });
}

#[test]
fn tags_are_grouped_in_order_of_first_sight() {
    let items = vec![
        DoorayTagItem {
            id: "t1".to_string(),
            name: "alpha".to_string(),
            group_id: Some("g1".to_string()),
            group_name: Some("Group One".to_string()),
            group_mandatory: Some(true),
            group_select_one: None,
        },
        DoorayTagItem {
            id: "t2".to_string(),
            name: "beta".to_string(),
            group_id: None,
            group_name: None,
            group_mandatory: None,
            group_select_one: None,
        },
        DoorayTagItem {
            id: "t3".to_string(),
            name: "gamma".to_string(),
            group_id: Some("g1".to_string()),
            group_name: Some("Group One".to_string()),
            group_mandatory: Some(true),
            group_select_one: Some(true),
        },
    ];
    let grouped = group_tags(&items);
    assert_eq!(grouped.tag_groups.len(), 2);
    let g1 = &grouped.tag_groups[0];
    assert_eq!(g1.id, "g1");
    assert_eq!(g1.name, Some("Group One".to_string()));
    assert!(g1.mandatory);
    assert!(!g1.select_one);
    assert_eq!(g1.tags.len(), 2);
    assert_eq!(g1.tags[0].name, "alpha");
    assert_eq!(g1.tags[1].name, "gamma");
    let g2 = &grouped.tag_groups[1];
    assert_eq!(g2.id, "ungrouped");
    assert_eq!(g2.tags.len(), 1);
    assert_eq!(g2.tags[0].name, "beta");
}

#[test]
fn author_name_resolution_prefers_the_log_entry() {
    let members = vec![
        ("m1".to_string(), "Alice Kim".to_string()),
        ("m1".to_string(), "Shadowed".to_string()),
        ("m2".to_string(), "Bo Lee".to_string()),
    ];
    assert_eq!(
        resolve_author_name(&Some("Direct".to_string()), &Some("m2".to_string()), &members),
        "Direct"
    );
    assert_eq!(
        resolve_author_name(&None, &Some("m1".to_string()), &members),
        "Alice Kim"
    );
    assert_eq!(resolve_author_name(&None, &Some("m9".to_string()), &members), "Unknown");
    assert_eq!(resolve_author_name(&None, &None, &members), "Unknown");
}

#[test]
fn first_pair_wins_in_association_lookup() {
    let pairs = vec![
        ("k".to_string(), "first".to_string()),
        ("k".to_string(), "second".to_string()),
    ];
    assert_eq!(assoc_lookup(&pairs, &"k".to_string()), Some("first".to_string()));
    assert_eq!(assoc_lookup(&pairs, &"missing".to_string()), None);
}

#[test]
fn comments_fill_missing_fields_with_empty_text() {
    let c = comment_from_log("c1".to_string(), None, None, "A".to_string());
    assert_eq!(
        c,
        DoorayComment {
            id: "c1".to_string(),
            author_name: "A".to_string(),
            content: "".to_string(),
            created_at: "".to_string(),
        }
    );
}

#[test]
fn task_prompt_includes_description_when_present() {
    let t = sample_task();
    assert_eq!(t.to_prompt(), "Title\n\nDesc");
    let mut blank = sample_task();
    blank.description = Some("   ".to_string());
    assert_eq!(blank.to_prompt(), "Title");
    let mut none = sample_task();
    none.description = None;
    assert_eq!(none.to_prompt(), "Title");
}

#[test]
fn create_task_from_title_description_starts_in_todo() {
    let c = CreateTask::from_title_description(
        "p1".to_string(),
        "T".to_string(),
        Some("D".to_string()),
    );
    assert_eq!(c.status, Some(TaskStatus::Todo));
    assert_eq!(c.image_ids, None);
    assert_eq!(c.dooray_task_id, None);
}

#[test]
fn merging_an_update_keeps_absent_fields() {
    let existing = sample_task();
    let patch = UpdateTask {
        title: None,
        description: None,
        status: Some(TaskStatus::Done),
        parent_workspace_id: None,
        image_ids: None,
    };
    let merged = merge_task_update(&existing, &patch);
    assert_eq!(merged.title, "Title");
    assert_eq!(merged.description, Some("Desc".to_string()));
    assert_eq!(merged.status, TaskStatus::Done);
}

#[test]
fn merging_a_blank_description_clears_it() {
    let existing = sample_task();
    let patch = UpdateTask {
        title: Some("New".to_string()),
        description: Some("   ".to_string()),
        status: None,
        parent_workspace_id: Some("w1".to_string()),
        image_ids: None,
    };
    let merged = merge_task_update(&existing, &patch);
    assert_eq!(merged.title, "New");
    assert_eq!(merged.description, None);
    assert_eq!(merged.status, TaskStatus::Todo);
    assert_eq!(merged.parent_workspace_id, Some("w1".to_string()));
}

#[test]
fn branch_name_uses_the_bare_ticket_number() {
    assert_eq!(dooray_branch_name("Notification-dev/123"), "feature/develop/123");
    assert_eq!(dooray_branch_name("456"), "feature/develop/456");
    assert_eq!(dooray_branch_name("a/b/789"), "feature/develop/789");
}

#[test]
fn working_dir_joins_the_configured_subdirectory() {
    assert_eq!(agent_working_dir("repo", &None), "repo");
    assert_eq!(agent_working_dir("repo", &Some("srv".to_string())), "repo/srv");
    assert_eq!(agent_working_dir("repo", &Some("/abs".to_string())), "/abs");
}

#[test]
fn task_numbers_are_code_slash_number() {
    assert_eq!(format_task_number("PROJ", 123), "PROJ/123");
    assert_eq!(format_task_number("P", 0), "P/0");
    assert_eq!(
        format_task_number_or_id("P", &Some(9), &"fallback".to_string()),
        "P/9"
    );
    assert_eq!(
        format_task_number_or_id("P", &None, &"fallback".to_string()),
        "P/fallback"
    );
}

#[test]
fn decimal_rendering_matches_the_standard_form() {
    assert_eq!(u64_to_string(0), "0");
    assert_eq!(u64_to_string(7), "7");
    assert_eq!(u64_to_string(1234567890123), "1234567890123");
    assert_eq!(i64_to_string(-45), "-45");
    assert_eq!(i64_to_string(i64::MIN), "-9223372036854775808");
    assert_eq!(i64_to_string(i64::MAX), "9223372036854775807");
}

#[test]
fn trimming_matches_the_standard_library() {
    for s in ["", "   ", " a b ", "\n\thello\r\n", "no-trim", "\u{3000}wide\u{00A0}"] {
        assert_eq!(trim_text(s), s.trim());
    }
    assert!(starts_with("dooray-api abc", "dooray-api "));
    assert!(!starts_with("doo", "dooray-api "));
}

#[test]
fn html_escaping_rewrites_the_four_special_characters() {
    assert_eq!(html_escape(r#"a&<>"b"#), "a&amp;&lt;&gt;&quot;b");
    assert_eq!(html_escape("plain"), "plain");
    assert_eq!(html_escape(""), "");
}

#[test]
fn mention_html_has_the_exact_anchor_shape() {
    let info = TaskMentionInfo {
        task_id: "111".to_string(),
        number: 42,
        subject: "Fix <it>".to_string(),
        workflow_class: "working".to_string(),
        project_id: "999".to_string(),
        project_code: "PROJ".to_string(),
    };
    assert_eq!(
        build_mention_html(&info),
        r#"<a class="dooray-flavored-html-mention task-reference working" href="/project/posts/111" title="working" target="_blank" rel="noopener noreferrer" data-dooray-href="dooray://999/tasks/111" data-id="111">PROJ/42 | Fix &lt;it&gt;</a>"#
    );
}

#[test]
fn task_urls_are_found_in_both_shapes_without_repetition() {
    let body = "see https://team.dooray.com/project/tasks/123 and \
                https://team.dooray.com/task/55/456, also \
                https://team.dooray.com/project/tasks/123 again";
    assert_eq!(extract_task_ids(body), vec!["123".to_string(), "456".to_string()]);
}

#[test]
fn text_without_task_urls_has_no_citations() {
    assert_eq!(extract_task_ids("no links here, not even https://example.com/x"), Vec::<String>::new());
    assert_eq!(extract_task_ids("https://evil.com/project/tasks/1"), Vec::<String>::new());
}

#[test]
fn cited_urls_are_replaced_and_unresolved_ones_kept() {
    let body = "a https://t.dooray.com/project/tasks/1 b https://t.dooray.com/task/9/2 c";
    let mentions = vec![("1".to_string(), "[ONE]".to_string())];
    assert_eq!(
        replace_task_urls(body, &mentions),
        "a [ONE] b https://t.dooray.com/task/9/2 c"
    );
}

#[test]
fn replacement_without_any_match_returns_the_body() {
    let body = "untouched text";
    assert_eq!(replace_task_urls(body, &Vec::new()), body);
}

#[test]
fn project_code_falls_back_to_placeholder() {
    assert_eq!(project_code_or_default(&Some("TEAM".to_string())), "TEAM");
    assert_eq!(project_code_or_default(&None), "PROJECT");
}

#[test]
fn import_outcomes_carry_their_messages() {
    let synced = import_already_synced("t1".to_string());
    assert!(synced.success);
    assert_eq!(synced.task_id, Some("t1".to_string()));
    assert_eq!(synced.message, "이미 동기화된 태스크입니다.");
    let missing = import_not_found();
    assert!(!missing.success);
    assert_eq!(missing.message, "해당 태스크를 찾을 수 없습니다.");
    let no_number = import_number_not_found();
    assert_eq!(no_number.message, "해당 번호의 태스크를 찾을 수 없습니다.");
    let no_detail = import_no_detail();
    assert_eq!(no_detail.message, "태스크 정보를 가져올 수 없습니다.");
    let done = import_done("t2".to_string());
    assert!(done.success);
    assert_eq!(done.message, "태스크를 가져왔습니다.");
}

#[test]
fn comment_and_update_outcomes_match_success() {
    assert_eq!(comment_outcome(true).message, "두레이에 기록되었습니다.");
    assert_eq!(comment_outcome(false).message, "코멘트 추가에 실패했습니다.");
    assert!(update_task_outcome(true).success);
    assert_eq!(
        update_task_outcome(false).message,
        "Dooray 태스크 업데이트에 실패했습니다."
    );
}
