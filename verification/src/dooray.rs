//! The remote ticket system's data as the board sees it: connection
//! settings with a masked token, the ticket and tag shapes the proxy
//! endpoints return, and the pure rules they apply — workflow-class mapping,
//! task-number formatting, author resolution and tag grouping.

use vstd::prelude::*;

use crate::tasks::TaskStatus;
use crate::text::spec_trim;
use crate::text::trim_text;
use crate::text::spec_starts_with;
use crate::text::starts_with;
use crate::text::spec_assoc_lookup;
use crate::text::assoc_lookup;

verus! {

/// The stored connection settings for the remote ticket system.
#[derive(Clone, Debug, PartialEq)]
pub struct DooraySettings {
    pub id: String,
    pub dooray_token: String,
    pub selected_project_id: Option<String>,
    pub selected_project_name: Option<String>,
    /// A JSON array of tag identifiers used to filter synchronised tasks.
    pub selected_tag_ids: Option<String>,
    pub dooray_domain: Option<String>,
    /// The connected user's member identifier, for auto-assignment.
    pub member_id: Option<String>,
    pub created_at_ms: i64,
    pub updated_at_ms: i64,
}

/// The data needed to create or replace the settings record.
#[derive(Clone, Debug, PartialEq)]
pub struct CreateDooraySettings {
    pub dooray_token: String,
    pub selected_project_id: Option<String>,
    pub selected_project_name: Option<String>,
    pub selected_tag_ids: Option<String>,
    pub dooray_domain: Option<String>,
    pub member_id: Option<String>,
}

/// A partial update of the settings record.
#[derive(Clone, Debug, PartialEq)]
pub struct UpdateDooraySettings {
    pub dooray_token: Option<String>,
    pub selected_project_id: Option<String>,
    pub selected_project_name: Option<String>,
}

/// The inbound request that connects the ticket system.
#[derive(Clone, Debug, PartialEq)]
pub struct SaveSettingsRequest {
    pub dooray_token: String,
    pub selected_project_id: Option<String>,
    pub selected_project_name: Option<String>,
    pub dooray_domain: Option<String>,
}

/// A remote project.
#[derive(Clone, Debug, PartialEq)]
pub struct DoorayProject {
    pub id: String,
    pub code: String,
    pub name: String,
    pub description: Option<String>,
}

/// A remote task in a project listing.
#[derive(Clone, Debug, PartialEq)]
pub struct DoorayTask {
    pub id: String,
    pub number: i64,
    pub subject: String,
    pub workflow_class: Option<String>,
    pub body: Option<DoorayTaskBody>,
}

/// A remote task's body.
#[derive(Clone, Debug, PartialEq)]
pub struct DoorayTaskBody {
    pub mime_type: Option<String>,
    pub content: Option<String>,
}

/// A remote tag.
#[derive(Clone, Debug, PartialEq)]
pub struct DoorayTag {
    pub id: String,
    pub name: String,
}

/// A group of remote tags.
#[derive(Clone, Debug, PartialEq)]
pub struct DoorayTagGroup {
    pub id: String,
    pub name: Option<String>,
    pub mandatory: bool,
    pub select_one: bool,
    pub tags: Vec<DoorayTag>,
}

/// The tags of a project, grouped.
#[derive(Clone, Debug, PartialEq)]
pub struct DoorayTagsResponse {
    pub tag_groups: Vec<DoorayTagGroup>,
}

/// A remote task template in a listing.
#[derive(Clone, Debug, PartialEq)]
pub struct DoorayTemplate {
    pub id: String,
    pub template_name: String,
}

/// A remote task template with its content.
#[derive(Clone, Debug, PartialEq)]
pub struct DoorayTemplateDetail {
    pub id: String,
    pub template_name: String,
    pub body: Option<DoorayTaskBody>,
    pub guide: Option<DoorayTaskBody>,
    pub subject: Option<String>,
}

/// The inbound request that selects tags to filter synchronisation.
#[derive(Clone, Debug, PartialEq)]
pub struct UpdateSelectedTagsRequest {
    pub selected_tag_ids: Option<Vec<String>>,
}

/// The inbound request that selects the working project.
#[derive(Clone, Debug, PartialEq)]
pub struct UpdateSelectedProjectRequest {
    pub project_id: String,
    pub project_name: String,
}

/// The inbound request to synchronise a remote project's open tasks.
#[derive(Clone, Debug, PartialEq)]
pub struct SyncRequest {
    pub project_id: String,
    pub dooray_project_id: String,
    pub dooray_project_code: String,
}

/// What a synchronisation run did.
#[derive(Clone, Copy, Debug, PartialEq, Eq, Structural)]
pub struct SyncResult {
    pub created: i32,
    pub updated: i32,
    pub skipped: i32,
}

/// The inbound request to import one remote task by its ticket number.
#[derive(Clone, Debug, PartialEq)]
pub struct ImportByNumberRequest {
    pub project_id: String,
    pub dooray_project_id: String,
    pub dooray_project_code: String,
    pub task_number: i64,
}

/// The inbound request to import one remote task by its identifier.
#[derive(Clone, Debug, PartialEq)]
pub struct ImportByIdRequest {
    pub project_id: String,
    pub dooray_project_id: String,
    pub dooray_project_code: String,
    pub dooray_task_id: String,
}

/// What an import attempt did.
#[derive(Clone, Debug, PartialEq)]
pub struct ImportResult {
    pub success: bool,
    pub task_id: Option<String>,
    pub message: String,
}

/// The inbound request to append a comment to a remote task.
#[derive(Clone, Debug, PartialEq)]
pub struct CreateDoorayCommentRequest {
    pub dooray_task_id: String,
    pub dooray_project_id: String,
    pub content: String,
}

/// What a comment attempt did.
#[derive(Clone, Debug, PartialEq)]
pub struct CreateDoorayCommentResult {
    pub success: bool,
    pub message: String,
}

/// The inbound request to create a remote task.
#[derive(Clone, Debug, PartialEq)]
pub struct CreateDoorayTaskRequest {
    pub dooray_project_id: String,
    pub subject: String,
    pub body: Option<String>,
    pub local_project_id: String,
    pub tag_ids: Option<Vec<String>>,
    pub parent_task_id: Option<String>,
}

/// What a remote task creation did.
#[derive(Clone, Debug, PartialEq)]
pub struct CreateDoorayTaskResult {
    pub success: bool,
    pub dooray_task_id: Option<String>,
    pub dooray_task_number: Option<i64>,
    pub local_task_id: Option<String>,
    pub message: String,
}

/// The inbound request to rewrite a remote task's body.
#[derive(Clone, Debug, PartialEq)]
pub struct UpdateDoorayTaskRequest {
    pub body: String,
}

/// What a remote task update did.
#[derive(Clone, Debug, PartialEq)]
pub struct UpdateDoorayTaskResult {
    pub success: bool,
    pub message: String,
}

/// A remote task's comment, with its author resolved to a name.
#[derive(Clone, Debug, PartialEq)]
pub struct DoorayComment {
    pub id: String,
    pub author_name: String,
    pub content: String,
    pub created_at: String,
}

/// The comments of one remote task.
#[derive(Clone, Debug, PartialEq)]
pub struct GetDoorayCommentsResponse {
    pub comments: Vec<DoorayComment>,
}

/// A token as it may be shown: fully starred when it is short, else its
/// first and last four characters around an ellipsis.
pub open spec fn spec_masked_token(s: Seq<char>) -> Seq<char> {
    if s.len() <= 8 {
        Seq::new(s.len(), |i: int| '*')
    } else {
        s.subrange(0, 4) + "..."@ + s.subrange(s.len() - 4, s.len() as int)
    }
}

/// Masks an access token for display; the stored token is never exposed.
pub fn mask_token(token: &str) -> (r: String)
    ensures
        r@ == spec_masked_token(token@),
{
    let len = token.unicode_len();
    if len <= 8 {
        let mut r = String::new();
        let mut i: usize = 0;
        while i < len
            invariant
                0 <= i <= len,
                r@ =~= Seq::new(i as nat, |k: int| '*'),
            decreases len - i,
        {
            r.append("*");
            proof {
                reveal_strlit("*");
            }
            i = i + 1;
        }
        proof {
            assert(r@ =~= spec_masked_token(token@));
        }
        r
    } else {
        let head = token.substring_char(0, 4);
        let tail = token.substring_char(len - 4, len);
        let mut r = String::from_str(head);
        r.append("...");
        r.append(tail);
        r
    }
}

/// The settings with the token replaced by its masked form; nothing else
/// changes.
pub fn masked_settings(s: &DooraySettings) -> (r: DooraySettings)
    ensures
        r.dooray_token@ == spec_masked_token(s.dooray_token@),
        r.id == s.id,
        r.selected_project_id == s.selected_project_id,
        r.selected_project_name == s.selected_project_name,
        r.selected_tag_ids == s.selected_tag_ids,
        r.dooray_domain == s.dooray_domain,
        r.member_id == s.member_id,
        r.created_at_ms == s.created_at_ms,
        r.updated_at_ms == s.updated_at_ms,
{
    DooraySettings {
        dooray_token: mask_token(s.dooray_token.as_str()),
        id: s.id.clone(),
        selected_project_id: s.selected_project_id.clone(),
        selected_project_name: s.selected_project_name.clone(),
        selected_tag_ids: s.selected_tag_ids.clone(),
        dooray_domain: s.dooray_domain.clone(),
        member_id: s.member_id.clone(),
        created_at_ms: s.created_at_ms,
        updated_at_ms: s.updated_at_ms,
    }
}

/// The settings record written when the ticket system is connected: the
/// request's fields, the member identifier the remote reported, and no tag
/// filter yet.
pub fn settings_from_request(req: SaveSettingsRequest, member_id: Option<String>) -> (r:
    CreateDooraySettings)
    ensures
        r.dooray_token == req.dooray_token,
        r.selected_project_id == req.selected_project_id,
        r.selected_project_name == req.selected_project_name,
        r.selected_tag_ids is None,
        r.dooray_domain == req.dooray_domain,
        r.member_id == member_id,
{
    CreateDooraySettings {
        dooray_token: req.dooray_token,
        selected_project_id: req.selected_project_id,
        selected_project_name: req.selected_project_name,
        selected_tag_ids: None,
        dooray_domain: req.dooray_domain,
        member_id,
    }
}

/// The authorization header value for the remote: the trimmed token,
/// prefixed with the scheme unless the user already typed it.
pub fn authorization_value(token: &str) -> (r: String)
    ensures
        ({
            let t = spec_trim(token@);
            r@ == (if spec_starts_with(t, "dooray-api "@) {
                t
            } else {
                "dooray-api "@ + t
            })
        }),
{
    let clean = trim_text(token);
    if starts_with(clean.as_str(), "dooray-api ") {
        clean
    } else {
        let mut r = String::from_str("dooray-api ");
        r.append(clean.as_str());
        r
    }
}

/// The board status a remote workflow class maps to: a task being worked on
/// is in progress; registered, backlog and anything else (or nothing) is
/// still to do.
pub fn status_for_workflow_class(workflow_class: &Option<String>) -> (r: TaskStatus)
    ensures
        r == (match workflow_class.deep_view() {
            Some(w) => if w == "working"@ {
                TaskStatus::InProgress
            } else {
                TaskStatus::Todo
            },
            None => TaskStatus::Todo,
        }),
{
    match workflow_class {
        Some(w) => if w.eq(&String::from_str("working")) {
            TaskStatus::InProgress
        } else {
            TaskStatus::Todo
        },
        None => TaskStatus::Todo,
    }
}

/// A project as listed: the remote's code stands in for a display name.
pub fn project_from_raw(id: String, code: String, description: Option<String>) -> (r:
    DoorayProject)
    ensures
        r.id == id,
        r.code == code,
        r.name == code,
        r.description == description,
{
    let name = code.clone();
    DoorayProject { id, code, name, description }
}

/// Counts one synchronised task: an already-known task counts as updated, a
/// new one as created.
pub fn record_sync(result: &mut SyncResult, already_exists: bool)
    requires
        old(result).created < i32::MAX,
        old(result).updated < i32::MAX,
    ensures
        final(result).created == old(result).created + (if already_exists {
            0int
        } else {
            1int
        }),
        final(result).updated == old(result).updated + (if already_exists {
            1int
        } else {
            0int
        }),
        final(result).skipped == old(result).skipped,
{
    if already_exists {
        result.updated = result.updated + 1;
    } else {
        result.created = result.created + 1;
    }
}

/// The project code used in stored task numbers: the selected project's
/// name, or a fixed placeholder when none is selected.
pub fn project_code_or_default(selected_project_name: &Option<String>) -> (r: String)
    ensures
        r@ == (match selected_project_name.deep_view() {
            Some(n) => n,
            None => "PROJECT"@,
        }),
{
    match selected_project_name {
        Some(n) => n.clone(),
        None => String::from_str("PROJECT"),
    }
}

/// The import outcome for a task that is already on the board.
pub fn import_already_synced(local_task_id: String) -> (r: ImportResult)
    ensures
        r.success,
        r.task_id == Some(local_task_id),
        r.message@ == "이미 동기화된 태스크입니다."@,
{
    ImportResult {
        success: true,
        task_id: Some(local_task_id),
        message: String::from_str("이미 동기화된 태스크입니다."),
    }
}

/// The import outcome for a remote task that could not be found.
pub fn import_not_found() -> (r: ImportResult)
    ensures
        !r.success,
        r.task_id is None,
        r.message@ == "해당 태스크를 찾을 수 없습니다."@,
{
    ImportResult {
        success: false,
        task_id: None,
        message: String::from_str("해당 태스크를 찾을 수 없습니다."),
    }
}

/// The import outcome for a ticket number that matched no remote task.
pub fn import_number_not_found() -> (r: ImportResult)
    ensures
        !r.success,
        r.task_id is None,
        r.message@ == "해당 번호의 태스크를 찾을 수 없습니다."@,
{
    ImportResult {
        success: false,
        task_id: None,
        message: String::from_str("해당 번호의 태스크를 찾을 수 없습니다."),
    }
}

/// The import outcome for a remote answer that carried no task data.
pub fn import_no_detail() -> (r: ImportResult)
    ensures
        !r.success,
        r.task_id is None,
        r.message@ == "태스크 정보를 가져올 수 없습니다."@,
{
    ImportResult {
        success: false,
        task_id: None,
        message: String::from_str("태스크 정보를 가져올 수 없습니다."),
    }
}

/// The import outcome for a newly imported task.
pub fn import_done(local_task_id: String) -> (r: ImportResult)
    ensures
        r.success,
        r.task_id == Some(local_task_id),
        r.message@ == "태스크를 가져왔습니다."@,
{
    ImportResult {
        success: true,
        task_id: Some(local_task_id),
        message: String::from_str("태스크를 가져왔습니다."),
    }
}

/// The outcome of a comment attempt: recorded, or failed.
pub fn comment_outcome(success: bool) -> (r: CreateDoorayCommentResult)
    ensures
        r.success == success,
        success ==> r.message@ == "두레이에 기록되었습니다."@,
        !success ==> r.message@ == "코멘트 추가에 실패했습니다."@,
{
    if success {
        CreateDoorayCommentResult {
            success: true,
            message: String::from_str("두레이에 기록되었습니다."),
        }
    } else {
        CreateDoorayCommentResult {
            success: false,
            message: String::from_str("코멘트 추가에 실패했습니다."),
        }
    }
}

/// The outcome of a remote task body update: updated, or failed.
pub fn update_task_outcome(success: bool) -> (r: UpdateDoorayTaskResult)
    ensures
        r.success == success,
        success ==> r.message@ == "Dooray 태스크가 업데이트되었습니다."@,
        !success ==> r.message@ == "Dooray 태스크 업데이트에 실패했습니다."@,
{
    if success {
        UpdateDoorayTaskResult {
            success: true,
            message: String::from_str("Dooray 태스크가 업데이트되었습니다."),
        }
    } else {
        UpdateDoorayTaskResult {
            success: false,
            message: String::from_str("Dooray 태스크 업데이트에 실패했습니다."),
        }
    }
}

/// One tag as the remote lists it, with the group data nested beside it.
#[derive(Clone, Debug, PartialEq)]
pub struct DoorayTagItem {
    pub id: String,
    pub name: String,
    pub group_id: Option<String>,
    pub group_name: Option<String>,
    pub group_mandatory: Option<bool>,
    pub group_select_one: Option<bool>,
}

/// The mathematical image of a tag.
pub struct TagV {
    pub id: Seq<char>,
    pub name: Seq<char>,
}

impl DeepView for DoorayTag {
    type V = TagV;

    open spec fn deep_view(&self) -> TagV {
        TagV { id: self.id@, name: self.name@ }
    }
}

/// The mathematical image of a tag group.
pub struct TagGroupV {
    pub id: Seq<char>,
    pub name: Option<Seq<char>>,
    pub mandatory: bool,
    pub select_one: bool,
    pub tags: Seq<TagV>,
}

impl DeepView for DoorayTagGroup {
    type V = TagGroupV;

    open spec fn deep_view(&self) -> TagGroupV {
        TagGroupV {
            id: self.id@,
            name: self.name.deep_view(),
            mandatory: self.mandatory,
            select_one: self.select_one,
            tags: self.tags.deep_view(),
        }
    }
}

/// The mathematical image of a listed tag.
pub struct TagItemV {
    pub id: Seq<char>,
    pub name: Seq<char>,
    pub group_id: Option<Seq<char>>,
    pub group_name: Option<Seq<char>>,
    pub group_mandatory: Option<bool>,
    pub group_select_one: Option<bool>,
}

impl DeepView for DoorayTagItem {
    type V = TagItemV;

    open spec fn deep_view(&self) -> TagItemV {
        TagItemV {
            id: self.id@,
            name: self.name@,
            group_id: self.group_id.deep_view(),
            group_name: self.group_name.deep_view(),
            group_mandatory: self.group_mandatory,
            group_select_one: self.group_select_one,
        }
    }
}

/// The key a tag is grouped under: its group's identifier, or a fixed key
/// for tags without a group.
pub open spec fn spec_group_key(it: TagItemV) -> Seq<char> {
    match it.group_id {
        Some(g) => g,
        None => "ungrouped"@,
    }
}

/// The index of the first group with the given identifier; negative when
/// there is none.
pub open spec fn spec_find_group(gs: Seq<TagGroupV>, key: Seq<char>) -> int
    decreases gs.len(),
{
    if gs.len() == 0 {
        -1
    } else if gs[0].id == key {
        0
    } else {
        let r = spec_find_group(gs.drop_first(), key);
        if r < 0 {
            -1
        } else {
            r + 1
        }
    }
}

/// Adds one listed tag to the groups built so far: the tag is appended to
/// its group's tags, and the group itself is created from the tag's group
/// data on first sight, missing flags defaulting to false.
pub open spec fn spec_add_tag(gs: Seq<TagGroupV>, it: TagItemV) -> Seq<TagGroupV> {
    let key = spec_group_key(it);
    let tag = TagV { id: it.id, name: it.name };
    let idx = spec_find_group(gs, key);
    if idx >= 0 {
        gs.update(
            idx,
            TagGroupV { tags: gs[idx].tags.push(tag), ..gs[idx] },
        )
    } else {
        gs.push(
            TagGroupV {
                id: key,
                name: it.group_name,
                mandatory: (it.group_mandatory matches Some(true)),
                select_one: (it.group_select_one matches Some(true)),
                tags: seq![tag],
            },
        )
    }
}

/// The groups built from a whole listing, in order of first sight.
pub open spec fn spec_group_tags(items: Seq<TagItemV>) -> Seq<TagGroupV>
    decreases items.len(),
{
    if items.len() == 0 {
        Seq::empty()
    } else {
        spec_add_tag(spec_group_tags(items.drop_last()), items.last())
    }
}

proof fn lemma_find_group_none(gs: Seq<TagGroupV>, key: Seq<char>)
    requires
        forall|j: int| 0 <= j < gs.len() ==> gs[j].id != key,
    ensures
        spec_find_group(gs, key) == -1,
    decreases gs.len(),
{
    if gs.len() > 0 {
        lemma_find_group_none(gs.drop_first(), key);
    }
}

proof fn lemma_find_group_at(gs: Seq<TagGroupV>, key: Seq<char>, k: int)
    requires
        0 <= k < gs.len(),
        gs[k].id == key,
        forall|j: int| 0 <= j < k ==> gs[j].id != key,
    ensures
        spec_find_group(gs, key) == k,
    decreases k,
{
    if k > 0 {
        lemma_find_group_at(gs.drop_first(), key, k - 1);
    }
}

fn find_group(groups: &Vec<DoorayTagGroup>, key: &String) -> (r: Option<usize>)
    ensures
        ({
            let idx = spec_find_group(groups.deep_view(), key@);
            match r {
                Some(i) => idx == i && i < groups@.len(),
                None => idx == -1,
            }
        }),
{
    let ghost gv = groups.deep_view();
    let mut i: usize = 0;
    while i < groups.len()
        invariant
            0 <= i <= groups@.len(),
            gv == groups.deep_view(),
            forall|j: int| 0 <= j < i ==> gv[j].id != key@,
        decreases groups@.len() - i,
    {
        if groups[i].id.eq(key) {
            proof {
                assert(gv[i as int].id == key@);
                lemma_find_group_at(gv, key@, i as int);
            }
            return Some(i);
        }
        i = i + 1;
    }
    proof {
        lemma_find_group_none(gv, key@);
    }
    None
}

/// Groups a remote tag listing by tag group, in order of first sight,
/// keeping each group's tags in listing order.
pub fn group_tags(items: &Vec<DoorayTagItem>) -> (r: DoorayTagsResponse)
    ensures
        r.tag_groups.deep_view() == spec_group_tags(items.deep_view()),
{
    let ghost iv = items.deep_view();
    let mut groups: Vec<DoorayTagGroup> = Vec::new();
    let mut i: usize = 0;
    while i < items.len()
        invariant
            0 <= i <= items@.len(),
            iv == items.deep_view(),
            groups.deep_view() =~~= spec_group_tags(iv.take(i as int)),
        decreases items@.len() - i,
    {
        proof {
            assert(iv.take(i + 1).drop_last() =~= iv.take(i as int));
            assert(iv.take(i + 1).last() == iv[i as int]);
        }
        let item = &items[i];
        let key = match &item.group_id {
            Some(g) => g.clone(),
            None => String::from_str("ungrouped"),
        };
        proof {
            assert(key@ == spec_group_key(iv[i as int]));
        }
        let tag = DoorayTag { id: item.id.clone(), name: item.name.clone() };
        proof {
            assert(tag.deep_view() == (TagV { id: iv[i as int].id, name: iv[i as int].name }));
        }
        match find_group(&groups, &key) {
            Some(idx) => {
                let ghost before = groups.deep_view();
                groups[idx].tags.push(tag);
                proof {
                    assert(groups.deep_view()[idx as int].tags =~= before[idx as int].tags.push(
                        TagV { id: iv[i as int].id, name: iv[i as int].name },
                    ));
                    assert(groups.deep_view()[idx as int] =~~= spec_add_tag(
                        before,
                        iv[i as int],
                    )[idx as int]);
                    assert(groups.deep_view() =~~= spec_add_tag(before, iv[i as int]));
                }
            },
            None => {
                let mandatory = match &item.group_mandatory {
                    Some(b) => *b,
                    None => false,
                };
                let select_one = match &item.group_select_one {
                    Some(b) => *b,
                    None => false,
                };
                let mut tags: Vec<DoorayTag> = Vec::new();
                tags.push(tag);
                let ghost before = groups.deep_view();
                groups.push(
                    DoorayTagGroup {
                        id: key,
                        name: item.group_name.clone(),
                        mandatory,
                        select_one,
                        tags,
                    },
                );
                proof {
                    assert(groups.deep_view().last().tags =~= seq![
                        TagV { id: iv[i as int].id, name: iv[i as int].name },
                    ]);
                    assert(groups.deep_view().last() =~~= spec_add_tag(
                        before,
                        iv[i as int],
                    ).last());
                    assert(groups.deep_view() =~~= spec_add_tag(before, iv[i as int]));
                }
            },
        }
        i = i + 1;
    }
    proof {
        assert(iv.take(items@.len() as int) =~= iv);
    }
    DoorayTagsResponse { tag_groups: groups }
}

/// The name pairs of a project's members: member identifier and display
/// name.
pub type MemberName = (String, String);

/// The display name of a comment's author: the name the log entry carries,
/// else the project member list's name for the author's identifier, else a
/// fixed placeholder.
pub fn resolve_author_name(
    creator_name: &Option<String>,
    creator_member_id: &Option<String>,
    member_names: &Vec<MemberName>,
) -> (r: String)
    ensures
        r@ == (match creator_name.deep_view() {
            Some(n) => n,
            None => (match creator_member_id.deep_view() {
                Some(id) => (match spec_assoc_lookup(member_names.deep_view(), id) {
                    Some(n) => n,
                    None => "Unknown"@,
                }),
                None => "Unknown"@,
            }),
        }),
{
    match creator_name {
        Some(n) => n.clone(),
        None => {
            match creator_member_id {
                Some(id) => {
                    match assoc_lookup(member_names, id) {
                        Some(n) => n,
                        None => String::from_str("Unknown"),
                    }
                },
                None => String::from_str("Unknown"),
            }
        },
    }
}

/// One comment of the outbound listing, from one raw log entry: missing
/// content or creation time becomes empty text.
pub fn comment_from_log(
    id: String,
    created_at: Option<String>,
    body_content: Option<String>,
    author_name: String,
) -> (r: DoorayComment)
    ensures
        r.id == id,
        r.author_name == author_name,
        r.content@ == (match body_content.deep_view() {
            Some(c) => c,
            None => Seq::<char>::empty(),
        }),
        r.created_at@ == (match created_at.deep_view() {
            Some(c) => c,
            None => Seq::<char>::empty(),
        }),
{
    DoorayComment {
        id,
        author_name,
        content: match body_content {
            Some(c) => c,
            None => String::new(),
        },
        created_at: match created_at {
            Some(c) => c,
            None => String::new(),
        },
    }
}

} // verus!
