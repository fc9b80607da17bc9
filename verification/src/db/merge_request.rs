//! The `merge_requests` table: its rows, what creating one takes, and the values a new row is
//! stored with.
use vstd::prelude::*;

use crate::text::{has_prefix, has_suffix, opt_view, owned, push_str, str_eq, str_or, text_or};

verus! {

/// A row of the `merge_requests` table.
#[derive(Debug, Clone)]
pub struct MergeRequest {
    pub id: String,
    pub work_item_id: Option<String>,
    pub rig_id: Option<String>,
    pub branch: String,
    pub target_branch: String,
    pub status: String,
    pub agent_id: Option<String>,
    pub pr_url: Option<String>,
    pub metadata_json: String,
    pub queued_at: String,
    pub merged_at: Option<String>,
    pub created_at: String,
    pub updated_at: String,
}

/// What creating a merge request takes; the fields left out take their defaults.
#[derive(Debug, Clone)]
pub struct CreateMergeRequest {
    pub id: String,
    pub work_item_id: Option<String>,
    pub rig_id: Option<String>,
    pub branch: String,
    pub target_branch: Option<String>,
    pub status: Option<String>,
    pub agent_id: Option<String>,
    pub pr_url: Option<String>,
    pub metadata_json: Option<String>,
}

impl CreateMergeRequest {
    /// The values stored for the fields that have defaults, in order: `target_branch`
    /// as given or `main`, `status` as given or `pending`, `metadata_json` as given or
    /// `{}`.
    pub fn insert_defaults(&self) -> (res: (String, String, String))
        ensures
            res.0@ == text_or(opt_view(self.target_branch), "main"@),
            res.1@ == text_or(opt_view(self.status), "pending"@),
            res.2@ == text_or(opt_view(self.metadata_json), "{}"@),
    {
        (str_or(&self.target_branch, "main"), str_or(&self.status, "pending"), str_or(&self.metadata_json, "{}"))
    }
}

/// The statement that sets a merge request's status: it also stamps `merged_at` when
/// the new status is `merged`, and always `updated_at`.
pub open spec fn status_update_sql(status: Seq<char>) -> Seq<char> {
    "UPDATE merge_requests SET status = ?"@ + (if status == "merged"@ {
        ", merged_at = datetime('now')"@
    } else {
        Seq::<char>::empty()
    }) + ", updated_at = datetime('now') WHERE id = ?"@
}

/// The status statement sets the status and stamps `updated_at` whatever the status;
/// it stamps `merged_at` too exactly when the status is `merged`, and is otherwise
/// just the status and `updated_at`.
pub proof fn lemma_status_update_stamps_merge_time(status: Seq<char>)
    ensures
        has_prefix(status_update_sql(status), "UPDATE merge_requests SET status = ?"@),
        has_suffix(status_update_sql(status), ", updated_at = datetime('now') WHERE id = ?"@),
        status == "merged"@ ==> status_update_sql(status) == "UPDATE merge_requests SET status = ?"@
            + ", merged_at = datetime('now')"@ + ", updated_at = datetime('now') WHERE id = ?"@,
        status != "merged"@ ==> status_update_sql(status) == "UPDATE merge_requests SET status = ?"@
            + ", updated_at = datetime('now') WHERE id = ?"@,
{
    let a = "UPDATE merge_requests SET status = ?"@;
    let m = ", merged_at = datetime('now')"@;
    let c = ", updated_at = datetime('now') WHERE id = ?"@;
    let q = status_update_sql(status);
    if status == "merged"@ {
        assert(q =~= a + (m + c));
        assert(q.take(a.len() as int) =~= a);
        assert(q.skip(q.len() - c.len()) =~= c);
    } else {
        assert(q =~= a + c);
        assert(q.take(a.len() as int) =~= a);
        assert(q.skip(q.len() - c.len()) =~= c);
    }
}

impl MergeRequest {
    /// The statement that sets the status of a merge request to `status`; it binds the
    /// status, then the id.
    pub fn status_update_query(status: &str) -> (res: String)
        ensures
            res@ == status_update_sql(status@),
    {
        let mut s = owned("UPDATE merge_requests SET status = ?");
        if str_eq(status, "merged") {
            push_str(&mut s, ", merged_at = datetime('now')");
        }
        push_str(&mut s, ", updated_at = datetime('now') WHERE id = ?");
        proof {
            reveal_strlit("UPDATE merge_requests SET status = ?");
            reveal_strlit(", merged_at = datetime('now')");
            reveal_strlit(", updated_at = datetime('now') WHERE id = ?");
        }
        assert(s@ =~= status_update_sql(status@));
        s
    }
}

} // verus!
