//! Issue records from the ticketing service and the rendering of one
//! issue, or a list of issues, into a dual-format (plain + markup)
//! message body.
use vstd::prelude::*;
use crate::text::{dec_str, u32_to_dec};

verus! {

/// A named record referenced by an issue: a project, tracker, status,
/// priority or user, identified by id, shown by name.
#[derive(Debug, Clone)]
pub struct Base {
    pub id: u32,
    pub name: String,
}

impl Default for Base {
    fn default() -> (r: Self)
        ensures
            r.id == 0,
            r.name@ == Seq::<char>::empty(),
    {
        Base { id: 0, name: String::new() }
    }
}

/// One ticket record, sourced verbatim from the ticketing service and
/// read-only within the bot.
#[derive(Debug, Clone)]
pub struct Issue {
    pub id: u32,
    pub project: Base,
    pub tracker: Base,
    pub status: Base,
    pub priority: Base,
    pub author: Base,
    pub assigned_to: Option<Base>,
    pub subject: String,
    pub description: String,
    pub start_date: String,
    pub due_date: Option<String>,
    pub done_ratio: u8,
    pub is_private: bool,
    pub estimated_hours: Option<u32>,
    pub created_on: String,
    pub updated_on: String,
    pub closed_on: Option<String>,
}

impl Default for Issue {
    fn default() -> (r: Self)
        ensures
            r.id == 0,
            r.project.id == 0 && r.project.name@ == Seq::<char>::empty(),
            r.tracker.id == 0 && r.tracker.name@ == Seq::<char>::empty(),
            r.status.id == 0 && r.status.name@ == Seq::<char>::empty(),
            r.priority.id == 0 && r.priority.name@ == Seq::<char>::empty(),
            r.author.id == 0 && r.author.name@ == Seq::<char>::empty(),
            r.assigned_to is None,
            r.subject@ == Seq::<char>::empty(),
            r.description@ == Seq::<char>::empty(),
            r.start_date@ == Seq::<char>::empty(),
            r.due_date is None,
            r.done_ratio == 0,
            !r.is_private,
            r.estimated_hours is None,
            r.created_on@ == Seq::<char>::empty(),
            r.updated_on@ == Seq::<char>::empty(),
            r.closed_on is None,
    {
        Issue {
            id: 0,
            project: Base::default(),
            tracker: Base::default(),
            status: Base::default(),
            priority: Base::default(),
            author: Base::default(),
            assigned_to: None,
            subject: String::new(),
            description: String::new(),
            start_date: String::new(),
            due_date: None,
            done_ratio: 0,
            is_private: false,
            estimated_hours: None,
            created_on: String::new(),
            updated_on: String::new(),
            closed_on: None,
        }
    }
}

/// The rendered form of one issue: a linked title, then author,
/// priority and progress lines. Status, assignee and description are
/// deliberately left out of the output.
pub open spec fn issue_message(i: Issue, base_url: Seq<char>) -> Seq<char> {
    "<b>Issue name:</b> <a href=\""@ + base_url + "/issues/"@ + dec_str(i.id as nat) + "\">"@
        + i.subject@ + "</a><br>"@ + "<b>Author:</b> "@ + i.author.name@ + "<br>"@
        + "<b>Priority:</b> "@ + i.priority.name@ + "<br>"@ + "<b>Progress:</b> "@
        + dec_str(i.done_ratio as nat) + "%"@
}

impl Issue {
    /// Renders this issue as a markup message fragment.
    pub fn as_message(&self, base_url: &str) -> (r: String)
        ensures
            r@ == issue_message(*self, base_url@),
    {
        let mut m = String::from_str("<b>Issue name:</b> <a href=\"");
        m.append(base_url);
        m.append("/issues/");
        let id_str = u32_to_dec(self.id);
        m.append(id_str.as_str());
        m.append("\">");
        m.append(self.subject.as_str());
        m.append("</a><br>");
        m.append("<b>Author:</b> ");
        m.append(self.author.name.as_str());
        m.append("<br>");
        m.append("<b>Priority:</b> ");
        m.append(self.priority.name.as_str());
        m.append("<br>");
        m.append("<b>Progress:</b> ");
        let ratio_str = u32_to_dec(self.done_ratio as u32);
        m.append(ratio_str.as_str());
        m.append("%");
        m
    }
}

/// An ordered batch of issues with its pagination metadata, created
/// fresh for each fetch from the ticketing service.
#[derive(Debug, Clone)]
pub struct Issues {
    pub issues: Vec<Issue>,
    pub total_count: u32,
    pub offset: u32,
    pub limit: u32,
}

impl Default for Issues {
    fn default() -> (r: Self)
        ensures
            r.issues@.len() == 0,
            r.total_count == 0,
            r.offset == 0,
            r.limit == 0,
    {
        Issues { issues: Vec::new(), total_count: 0, offset: 0, limit: 0 }
    }
}

/// The ids of a sequence of issues, in the same order.
pub open spec fn issue_ids(issues: Seq<Issue>) -> Seq<u32> {
    issues.map_values(|i: Issue| i.id)
}

/// The decimal forms of `ids` joined with a comma separator, in order.
pub open spec fn id_join(ids: Seq<u32>) -> Seq<char>
    decreases ids.len(),
{
    if ids.len() == 0 {
        Seq::empty()
    } else if ids.len() == 1 {
        dec_str(ids[0] as nat)
    } else {
        id_join(ids.drop_last()) + ", "@ + dec_str(ids.last() as nat)
    }
}

/// The concatenated single-issue renderings, each preceded by a
/// blank-line separator, in list order.
pub open spec fn issue_bodies(issues: Seq<Issue>, base_url: Seq<char>) -> Seq<char>
    decreases issues.len(),
{
    if issues.len() == 0 {
        Seq::empty()
    } else {
        issue_bodies(issues.drop_last(), base_url) + "<br><br>"@
            + issue_message(issues.last(), base_url)
    }
}

/// The rendered form of an issue list: a header naming every issue id,
/// an `Info:` label, then each issue's rendering in list order.
pub open spec fn issues_message(l: Issues, base_url: Seq<char>) -> Seq<char> {
    "<b>Issues:</b> "@ + id_join(issue_ids(l.issues@)) + "<br>"@ + "<b>Info:</b>"@
        + issue_bodies(l.issues@, base_url)
}

/// The joined ids strictly before position `k` of the header, with
/// the separator that follows them when there are any.
pub open spec fn id_join_prefix(ids: Seq<u32>, k: int) -> Seq<char> {
    if k == 0 {
        Seq::empty()
    } else {
        id_join(ids.take(k)) + ", "@
    }
}

/// The ids of `ids` joined with each one preceded by the separator.
pub open spec fn id_join_tail(ids: Seq<u32>) -> Seq<char>
    decreases ids.len(),
{
    if ids.len() == 0 {
        Seq::empty()
    } else {
        id_join_tail(ids.drop_last()) + ", "@ + dec_str(ids.last() as nat)
    }
}

/// Law: the comma-joined id header names every id at its own list
/// position: at any index `k` it splits into the joined ids before
/// `k`, the decimal form of `ids[k]`, and the joined ids after `k`.
pub proof fn lemma_id_join_decomposition(ids: Seq<u32>, k: int)
    requires
        0 <= k < ids.len(),
    ensures
        id_join(ids) =~= id_join_prefix(ids, k) + dec_str(ids[k] as nat) + id_join_tail(
            ids.skip(k + 1),
        ),
    decreases ids.len(),
{
    if ids.len() == 1 {
        assert(ids.skip(1) =~= Seq::<u32>::empty());
    } else if k == ids.len() - 1 {
        assert(ids.take(k) =~= ids.drop_last());
        assert(ids.skip(k + 1) =~= Seq::<u32>::empty());
    } else {
        let dl = ids.drop_last();
        lemma_id_join_decomposition(dl, k);
        assert(ids.take(k) =~= dl.take(k));
        let s = ids.skip(k + 1);
        assert(s.drop_last() =~= dl.skip(k + 1));
        assert(s.last() == ids.last());
        assert(id_join(ids) =~= id_join_prefix(ids, k) + dec_str(ids[k] as nat) + id_join_tail(
            s,
        ));
    }
}

/// Law: the rendered list message names every issue's id once at its
/// place, in list order: for any index `k` it is exactly the header
/// label, the joined ids before `k`, the id at `k`, the joined ids
/// after `k`, the info label, and the issue bodies in list order.
pub proof fn lemma_issue_list_ids_in_order(l: Issues, base_url: Seq<char>, k: int)
    requires
        0 <= k < l.issues@.len(),
    ensures
        issues_message(l, base_url) =~= "<b>Issues:</b> "@ + id_join_prefix(
            issue_ids(l.issues@),
            k,
        ) + dec_str(l.issues@[k].id as nat) + id_join_tail(issue_ids(l.issues@).skip(k + 1))
            + "<br>"@ + "<b>Info:</b>"@ + issue_bodies(l.issues@, base_url),
{
    assert(issue_ids(l.issues@)[k] == l.issues@[k].id);
    lemma_id_join_decomposition(issue_ids(l.issues@), k);
}

impl Issues {
    /// Renders the whole list as a markup message.
    pub fn as_message(&self, base_url: &str) -> (r: String)
        ensures
            r@ == issues_message(*self, base_url@),
    {
        let ghost ids = issue_ids(self.issues@);
        let mut m = String::from_str("<b>Issues:</b> ");
        let n = self.issues.len();
        proof {
            assert(m@ =~= "<b>Issues:</b> "@ + id_join(ids.take(0)));
        }
        let mut i: usize = 0;
        while i < n
            invariant
                i <= n,
                n == self.issues@.len(),
                ids == issue_ids(self.issues@),
                m@ == "<b>Issues:</b> "@ + id_join(ids.take(i as int)),
            decreases n - i,
        {
            if i > 0 {
                m.append(", ");
            }
            let id_str = u32_to_dec(self.issues[i].id);
            m.append(id_str.as_str());
            proof {
                assert(ids[i as int] == self.issues@[i as int].id);
                let t = ids.take(i + 1 as int);
                assert(t.len() == i + 1);
                if i == 0 {
                    assert(t[0] == ids[0]);
                    assert(m@ =~= "<b>Issues:</b> "@ + id_join(t));
                } else {
                    assert(t.drop_last() =~= ids.take(i as int));
                    assert(t.last() == ids[i as int]);
                    assert(m@ =~= "<b>Issues:</b> "@ + id_join(t));
                }
            }
            i = i + 1;
        }
        proof {
            assert(ids.take(n as int) =~= ids);
        }
        m.append("<br>");
        m.append("<b>Info:</b>");
        proof {
            assert(issue_bodies(self.issues@.take(0), base_url@) =~= Seq::<char>::empty());
        }
        let mut j: usize = 0;
        while j < n
            invariant
                j <= n,
                n == self.issues@.len(),
                ids == issue_ids(self.issues@),
                m@ == "<b>Issues:</b> "@ + id_join(ids) + "<br>"@ + "<b>Info:</b>"@
                    + issue_bodies(self.issues@.take(j as int), base_url@),
            decreases n - j,
        {
            m.append("<br><br>");
            let body = self.issues[j].as_message(base_url);
            m.append(body.as_str());
            proof {
                let t = self.issues@.take(j + 1 as int);
                assert(t.drop_last() =~= self.issues@.take(j as int));
                assert(t.last() == self.issues@[j as int]);
                assert(m@ =~= "<b>Issues:</b> "@ + id_join(ids) + "<br>"@ + "<b>Info:</b>"@
                    + issue_bodies(t, base_url@));
            }
            j = j + 1;
        }
        proof {
            assert(self.issues@.take(n as int) =~= self.issues@);
            assert(m@ =~= issues_message(*self, base_url@));
        }
        m
    }
}

} // verus!
