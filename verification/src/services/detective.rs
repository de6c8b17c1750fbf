//! Amazon Detective behavior graphs as JSON.
use crate::json::{opt_str_json, text_value, with_opt, items_view, lemma_items_view_push, JsonObject, JsonValue, JsonView};
use crate::timestamp::{ts_json, opt_ts_json, Timestamp};
use crate::text::{after_last, concat_text, last_segment};
use std::sync::Arc;
use vstd::prelude::*;

verus! {

/// A behavior graph as `ListGraphs` reports it.
pub struct Graph {
    pub arn: Option<String>,
    pub created_time: Option<Timestamp>,
}

/// A member account of a graph; enumerations hold their AWS names.
pub struct MemberDetail {
    pub account_id: Option<String>,
    pub email_address: Option<String>,
    pub graph_arn: Option<String>,
    pub status: Option<String>,
    pub disabled_reason: Option<String>,
    pub invited_time: Option<Timestamp>,
    pub updated_time: Option<Timestamp>,
}

/// Reads Amazon Detective behavior graphs through a credential coordinator `C`.
pub struct DetectiveService<C> {
    credential_coordinator: Arc<C>,
}

/// The JSON object of a member account.
pub open spec fn member_json(member: MemberDetail) -> JsonView {
    let m = Map::<Seq<char>, JsonView>::empty();
    let m = with_opt(m, "AccountId"@, opt_str_json(member.account_id));
    let m = with_opt(m, "EmailAddress"@, opt_str_json(member.email_address));
    let m = with_opt(m, "GraphArn"@, opt_str_json(member.graph_arn));
    let m = with_opt(m, "Status"@, opt_str_json(member.status));
    let m = with_opt(m, "DisabledReason"@, opt_str_json(member.disabled_reason));
    let m = with_opt(m, "InvitedTime"@, opt_ts_json(member.invited_time));
    let m = with_opt(m, "UpdatedTime"@, opt_ts_json(member.updated_time));
    JsonView::Object(m)
}

impl<C> DetectiveService<C> {
    /// The coordinator that the service was made with.
    pub closed spec fn coordinator(&self) -> Arc<C> {
        self.credential_coordinator
    }

    /// A service that obtains its AWS configurations from `credential_coordinator`.
    pub fn new(credential_coordinator: Arc<C>) -> (s: Self)
        ensures
            s.coordinator() == credential_coordinator,
    {
        Self { credential_coordinator }
    }

    /// The coordinator that the service was made with.
    pub fn credential_coordinator(&self) -> (c: &Arc<C>)
        ensures
            *c == self.coordinator(),
    {
        &self.credential_coordinator
    }

    /// The JSON object of a member account.
    pub fn member_to_json(&self, member: &MemberDetail) -> (v: JsonValue)
        ensures
            v.view() == member_json(*member),
    {
        let mut json = JsonObject::new();
        json.insert_opt_str("AccountId", &member.account_id);
        json.insert_opt_str("EmailAddress", &member.email_address);
        json.insert_opt_str("GraphArn", &member.graph_arn);
        json.insert_opt_str("Status", &member.status);
        json.insert_opt_str("DisabledReason", &member.disabled_reason);
        json.insert_opt_ts("InvitedTime", &member.invited_time);
        json.insert_opt_ts("UpdatedTime", &member.updated_time);
        JsonValue::Object(json)
    }

}

/// The name of a graph: the last `/`-separated part of its ARN.
pub open spec fn graph_name(arn: Seq<char>) -> Seq<char> {
    last_segment(arn, '/')
}

/// The JSON object of a graph: its ARN under `GraphArn` and `ResourceId`,
/// its name under `GraphName` and, prefixed with `Detective-`, under `Name`;
/// a graph without an ARN is named `Detective Graph`. Every graph is `ACTIVE`.
pub open spec fn graph_json(graph: Graph) -> JsonView {
    let m = Map::<Seq<char>, JsonView>::empty();
    let m = match graph.arn {
        Some(a) => {
            let m = m.insert("GraphArn"@, JsonView::Str(a@));
            let m = m.insert("ResourceId"@, JsonView::Str(a@));
            let m = m.insert("GraphName"@, JsonView::Str(graph_name(a@)));
            m.insert("Name"@, JsonView::Str("Detective-"@ + graph_name(a@)))
        },
        None => m,
    };
    let m = with_opt(m, "CreatedTime"@, opt_ts_json(graph.created_time));
    let m = m.insert("Status"@, JsonView::Str("ACTIVE"@));
    let m = if m.dom().contains("Name"@) {
        m
    } else {
        m.insert("Name"@, JsonView::Str("Detective Graph"@))
    };
    JsonView::Object(m)
}

/// The index of the first graph whose ARN is `arn`.
pub open spec fn first_graph_with_arn(graphs: Seq<Graph>, arn: Seq<char>) -> Option<int>
    decreases graphs.len(),
{
    if graphs.len() == 0 {
        None
    } else if graphs.last().arn matches Some(a) && a@ == arn && first_graph_with_arn(graphs.drop_last(), arn) is None {
        Some(graphs.len() - 1)
    } else {
        first_graph_with_arn(graphs.drop_last(), arn)
    }
}

/// The text of the error for a graph that is not among those listed.
pub open spec fn graph_not_found_text(arn: Seq<char>) -> Seq<char> {
    "Detective graph "@ + arn + " not found"@
}

/// What is answered for the graph `arn`, given the graphs that were listed:
/// the first one with that ARN, else the not-found error.
pub open spec fn graph_lookup(graph_list: Option<Vec<Graph>>, arn: Seq<char>) -> Result<JsonView, Seq<char>> {
    match graph_list {
        Some(v) => match first_graph_with_arn(v@, arn) {
            Some(i) => Ok(graph_json(v@[i])),
            None => Err(graph_not_found_text(arn)),
        },
        None => Err(graph_not_found_text(arn)),
    }
}

impl<C> DetectiveService<C> {
    /// The JSON object of a graph.
    pub fn graph_to_json(&self, graph: &Graph) -> (v: JsonValue)
        ensures
            v.view() == graph_json(*graph),
    {
        let mut json = JsonObject::new();
        if let Some(arn) = &graph.arn {
            json.insert_str("GraphArn", arn);
            json.insert_str("ResourceId", arn);
            let name = after_last(arn.as_str(), '/');
            json.insert_str("GraphName", &name);
            let label = concat_text("Detective-", name.as_str());
            json.insert_str("Name", &label);
        }
        json.insert_opt_ts("CreatedTime", &graph.created_time);
        json.insert("Status", text_value("ACTIVE"));
        if json.get("Name").is_none() {
            json.insert("Name", text_value("Detective Graph"));
        }
        JsonValue::Object(json)
    }

    /// The details of a graph, which are what its listing shows.
    pub fn graph_detail_to_json(&self, graph: &Graph) -> (v: JsonValue)
        ensures
            v.view() == graph_json(*graph),
    {
        self.graph_to_json(graph)
    }

    /// The graphs of one page of `ListGraphs`, in order.
    pub fn graphs_of_page(&self, graph_list: &Option<Vec<Graph>>) -> (r: Vec<JsonValue>)
        ensures
            items_view(r@) == match *graph_list {
                Some(v) => v@.map_values(|g: Graph| graph_json(g)),
                None => Seq::empty(),
            },
    {
        let mut out: Vec<JsonValue> = Vec::new();
        if let Some(list) = graph_list {
            let mut i: usize = 0;
            while i < list.len()
                invariant
                    i <= list@.len(),
                    items_view(out@) =~= list@.take(i as int).map_values(|g: Graph| graph_json(g)),
                decreases list@.len() - i,
            {
                let ghost before = out@;
                let x = self.graph_to_json(&list[i]);
                out.push(x);
                proof {
                    lemma_items_view_push(before, x);
                    assert(list@.take(i + 1) =~= list@.take(i as int).push(list@[i as int]));
                }
                i = i + 1;
            }
            assert(list@.take(list@.len() as int) =~= list@);
        } else {
            assert(items_view(out@) =~= Seq::<JsonView>::empty());
        }
        out
    }

    /// The members of one page of `ListMembers`, in order.
    pub fn members_of_page(&self, member_details: &Option<Vec<MemberDetail>>) -> (r: Vec<JsonValue>)
        ensures
            items_view(r@) == match *member_details {
                Some(v) => v@.map_values(|m: MemberDetail| member_json(m)),
                None => Seq::empty(),
            },
    {
        let mut out: Vec<JsonValue> = Vec::new();
        if let Some(list) = member_details {
            let mut i: usize = 0;
            while i < list.len()
                invariant
                    i <= list@.len(),
                    items_view(out@) =~= list@.take(i as int).map_values(|m: MemberDetail| member_json(m)),
                decreases list@.len() - i,
            {
                let ghost before = out@;
                let x = self.member_to_json(&list[i]);
                out.push(x);
                proof {
                    lemma_items_view_push(before, x);
                    assert(list@.take(i + 1) =~= list@.take(i as int).push(list@[i as int]));
                }
                i = i + 1;
            }
            assert(list@.take(list@.len() as int) =~= list@);
        } else {
            assert(items_view(out@) =~= Seq::<JsonView>::empty());
        }
        out
    }

    /// The graph `graph_arn` among those that `ListGraphs` answered: the
    /// first with that ARN, or the error that names it.
    pub fn describe_graph(&self, graph_list: &Option<Vec<Graph>>, graph_arn: &String) -> (r: Result<JsonValue, String>)
        ensures
            match (r, graph_lookup(*graph_list, graph_arn@)) {
                (Ok(v), Ok(w)) => v.view() == w,
                (Err(e), Err(t)) => e@ == t,
                _ => false,
            },
    {
        if let Some(list) = graph_list {
            let mut i: usize = 0;
            while i < list.len()
                invariant
                    i <= list@.len(),
                    *graph_list == Some(*list),
                    first_graph_with_arn(list@.take(i as int), graph_arn@) is None,
                decreases list@.len() - i,
            {
                proof {
                    assert(list@.take(i + 1).drop_last() =~= list@.take(i as int));
                    assert(list@.take(i + 1).last() == list@[i as int]);
                }
                if let Some(arn) = &list[i].arn {
                    if *arn == *graph_arn {
                        proof {
                            assert(first_graph_with_arn(list@.take(i + 1), graph_arn@) == Some(i as int));
                            lemma_first_graph_prefix(list@, graph_arn@, i + 1);
                        }
                        return Ok(self.graph_detail_to_json(&list[i]));
                    }
                }
                i = i + 1;
            }
            assert(list@.take(list@.len() as int) =~= list@);
        }
        let mut text = concat_text("Detective graph ", graph_arn.as_str());
        text.append(" not found");
        Err(text)
    }
}

/// Where a prefix already holds a graph with the ARN, the whole list finds the same one.
proof fn lemma_first_graph_prefix(graphs: Seq<Graph>, arn: Seq<char>, k: int)
    requires
        0 < k <= graphs.len(),
        first_graph_with_arn(graphs.take(k), arn) is Some,
    ensures
        first_graph_with_arn(graphs, arn) == first_graph_with_arn(graphs.take(k), arn),
    decreases graphs.len() - k,
{
    if k < graphs.len() {
        assert(graphs.take(k + 1).drop_last() =~= graphs.take(k));
        lemma_first_graph_prefix(graphs, arn, k + 1);
    } else {
        assert(graphs.take(k) =~= graphs);
    }
}

/// The part after the last `c` holds no `c` and ends the text.
proof fn lemma_last_segment(s: Seq<char>, c: char)
    ensures
        forall|j: int| 0 <= j < last_segment(s, c).len() ==> last_segment(s, c)[j] != c,
        last_segment(s, c).len() <= s.len(),
        last_segment(s, c) =~= s.skip(s.len() - last_segment(s, c).len()),
    decreases s.len(),
{
    if s.len() > 0 && s.last() != c {
        lemma_last_segment(s.drop_last(), c);
        let t = last_segment(s.drop_last(), c);
        assert(last_segment(s, c) == t.push(s.last()));
        assert(s.skip(s.len() - t.len() - 1) =~= s.drop_last().skip(s.drop_last().len() - t.len()).push(s.last()));
    }
}

/// A graph with an ARN is named after it: `GraphName` is the end of the ARN
/// after its last `/`, holds no `/`, and `Name` is that name behind
/// `Detective-`. A graph without an ARN is named `Detective Graph`. Every
/// graph is `ACTIVE`.
pub proof fn law_graph_names(graph: Graph)
    ensures
        graph_json(graph) is Object,
        graph_json(graph)->Object_0["Status"@] == JsonView::Str("ACTIVE"@),
        match graph.arn {
            Some(a) => {
                let m = graph_json(graph)->Object_0;
                let n = graph_name(a@);
                &&& m["GraphName"@] == JsonView::Str(n)
                &&& m["Name"@] == JsonView::Str("Detective-"@ + n)
                &&& forall|j: int| 0 <= j < n.len() ==> n[j] != '/'
                &&& n == a@.skip(a@.len() - n.len())
            },
            None => graph_json(graph)->Object_0["Name"@] == JsonView::Str("Detective Graph"@),
        },
{
    if let Some(a) = graph.arn {
        lemma_last_segment(a@, '/');
        let m = graph_json(graph)->Object_0;
        assert(m.dom().contains("Name"@));
        assert("GraphName"@ != "Name"@) by {
            reveal_strlit("GraphName");
            reveal_strlit("Name");
            assert("GraphName"@.len() != "Name"@.len() || "GraphName"@[0] != "Name"@[0]);
        }
        assert("GraphName"@ != "Status"@) by {
            reveal_strlit("GraphName");
            reveal_strlit("Status");
            assert("GraphName"@.len() != "Status"@.len() || "GraphName"@[0] != "Status"@[0]);
        }
        assert("GraphName"@ != "CreatedTime"@) by {
            reveal_strlit("GraphName");
            reveal_strlit("CreatedTime");
            assert("GraphName"@.len() != "CreatedTime"@.len() || "GraphName"@[0] != "CreatedTime"@[0]);
        }
        assert("Name"@ != "Status"@) by {
            reveal_strlit("Name");
            reveal_strlit("Status");
            assert("Name"@.len() != "Status"@.len() || "Name"@[0] != "Status"@[0]);
        }
        assert("Name"@ != "CreatedTime"@) by {
            reveal_strlit("Name");
            reveal_strlit("CreatedTime");
            assert("Name"@.len() != "CreatedTime"@.len() || "Name"@[0] != "CreatedTime"@[0]);
        }
    } else {
        assert("Name"@ != "Status"@) by {
            reveal_strlit("Name");
            reveal_strlit("Status");
            assert("Name"@.len() != "Status"@.len() || "Name"@[0] != "Status"@[0]);
        }
        assert("Name"@ != "CreatedTime"@) by {
            reveal_strlit("Name");
            reveal_strlit("CreatedTime");
            assert("Name"@.len() != "CreatedTime"@.len() || "Name"@[0] != "CreatedTime"@[0]);
        }
    }
}


// ----- each reported field under its own key -----

/// What tells the keys of `member_json` apart: their lengths, and a letter where two have the same length.
proof fn lemma_member_json_keys_differ()
    ensures
        "AccountId"@.len() == 9,
        "DisabledReason"@.len() == 14,
        "EmailAddress"@.len() == 12,
        "GraphArn"@.len() == 8,
        "InvitedTime"@.len() == 11 && "InvitedTime"@[0] == 'I',
        "Status"@.len() == 6,
        "UpdatedTime"@.len() == 11 && "UpdatedTime"@[0] == 'U',
{
    reveal_strlit("AccountId");
    reveal_strlit("DisabledReason");
    reveal_strlit("EmailAddress");
    reveal_strlit("GraphArn");
    reveal_strlit("InvitedTime");
    reveal_strlit("Status");
    reveal_strlit("UpdatedTime");
}

#[verifier::spinoff_prover]
#[verifier::rlimit(30)]
proof fn lemma_member_json_fields_0(member: MemberDetail)
    ensures
        member_json(member) is Object,
        ({
            let m = member_json(member)->Object_0;
            &&& member.account_id is None ==> !m.contains_key("AccountId"@)
            &&& member.account_id is Some ==> m.contains_key("AccountId"@) && m["AccountId"@] == JsonView::Str(member.account_id->0@)
            &&& member.disabled_reason is None ==> !m.contains_key("DisabledReason"@)
            &&& member.disabled_reason is Some ==> m.contains_key("DisabledReason"@) && m["DisabledReason"@] == JsonView::Str(member.disabled_reason->0@)
            &&& member.email_address is None ==> !m.contains_key("EmailAddress"@)
            &&& member.email_address is Some ==> m.contains_key("EmailAddress"@) && m["EmailAddress"@] == JsonView::Str(member.email_address->0@)
        }),
{
    lemma_member_json_keys_differ();
}

#[verifier::spinoff_prover]
#[verifier::rlimit(30)]
proof fn lemma_member_json_fields_1(member: MemberDetail)
    ensures
        member_json(member) is Object,
        ({
            let m = member_json(member)->Object_0;
            &&& member.graph_arn is None ==> !m.contains_key("GraphArn"@)
            &&& member.graph_arn is Some ==> m.contains_key("GraphArn"@) && m["GraphArn"@] == JsonView::Str(member.graph_arn->0@)
            &&& member.invited_time is None ==> !m.contains_key("InvitedTime"@)
            &&& member.invited_time is Some ==> m.contains_key("InvitedTime"@) && m["InvitedTime"@] == ts_json(member.invited_time->0)
            &&& member.status is None ==> !m.contains_key("Status"@)
            &&& member.status is Some ==> m.contains_key("Status"@) && m["Status"@] == JsonView::Str(member.status->0@)
        }),
{
    lemma_member_json_keys_differ();
}

#[verifier::spinoff_prover]
#[verifier::rlimit(30)]
proof fn lemma_member_json_fields_2(member: MemberDetail)
    ensures
        member_json(member) is Object,
        ({
            let m = member_json(member)->Object_0;
            &&& member.updated_time is None ==> !m.contains_key("UpdatedTime"@)
            &&& member.updated_time is Some ==> m.contains_key("UpdatedTime"@) && m["UpdatedTime"@] == ts_json(member.updated_time->0)
        }),
{
    lemma_member_json_keys_differ();
}

/// The object of a member detail holds each reported field of it under its own key, and such a key is missing exactly when AWS did not report the field.
pub proof fn law_member_fields(member: MemberDetail)
    ensures
        member_json(member) is Object,
        ({
            let m = member_json(member)->Object_0;
            &&& member.account_id is None ==> !m.contains_key("AccountId"@)
            &&& member.account_id is Some ==> m.contains_key("AccountId"@) && m["AccountId"@] == JsonView::Str(member.account_id->0@)
            &&& member.disabled_reason is None ==> !m.contains_key("DisabledReason"@)
            &&& member.disabled_reason is Some ==> m.contains_key("DisabledReason"@) && m["DisabledReason"@] == JsonView::Str(member.disabled_reason->0@)
            &&& member.email_address is None ==> !m.contains_key("EmailAddress"@)
            &&& member.email_address is Some ==> m.contains_key("EmailAddress"@) && m["EmailAddress"@] == JsonView::Str(member.email_address->0@)
            &&& member.graph_arn is None ==> !m.contains_key("GraphArn"@)
            &&& member.graph_arn is Some ==> m.contains_key("GraphArn"@) && m["GraphArn"@] == JsonView::Str(member.graph_arn->0@)
            &&& member.invited_time is None ==> !m.contains_key("InvitedTime"@)
            &&& member.invited_time is Some ==> m.contains_key("InvitedTime"@) && m["InvitedTime"@] == ts_json(member.invited_time->0)
            &&& member.status is None ==> !m.contains_key("Status"@)
            &&& member.status is Some ==> m.contains_key("Status"@) && m["Status"@] == JsonView::Str(member.status->0@)
            &&& member.updated_time is None ==> !m.contains_key("UpdatedTime"@)
            &&& member.updated_time is Some ==> m.contains_key("UpdatedTime"@) && m["UpdatedTime"@] == ts_json(member.updated_time->0)
        }),
{
    lemma_member_json_fields_0(member);
    lemma_member_json_fields_1(member);
    lemma_member_json_fields_2(member);
}

} // verus!
