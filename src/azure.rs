use vstd::prelude::*;
use crate::crd::{AzureGroupSpec, Member};
use crate::error::Error;
use crate::text::joined;

verus! {

/// Credentials of the service principal that reads the directory.
#[derive(Clone, Debug)]
pub struct AzureCredentials {
    pub tenant_id: String,
    pub client_id: String,
    pub client_secret: String,
}

/// The metadata of a group, as the directory returns it.
#[derive(Clone, Debug)]
pub struct GroupInfoResponse {
    pub display_name: Option<String>,
    pub description: Option<String>,
    pub mail: Option<String>,
}

/// A group as read from the directory: its membership merged with its metadata.
/// Every field may be absent; it must be validated before it is stored.
#[derive(Clone, Debug)]
pub struct GroupResponse {
    pub members: Vec<GroupResponseMember>,
    pub id: Option<String>,
    pub display_name: Option<String>,
    pub description: Option<String>,
    pub mail: Option<String>,
}

/// A member as the directory returns it; `mail` may be absent.
#[derive(Clone, Debug)]
pub struct GroupResponseMember {
    pub id: String,
    pub display_name: String,
    pub mail: Option<String>,
}

/// What `slug::slugify` makes of a string.
pub uninterp spec fn slug_of(s: Seq<char>) -> Seq<char>;

/// A slug holds only `a`-`z`, `0`-`9` and `-`, never starts or ends with `-`
/// and never holds two `-` in a row.
pub open spec fn is_slug(s: Seq<char>) -> bool {
    &&& forall|i: int|
        0 <= i < s.len() ==> ('a' <= #[trigger] s[i] <= 'z' || '0' <= s[i] <= '9' || s[i] == '-')
    &&& s.len() > 0 ==> s[0] != '-' && s[s.len() - 1] != '-'
    &&& forall|i: int| 0 <= i < s.len() - 1 ==> !(#[trigger] s[i] == '-' && s[i + 1] == '-')
}

/// Relies on `slug::slugify`: the slug depends on the string alone, and is
/// made of lower-case letters, digits and single inner dashes.
#[verifier::external_body]
fn slugify(s: &str) -> (r: String)
    ensures
        r@ == slug_of(s@),
        is_slug(r@),
{
    slug::slugify(s)
}

impl GroupResponse {
    /// The resource name of the group: the slug of its display name, if any.
    pub fn slug_display_name(&self) -> (r: Option<String>)
        ensures
            r is Some <==> self.display_name is Some,
            r is Some ==> r->0@ == slug_of(self.display_name->0@) && is_slug(r->0@),
    {
        match &self.display_name {
            None => None,
            Some(name) => Some(slugify(name.as_str())),
        }
    }
}

/// A raw member is accepted when it carries a mail address.
pub open spec fn has_mail(m: GroupResponseMember) -> bool {
    m.mail is Some
}

/// The member that an accepted raw member becomes.
pub open spec fn member_of(m: GroupResponseMember) -> Member {
    Member { id: m.id, display_name: m.display_name, mail: m.mail->0 }
}

/// The members kept from a raw list: those with a mail address, in order.
pub open spec fn accepted_members(ms: Seq<GroupResponseMember>) -> Seq<Member> {
    ms.filter(|m: GroupResponseMember| has_mail(m)).map_values(|m: GroupResponseMember| member_of(m))
}

/// The text of the report on a raw member without a mail address.
pub open spec fn rejection_detail(m: GroupResponseMember) -> Seq<char> {
    "property 'mail' is missing on "@ + m.display_name@
}

/// The reports on a raw list: one for each member without a mail address, in order.
pub open spec fn rejection_details(ms: Seq<GroupResponseMember>) -> Seq<Seq<char>> {
    ms.filter(|m: GroupResponseMember| !has_mail(m)).map_values(
        |m: GroupResponseMember| rejection_detail(m),
    )
}

/// `e` reports a member rejected with the text `d`.
pub open spec fn is_rejection(e: Error, d: Seq<char>) -> bool {
    match e {
        Error::IntoMemberFailed(s) => s@ == d,
        _ => false,
    }
}

proof fn lemma_members_push(s: Seq<GroupResponseMember>, m: GroupResponseMember)
    ensures
        accepted_members(s.push(m)) == (if has_mail(m) {
            accepted_members(s).push(member_of(m))
        } else {
            accepted_members(s)
        }),
        rejection_details(s.push(m)) == (if has_mail(m) {
            rejection_details(s)
        } else {
            rejection_details(s).push(rejection_detail(m))
        }),
{
    let p = |x: GroupResponseMember| has_mail(x);
    let q = |x: GroupResponseMember| !has_mail(x);
    assert(s.push(m).drop_last() == s);
    assert(s.push(m).last() == m);
    reveal_with_fuel(Seq::filter, 1);
    assert(s.push(m).filter(p) == (if has_mail(m) { s.filter(p).push(m) } else { s.filter(p) }));
    assert(s.push(m).filter(q) == (if has_mail(m) { s.filter(q) } else { s.filter(q).push(m) }));
    assert(accepted_members(s.push(m)) =~= (if has_mail(m) {
        accepted_members(s).push(member_of(m))
    } else {
        accepted_members(s)
    }));
    assert(rejection_details(s.push(m)) =~= (if has_mail(m) {
        rejection_details(s)
    } else {
        rejection_details(s).push(rejection_detail(m))
    }));
}

/// Conversion keeps exactly the members that carry a mail address: every one of
/// them appears, nothing else does, and each other member gets a report.
pub proof fn lemma_accepted_exactly(ms: Seq<GroupResponseMember>)
    ensures
        accepted_members(ms).len() + rejection_details(ms).len() == ms.len(),
        forall|m: GroupResponseMember| ms.contains(m) && has_mail(m) ==> accepted_members(ms).contains(member_of(m)),
        forall|x: Member| #[trigger] accepted_members(ms).contains(x) ==> exists|m: GroupResponseMember|
            ms.contains(m) && has_mail(m) && x == member_of(m),
    decreases ms.len(),
{
    if ms.len() > 0 {
        let s = ms.drop_last();
        let m = ms.last();
        assert(s.push(m) == ms);
        lemma_members_push(s, m);
        lemma_accepted_exactly(s);
        assert forall|y: GroupResponseMember| ms.contains(y) && has_mail(y) implies accepted_members(ms).contains(member_of(y)) by {
            let k = choose|k: int| 0 <= k < ms.len() && ms[k] == y;
            if k < ms.len() - 1 {
                assert(s[k] == y);
                assert(s.contains(y));
                let t = choose|t: int| 0 <= t < accepted_members(s).len() && accepted_members(s)[t] == member_of(y);
                assert(accepted_members(ms)[t] == member_of(y));
            } else {
                assert(accepted_members(ms)[accepted_members(ms).len() - 1] == member_of(y));
            }
        }
        assert forall|x: Member| #[trigger] accepted_members(ms).contains(x) implies exists|y: GroupResponseMember|
            ms.contains(y) && has_mail(y) && x == member_of(y) by {
            let t = choose|t: int| 0 <= t < accepted_members(ms).len() && accepted_members(ms)[t] == x;
            if t < accepted_members(s).len() {
                assert(accepted_members(s)[t] == x);
                assert(accepted_members(s).contains(x));
                let y = choose|y: GroupResponseMember| s.contains(y) && has_mail(y) && x == member_of(y);
                let k = choose|k: int| 0 <= k < s.len() && s[k] == y;
                assert(ms[k] == y);
                assert(ms.contains(y));
            } else {
                assert(ms[ms.len() - 1] == m);
                assert(ms.contains(m));
            }
        }
    }
}

/// The resource name depends on the display name alone: two responses with the
/// same display name map to the same name, on every call and in every process.
pub proof fn lemma_slug_stable(a: GroupResponse, b: GroupResponse)
    requires
        a.display_name is Some,
        b.display_name is Some,
        a.display_name->0@ == b.display_name->0@,
    ensures
        slug_of(a.display_name->0@) == slug_of(b.display_name->0@),
{
}

/// A missing id and a missing display name are reported apart, whatever the id.
pub proof fn lemma_conversion_failures_distinct(id: Seq<char>)
    ensures
        missing_id_detail() != missing_display_name_detail(id),
{
    reveal_strlit("field 'id' is None.");
    reveal_strlit("field 'display_name' is None on group: ");
    assert(missing_id_detail().len() < missing_display_name_detail(id).len());
}

/// Splits a raw member list into the members that are accepted and a report
/// on each member that is rejected for lack of a mail address.
pub fn partition_members(ms: &Vec<GroupResponseMember>) -> (r: (Vec<Member>, Vec<Error>))
    ensures
        r.0@ == accepted_members(ms@),
        r.1@.len() == rejection_details(ms@).len(),
        forall|i: int| 0 <= i < r.1@.len() ==> is_rejection(#[trigger] r.1@[i], rejection_details(ms@)[i]),
{
    let mut accepted: Vec<Member> = Vec::new();
    let mut rejected: Vec<Error> = Vec::new();
    let mut i: usize = 0;
    while i < ms.len()
        invariant
            i <= ms@.len(),
            accepted@ == accepted_members(ms@.subrange(0, i as int)),
            rejected@.len() == rejection_details(ms@.subrange(0, i as int)).len(),
            forall|k: int| 0 <= k < rejected@.len() ==> is_rejection(#[trigger] rejected@[k], rejection_details(ms@.subrange(0, i as int))[k]),
        decreases ms@.len() - i,
    {
        let m = &ms[i];
        proof {
            assert(ms@.subrange(0, i as int + 1) == ms@.subrange(0, i as int).push(ms@[i as int]));
            lemma_members_push(ms@.subrange(0, i as int), ms@[i as int]);
        }
        match &m.mail {
            Some(mail) => {
                accepted.push(Member { id: m.id.clone(), display_name: m.display_name.clone(), mail: mail.clone() });
            },
            None => {
                rejected.push(Error::IntoMemberFailed(joined("property 'mail' is missing on ", m.display_name.as_str())));
            },
        }
        i = i + 1;
    }
    assert(ms@.subrange(0, ms@.len() as int) == ms@);
    (accepted, rejected)
}

/// `s` is the validated form of `g`: identity and metadata carried over, the
/// members with a mail address kept in order, and the count derived from them.
pub open spec fn is_conversion_of(s: AzureGroupSpec, g: GroupResponse) -> bool {
    &&& g.id is Some && g.display_name is Some
    &&& s.id == g.id->0
    &&& s.display_name == g.display_name->0
    &&& s.description == g.description
    &&& s.mail == g.mail
    &&& s.members@ == accepted_members(g.members@)
    &&& s.count == s.members@.len()
}

/// The detail of the failure for a group without an id.
pub open spec fn missing_id_detail() -> Seq<char> {
    "field 'id' is None."@
}

/// The detail of the failure for a group without a display name; it names the group.
pub open spec fn missing_display_name_detail(id: Seq<char>) -> Seq<char> {
    "field 'display_name' is None on group: "@ + id
}

/// `e` is a failed conversion of a group response, with the detail `d`.
pub open spec fn is_conversion_failure(e: Error, d: Seq<char>) -> bool {
    match e {
        Error::IntoAzureGroupSpecFailed(s) => s@ == d,
        _ => false,
    }
}

impl Member {
    /// Validates a raw member: it is accepted exactly when it has a mail address.
    pub fn try_from(value: GroupResponseMember) -> (r: Result<Member, Error>)
        ensures
            has_mail(value) ==> r == Ok::<Member, Error>(member_of(value)),
            !has_mail(value) ==> r is Err && is_rejection(r->Err_0, rejection_detail(value)),
    {
        match value.mail {
            None => Err(Error::IntoMemberFailed(joined("property 'mail' is missing on ", value.display_name.as_str()))),
            Some(mail) => Ok(Member { id: value.id, display_name: value.display_name, mail }),
        }
    }
}

impl AzureGroupSpec {
    /// Validates a raw group response. It fails when the id or the display
    /// name is absent; members without a mail address are left out.
    pub fn try_from(group_response: GroupResponse) -> (r: Result<AzureGroupSpec, Error>)
        ensures
            group_response.id is None ==> r is Err && is_conversion_failure(r->Err_0, missing_id_detail()),
            group_response.id is Some && group_response.display_name is None ==> r is Err
                && is_conversion_failure(r->Err_0, missing_display_name_detail(group_response.id->0@)),
            group_response.id is Some && group_response.display_name is Some ==> r is Ok
                && is_conversion_of(r->Ok_0, group_response),
            r is Ok ==> r->Ok_0.wf(),
    {
        let GroupResponse { members, id, display_name, description, mail } = group_response;
        match id {
            None => Err(Error::IntoAzureGroupSpecFailed("field 'id' is None.".to_owned())),
            Some(id) => match display_name {
                None => Err(Error::IntoAzureGroupSpecFailed(joined("field 'display_name' is None on group: ", id.as_str()))),
                Some(display_name) => {
                    let (members, _rejected) = partition_members(&members);
                    let count = members.len();
                    Ok(AzureGroupSpec { id, members, count, display_name, description, mail })
                },
            },
        }
    }
}

/// Merges the membership read of a group with its metadata read into one
/// response, keyed by the requested group id.
pub fn merge_group_response(group_uuid: &String, members_resp: GroupResponse, group_info_resp: GroupInfoResponse) -> (r: GroupResponse)
    ensures
        r.id == Some(*group_uuid),
        r.display_name == group_info_resp.display_name,
        r.mail == group_info_resp.mail,
        r.description == group_info_resp.description,
        r.members == members_resp.members,
{
    GroupResponse {
        id: Some(group_uuid.clone()),
        display_name: group_info_resp.display_name,
        mail: group_info_resp.mail,
        description: group_info_resp.description,
        members: members_resp.members,
    }
}

#[verifier::external_type_specification]
#[verifier::external_body]
pub struct ExUrl(url::Url);

/// Whether `url::Url::parse` accepts a text.
pub uninterp spec fn url_accepts(s: Seq<char>) -> bool;

/// Relies on `url::Url::parse`: whether a text parses depends on the text alone.
#[verifier::external_body]
fn parse_url(s: &str) -> (r: Result<url::Url, url::ParseError>)
    ensures
        r is Ok <==> url_accepts(s@),
{
    url::Url::parse(s)
}

/// The address of the directory's groups.
pub open spec fn groups_endpoint() -> Seq<char> {
    "https://graph.microsoft.com/v1.0/groups/"@
}

/// The address of a group's membership.
pub open spec fn members_url_text(group_uuid: Seq<char>) -> Seq<char> {
    groups_endpoint() + group_uuid + "/members"@
}

/// The address of a group's metadata.
pub open spec fn group_info_url_text(group_uuid: Seq<char>) -> Seq<char> {
    groups_endpoint() + group_uuid
}

/// The parsed address of a group's membership.
pub fn members_url(group_uuid: &str) -> (r: Result<url::Url, Error>)
    ensures
        r is Ok <==> url_accepts(members_url_text(group_uuid@)),
        r is Err ==> r->Err_0 is URLParse,
{
    let base = joined("https://graph.microsoft.com/v1.0/groups/", group_uuid);
    let text = joined(base.as_str(), "/members");
    match parse_url(text.as_str()) {
        Ok(u) => Ok(u),
        Err(e) => Err(Error::URLParse(e)),
    }
}

/// The parsed address of a group's metadata.
pub fn group_info_url(group_uuid: &str) -> (r: Result<url::Url, Error>)
    ensures
        r is Ok <==> url_accepts(group_info_url_text(group_uuid@)),
        r is Err ==> r->Err_0 is URLParse,
{
    let text = joined("https://graph.microsoft.com/v1.0/groups/", group_uuid);
    match parse_url(text.as_str()) {
        Ok(u) => Ok(u),
        Err(e) => Err(Error::URLParse(e)),
    }
}

} // verus!
