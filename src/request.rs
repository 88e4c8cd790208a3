//! Decoding request bodies into typed commands. Each field may be written
//! under its snake_case name or under its camelCase alias.

use vstd::prelude::*;
use crate::error::GatewayError;
use crate::json::{object_members, parse_object, members_view, JsonField, MemberValue};
use crate::naming::opt_view;

verus! {

/// The value of the last member with the given name.
pub open spec fn lookup(ms: Seq<(Seq<char>, MemberValue)>, name: Seq<char>) -> Option<MemberValue>
    decreases ms.len(),
{
    if ms.len() == 0 {
        None
    } else if ms.last().0 == name {
        Some(ms.last().1)
    } else {
        lookup(ms.drop_last(), name)
    }
}

/// How a field is bound by the members of an object.
pub ghost enum Binding {
    Absent,
    Present(MemberValue),
    /// Both the name and its alias occur.
    Duplicate,
}

pub open spec fn binding(
    ms: Seq<(Seq<char>, MemberValue)>,
    name: Seq<char>,
    alias: Option<Seq<char>>,
) -> Binding {
    let by_alias = match alias {
        Some(a) => lookup(ms, a),
        None => None,
    };
    match (lookup(ms, name), by_alias) {
        (Some(_), Some(_)) => Binding::Duplicate,
        (Some(v), None) => Binding::Present(v),
        (None, Some(v)) => Binding::Present(v),
        (None, None) => Binding::Absent,
    }
}

/// A required string field: its text, or `None` when it cannot be read.
pub open spec fn required_text(b: Binding) -> Option<Seq<char>> {
    match b {
        Binding::Present(MemberValue::Text(s)) => Some(s),
        _ => None,
    }
}

/// An optional string field: absent and `null` read as `None`; the outer
/// `None` means it cannot be read.
pub open spec fn optional_text(b: Binding) -> Option<Option<Seq<char>>> {
    match b {
        Binding::Absent => Some(None),
        Binding::Present(MemberValue::Null) => Some(None),
        Binding::Present(MemberValue::Text(s)) => Some(Some(s)),
        _ => None,
    }
}

pub open spec fn opt_string_view(o: Option<String>) -> Option<Seq<char>> {
    match o {
        Some(s) => Some(s@),
        None => None,
    }
}

/// Borrows the text of an optional string.
pub fn optional_str(o: &Option<String>) -> (r: Option<&str>)
    ensures
        opt_view(r) == opt_string_view(*o),
{
    match o {
        Some(s) => Some(s.as_str()),
        None => None,
    }
}

/// The image URL and prompt that an object's members give.
pub open spec fn analysis_request_of(ms: Seq<(Seq<char>, MemberValue)>) -> Option<
    (Seq<char>, Option<Seq<char>>),
> {
    let url = required_text(binding(ms, "image_url"@, Some("imageUrl"@)));
    let prompt = optional_text(binding(ms, "prompt"@, None));
    if url is Some && prompt is Some {
        Some((url->Some_0, prompt->Some_0))
    } else {
        None
    }
}

/// The image data, user, mode and image name that an object's members give.
pub open spec fn upload_request_of(ms: Seq<(Seq<char>, MemberValue)>) -> Option<
    (Seq<char>, Seq<char>, Option<Seq<char>>, Option<Seq<char>>),
> {
    let data = required_text(binding(ms, "image_data_base64"@, Some("imageDataBase64"@)));
    let user = required_text(binding(ms, "user_id"@, Some("userId"@)));
    let mode = optional_text(binding(ms, "mode"@, None));
    let name = optional_text(binding(ms, "image_name"@, Some("imageName"@)));
    if data is Some && user is Some && mode is Some && name is Some {
        Some((data->Some_0, user->Some_0, mode->Some_0, name->Some_0))
    } else {
        None
    }
}

/// An image to analyse, with an optional instruction.
#[derive(Debug)]
pub struct AnalysisRequest {
    pub image_url: String,
    pub prompt: Option<String>,
}

/// An image to store for a user.
#[derive(Debug)]
pub struct UploadRequest {
    pub image_data_base64: String,
    pub user_id: String,
    pub mode: Option<String>,
    pub image_name: Option<String>,
}

fn member_index(ms: &Vec<(String, JsonField)>, name: &str) -> (r: Option<usize>)
    ensures
        r is None ==> lookup(members_view(ms@), name@) is None,
        r matches Some(i) ==> i < ms.len() && lookup(members_view(ms@), name@) == Some(
            ms@[i as int].1@,
        ),
{
    let wanted = String::from_str(name);
    let mut found: Option<usize> = None;
    let mut i: usize = 0;
    while i < ms.len()
        invariant
            i <= ms.len(),
            found is None ==> lookup(members_view(ms@).take(i as int), name@) is None,
            found matches Some(j) ==> j < i && lookup(members_view(ms@).take(i as int), name@)
                == Some(ms@[j as int].1@),
            wanted@ == name@,
        decreases ms.len() - i,
    {
        let ghost before = members_view(ms@).take(i as int);
        let ghost after = members_view(ms@).take(i + 1);
        assert(after.drop_last() =~= before);
        if ms[i].0 == wanted {
            found = Some(i);
        }
        i = i + 1;
    }
    assert(members_view(ms@).take(ms.len() as int) =~= members_view(ms@));
    found
}

fn field_binding(ms: &Vec<(String, JsonField)>, name: &str, alias: Option<&str>) -> (r: Result<
    Option<usize>,
    (),
>)
    ensures
        r is Err <==> binding(members_view(ms@), name@, opt_view(alias)) == Binding::Duplicate,
        r matches Ok(None) <==> binding(members_view(ms@), name@, opt_view(alias))
            == Binding::Absent,
        r matches Ok(Some(i)) ==> i < ms.len() && binding(members_view(ms@), name@, opt_view(alias))
            == Binding::Present(ms@[i as int].1@),
{
    let by_name = member_index(ms, name);
    let by_alias = match alias {
        Some(a) => member_index(ms, a),
        None => None,
    };
    match (by_name, by_alias) {
        (Some(_), Some(_)) => Err(()),
        (Some(i), None) => Ok(Some(i)),
        (None, Some(i)) => Ok(Some(i)),
        (None, None) => Ok(None),
    }
}

fn field_error(problem: &str, name: &str) -> (r: GatewayError)
    ensures
        r is MalformedRequest,
{
    GatewayError::MalformedRequest(String::from_str(problem).concat("`").concat(name).concat("`"))
}

fn required_field(ms: &Vec<(String, JsonField)>, name: &str, alias: Option<&str>) -> (r: Result<
    String,
    GatewayError,
>)
    ensures
        r is Err <==> required_text(binding(members_view(ms@), name@, opt_view(alias))) is None,
        r matches Ok(s) ==> required_text(binding(members_view(ms@), name@, opt_view(alias)))
            == Some(s@),
        r matches Err(e) ==> e is MalformedRequest,
{
    match field_binding(ms, name, alias) {
        Err(()) => Err(field_error("duplicate field ", name)),
        Ok(None) => Err(field_error("missing field ", name)),
        Ok(Some(i)) => match &ms[i].1 {
            JsonField::Text(s) => Ok(s.clone()),
            _ => Err(field_error("expected a string for field ", name)),
        },
    }
}

fn optional_field(ms: &Vec<(String, JsonField)>, name: &str, alias: Option<&str>) -> (r: Result<
    Option<String>,
    GatewayError,
>)
    ensures
        r is Err <==> optional_text(binding(members_view(ms@), name@, opt_view(alias))) is None,
        r matches Ok(o) ==> optional_text(binding(members_view(ms@), name@, opt_view(alias)))
            == Some(opt_string_view(o)),
        r matches Err(e) ==> e is MalformedRequest,
{
    match field_binding(ms, name, alias) {
        Err(()) => Err(field_error("duplicate field ", name)),
        Ok(None) => Ok(None),
        Ok(Some(i)) => match &ms[i].1 {
            JsonField::Text(s) => Ok(Some(s.clone())),
            JsonField::Null => Ok(None),
            JsonField::Other => Err(field_error("expected a string or null for field ", name)),
        },
    }
}

fn members_of(body: &[u8]) -> (r: Result<Vec<(String, JsonField)>, GatewayError>)
    ensures
        r is Ok <==> object_members(body@) is Some,
        r matches Ok(ms) ==> members_view(ms@) == object_members(body@)->Some_0,
        r matches Err(e) ==> e is MalformedRequest,
{
    match parse_object(body) {
        Some(ms) => Ok(ms),
        None => Err(GatewayError::MalformedRequest(String::from_str("request body is not a JSON object"))),
    }
}

/// Reads an analysis request from a JSON body.
pub fn decode_analysis_request(body: &[u8]) -> (r: Result<AnalysisRequest, GatewayError>)
    ensures
        r is Ok <==> object_members(body@) is Some && analysis_request_of(
            object_members(body@)->Some_0,
        ) is Some,
        r matches Ok(q) ==> analysis_request_of(object_members(body@)->Some_0) == Some(
            (q.image_url@, opt_string_view(q.prompt)),
        ),
        r matches Err(e) ==> e is MalformedRequest,
{
    let ms = members_of(body)?;
    let image_url = required_field(&ms, "image_url", Some("imageUrl"))?;
    let prompt = optional_field(&ms, "prompt", None)?;
    Ok(AnalysisRequest { image_url, prompt })
}

/// Reads an upload request from a JSON body.
pub fn decode_upload_request(body: &[u8]) -> (r: Result<UploadRequest, GatewayError>)
    ensures
        r is Ok <==> object_members(body@) is Some && upload_request_of(
            object_members(body@)->Some_0,
        ) is Some,
        r matches Ok(q) ==> upload_request_of(object_members(body@)->Some_0) == Some(
            (
                q.image_data_base64@,
                q.user_id@,
                opt_string_view(q.mode),
                opt_string_view(q.image_name),
            ),
        ),
        r matches Err(e) ==> e is MalformedRequest,
{
    let ms = members_of(body)?;
    let image_data_base64 = required_field(&ms, "image_data_base64", Some("imageDataBase64"))?;
    let user_id = required_field(&ms, "user_id", Some("userId"))?;
    let mode = optional_field(&ms, "mode", None)?;
    let image_name = optional_field(&ms, "image_name", Some("imageName"))?;
    Ok(UploadRequest { image_data_base64, user_id, mode, image_name })
}

} // verus!

verus! {

proof fn lemma_lookup_push(ms: Seq<(Seq<char>, MemberValue)>, m: (Seq<char>, MemberValue), name: Seq<char>)
    ensures
        lookup(ms.push(m), name) == if m.0 == name { Some(m.1) } else { lookup(ms, name) },
{
    assert(ms.push(m).drop_last() =~= ms);
}

/// An object with neither `image_url` nor `imageUrl` gives no analysis request.
pub proof fn lemma_image_url_required(ms: Seq<(Seq<char>, MemberValue)>)
    requires
        lookup(ms, "image_url"@) is None,
        lookup(ms, "imageUrl"@) is None,
    ensures
        analysis_request_of(ms) is None,
{
}

/// The image URL given under `image_url` or under `imageUrl` reads as the same
/// request, which holds that URL whenever the rest of the object can be read.
pub proof fn lemma_image_url_alias(rest: Seq<(Seq<char>, MemberValue)>, url: Seq<char>)
    requires
        lookup(rest, "image_url"@) is None,
        lookup(rest, "imageUrl"@) is None,
    ensures
        analysis_request_of(rest.push(("image_url"@, MemberValue::Text(url))))
            == analysis_request_of(rest.push(("imageUrl"@, MemberValue::Text(url)))),
        analysis_request_of(rest.push(("image_url"@, MemberValue::Text(url)))) is Some
            <==> optional_text(binding(rest, "prompt"@, None)) is Some,
        analysis_request_of(rest.push(("image_url"@, MemberValue::Text(url)))) matches Some(q)
            ==> q.0 == url,
{
    reveal_strlit("image_url");
    reveal_strlit("imageUrl");
    reveal_strlit("prompt");
    assert("image_url"@[5] != "imageUrl"@[5]);
    assert("image_url"@[0] != "prompt"@[0]);
    assert("imageUrl"@[0] != "prompt"@[0]);
    let by_name = ("image_url"@, MemberValue::Text(url));
    let by_alias = ("imageUrl"@, MemberValue::Text(url));
    lemma_lookup_push(rest, by_name, "image_url"@);
    lemma_lookup_push(rest, by_name, "imageUrl"@);
    lemma_lookup_push(rest, by_name, "prompt"@);
    lemma_lookup_push(rest, by_alias, "image_url"@);
    lemma_lookup_push(rest, by_alias, "imageUrl"@);
    lemma_lookup_push(rest, by_alias, "prompt"@);
}

} // verus!
