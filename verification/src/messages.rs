//! The one endpoint of the API that is modelled: listing device messages.

use vstd::prelude::*;

use crate::json::find_list;
use crate::json::find_text;
use crate::json::is_object;
use crate::json::json_document;
use crate::json::json_is_object;
use crate::json::list_member;
use crate::json::list_member_view;
use crate::json::list_view;
use crate::json::parse_document;
use crate::json::text_member;
use crate::json::text_member_view;
use crate::json::Member;
use crate::query::decimal;
use crate::query::decimal_string;
use crate::query::names_differ;
use crate::query::push_field;
use crate::query::set_fields;
use crate::query::set_fields_are_exact;
use crate::query::set_fields_step;
use crate::query::text_view;
use crate::query::Field;
use crate::request::pairs_view;
use crate::request::Error;
use crate::request::Expect;
use crate::request::Request;
use crate::request_for;
use crate::NRFCloudClient;

verus! {

/// The path of the endpoint, below the base URL.
pub open spec fn messages_path() -> Seq<char> {
    "/messages"@
}

/// The parameters of a listing, as mathematical values.
#[allow(non_snake_case)]
pub struct ListMessagesParamsView {
    pub appId: Option<Seq<char>>,
    pub deviceId: Option<Seq<char>>,
    pub topic: Option<Seq<char>>,
    pub start: Option<Seq<char>>,
    pub end: Option<Seq<char>>,
    pub pageLimit: Option<u32>,
    pub pageNextToken: Option<Seq<char>>,
    pub pageSort: Option<Seq<char>>,
}

/// The parameters of a listing. Each is optional, and each value is sent as
/// it is: what a value may be is for the service to say.
#[allow(non_snake_case)]
#[derive(Debug)]
pub struct ListMessagesParams {
    pub appId: Option<String>,
    pub deviceId: Option<String>,
    pub topic: Option<String>,
    pub start: Option<String>,
    pub end: Option<String>,
    pub pageLimit: Option<u32>,
    pub pageNextToken: Option<String>,
    pub pageSort: Option<String>,
}

impl View for ListMessagesParams {
    type V = ListMessagesParamsView;

    open spec fn view(&self) -> ListMessagesParamsView {
        ListMessagesParamsView {
            appId: text_view(self.appId),
            deviceId: text_view(self.deviceId),
            topic: text_view(self.topic),
            start: text_view(self.start),
            end: text_view(self.end),
            pageLimit: self.pageLimit,
            pageNextToken: text_view(self.pageNextToken),
            pageSort: text_view(self.pageSort),
        }
    }
}

/// The parameters of which none is set.
pub open spec fn no_params() -> ListMessagesParamsView {
    ListMessagesParamsView {
        appId: None,
        deviceId: None,
        topic: None,
        start: None,
        end: None,
        pageLimit: None,
        pageNextToken: None,
        pageSort: None,
    }
}

/// A page size as it stands in the query: in decimal.
pub open spec fn limit_text(limit: Option<u32>) -> Option<Seq<char>> {
    match limit {
        Some(n) => Some(decimal(n as nat)),
        None => None,
    }
}

/// The fields of the parameters under their names in the query, in the order
/// in which they are sent.
pub open spec fn fields_of(params: ListMessagesParamsView) -> Seq<Field> {
    seq![
        ("appId"@, params.appId),
        ("deviceId"@, params.deviceId),
        ("topic"@, params.topic),
        ("start"@, params.start),
        ("end"@, params.end),
        ("pageLimit"@, limit_text(params.pageLimit)),
        ("pageNextToken"@, params.pageNextToken),
        ("pageSort"@, params.pageSort),
    ]
}

/// The query of a listing: the fields that are set, and no others.
pub open spec fn query_of(params: ListMessagesParamsView) -> Seq<(Seq<char>, Seq<char>)> {
    set_fields(fields_of(params))
}

impl Default for ListMessagesParams {
    fn default() -> (params: Self)
        ensures
            params@ == no_params(),
    {
        ListMessagesParams {
            appId: None,
            deviceId: None,
            topic: None,
            start: None,
            end: None,
            pageLimit: None,
            pageNextToken: None,
            pageSort: None,
        }
    }
}

impl ListMessagesParams {
    /// The query parameters that stand for these parameters.
    pub fn to_query(&self) -> (query: Vec<(String, String)>)
        ensures
            pairs_view(query@) == query_of(self@),
    {
        let limit = match self.pageLimit {
            Some(n) => Some(decimal_string(n)),
            None => None,
        };
        let ghost fields = fields_of(self@);
        let mut query: Vec<(String, String)> = Vec::new();
        assert(pairs_view(query@) =~= set_fields(fields.take(0)));
        push_field(&mut query, "appId", &self.appId);
        proof {
            set_fields_step(fields, 0);
        }
        push_field(&mut query, "deviceId", &self.deviceId);
        proof {
            set_fields_step(fields, 1);
        }
        push_field(&mut query, "topic", &self.topic);
        proof {
            set_fields_step(fields, 2);
        }
        push_field(&mut query, "start", &self.start);
        proof {
            set_fields_step(fields, 3);
        }
        push_field(&mut query, "end", &self.end);
        proof {
            set_fields_step(fields, 4);
        }
        push_field(&mut query, "pageLimit", &limit);
        proof {
            set_fields_step(fields, 5);
        }
        push_field(&mut query, "pageNextToken", &self.pageNextToken);
        proof {
            set_fields_step(fields, 6);
        }
        push_field(&mut query, "pageSort", &self.pageSort);
        proof {
            set_fields_step(fields, 7);
            assert(fields.take(8) =~= fields);
        }
        query
    }
}

/// The names of the fields of a listing differ, so each parameter of its
/// query is told from the others by its name.
pub proof fn field_names_differ(params: ListMessagesParamsView)
    ensures
        fields_of(params).len() == 8,
        names_differ(fields_of(params)),
{
    reveal_strlit("appId");
    reveal_strlit("deviceId");
    reveal_strlit("topic");
    reveal_strlit("start");
    reveal_strlit("end");
    reveal_strlit("pageLimit");
    reveal_strlit("pageNextToken");
    reveal_strlit("pageSort");
    let fields = fields_of(params);
    assert(fields[0].0.len() == 5 && fields[0].0[0] == 'a');
    assert(fields[1].0.len() == 8 && fields[1].0[0] == 'd');
    assert(fields[2].0.len() == 5 && fields[2].0[0] == 't');
    assert(fields[3].0.len() == 5 && fields[3].0[0] == 's');
    assert(fields[4].0.len() == 3);
    assert(fields[5].0.len() == 9);
    assert(fields[6].0.len() == 13);
    assert(fields[7].0.len() == 8 && fields[7].0[0] == 'p');
}

/// The query of a listing holds exactly the fields that are set: a pair of
/// a name and a value stands in it if and only if the field of that name is
/// set to that value, no name stands in it twice, and the name of a field
/// that is not set does not stand in it at all, with no value and with an
/// empty one.
pub proof fn query_holds_exactly_the_set_fields(params: ListMessagesParamsView)
    ensures
        forall|name: Seq<char>, value: Seq<char>|
            query_of(params).contains((name, value)) <==> fields_of(params).contains(
                (name, Some(value)),
            ),
        forall|i: int, j: int|
            0 <= i < j < query_of(params).len() ==> query_of(params)[i].0 != query_of(params)[j].0,
        forall|k: int, i: int|
            0 <= k < 8 && fields_of(params)[k].1 is None && 0 <= i < query_of(params).len()
                ==> query_of(params)[i].0 != fields_of(params)[k].0,
        query_of(params).len() <= 8,
        params == no_params() ==> query_of(params).len() == 0,
{
    field_names_differ(params);
    set_fields_are_exact(fields_of(params));
    if params == no_params() {
        let query = query_of(params);
        if query.len() > 0 {
            assert(query.contains(query[0]));
            let field: Field = (query[0].0, Some(query[0].1));
            assert(fields_of(params).contains(field));
            let k = choose|k: int| 0 <= k < 8 && fields_of(params)[k] == field;
            assert(fields_of(params)[k].1 is None);
        }
    }
}

/// A page of messages, as mathematical values.
#[allow(non_snake_case)]
pub struct ListMessagesResponseView {
    pub items: Option<Seq<serde_json::Value>>,
    pub pageNextToken: Option<Seq<char>>,
}

/// A page of messages: the messages, each an opaque JSON value, and the
/// token that asks for the next page. The service sends no token with the
/// last page. It may send more members than these two: they are passed over.
#[allow(non_snake_case)]
#[derive(Debug, PartialEq, Eq)]
pub struct ListMessagesResponse {
    pub items: Option<Vec<serde_json::Value>>,
    pub pageNextToken: Option<String>,
}

impl View for ListMessagesResponse {
    type V = ListMessagesResponseView;

    open spec fn view(&self) -> ListMessagesResponseView {
        ListMessagesResponseView {
            items: list_view(self.items),
            pageNextToken: text_view(self.pageNextToken),
        }
    }
}

/// The outcome of decoding a page, as mathematical values.
pub open spec fn outcome_view(outcome: Result<ListMessagesResponse, Error>) -> Result<
    ListMessagesResponseView,
    Error,
> {
    match outcome {
        Ok(page) => Ok(page@),
        Err(error) => Err(error),
    }
}

/// What an optional field is, given what stands under its key: nothing
/// where the member is absent or `null`, else what the member holds.
pub open spec fn held<T>(member: Member<T>) -> Option<T> {
    match member {
        Member::Held(value) => Some(value),
        _ => None,
    }
}

/// The page that a document stands for: the document must be an object, its
/// member `items` absent, `null` or a list, and its member `pageNextToken`
/// absent, `null` or text. Anything else is a decoding error, and no page.
pub open spec fn page_of(
    object: bool,
    items: Member<Seq<serde_json::Value>>,
    token: Member<Seq<char>>,
) -> Result<ListMessagesResponseView, Error> {
    if object && !(items is Other) && !(token is Other) {
        Ok(ListMessagesResponseView { items: held(items), pageNextToken: held(token) })
    } else {
        Err(Error::Decode)
    }
}

/// The page that a body stands for: the body must be a JSON document, and
/// the document must stand for a page.
pub open spec fn page_of_body(body: Seq<u8>) -> Result<ListMessagesResponseView, Error> {
    match json_document(body) {
        None => Err(Error::Decode),
        Some(document) => page_of(
            json_is_object(document),
            list_member(document, "items"@),
            text_member(document, "pageNextToken"@),
        ),
    }
}

impl ListMessagesResponse {
    /// Decodes the body of a response.
    pub fn from_json(body: &[u8]) -> (outcome: Result<Self, Error>)
        ensures
            outcome_view(outcome) == page_of_body(body@),
    {
        match parse_document(body) {
            None => Err(Error::Decode),
            Some(document) => {
                let object = is_object(&document);
                let items = find_list(&document, "items");
                let token = find_text(&document, "pageNextToken");
                Self::from_members(object, items, token)
            },
        }
    }

    /// Puts a page together from what a document holds: whether it is an
    /// object, and what stands under `items` and under `pageNextToken`.
    pub fn from_members(
        object: bool,
        items: Member<Vec<serde_json::Value>>,
        token: Member<String>,
    ) -> (outcome: Result<Self, Error>)
        ensures
            outcome_view(outcome) == page_of(
                object,
                list_member_view(items),
                text_member_view(token),
            ),
    {
        if !object {
            return Err(Error::Decode);
        }
        let items = match items {
            Member::Absent => None,
            Member::Null => None,
            Member::Held(elements) => Some(elements),
            Member::Other => {
                return Err(Error::Decode);
            },
        };
        let token = match token {
            Member::Absent => None,
            Member::Null => None,
            Member::Held(text) => Some(text),
            Member::Other => {
                return Err(Error::Decode);
            },
        };
        Ok(ListMessagesResponse { items, pageNextToken: token })
    }
}

/// A document either stands for a whole page or for none: where it is no
/// object, or one of the two members holds what its field cannot, decoding
/// fails, whatever the other member holds; and where decoding succeeds, each
/// field is what its member holds.
pub proof fn page_is_whole_or_none(
    object: bool,
    items: Member<Seq<serde_json::Value>>,
    token: Member<Seq<char>>,
)
    ensures
        (!object || items is Other || token is Other) <==> page_of(object, items, token) == Err::<
            ListMessagesResponseView,
            Error,
        >(Error::Decode),
        page_of(object, items, token) is Ok ==> {
            let page = page_of(object, items, token)->Ok_0;
            &&& page.items is Some <==> items is Held
            &&& page.pageNextToken is Some <==> token is Held
            &&& items is Held ==> page.items == Some(items->Held_0)
            &&& token is Held ==> page.pageNextToken == Some(token->Held_0)
        },
{
}

impl NRFCloudClient {
    /// The request that lists messages: a GET of `/messages` with the
    /// parameters that are set, whose body is read as JSON. One request asks
    /// for one page.
    pub fn list_messages(&self, params: &ListMessagesParams) -> (request: Request)
        ensures
            request@ == request_for(self@, messages_path(), query_of(params@), Expect::Json),
    {
        self.get_json_with_params("/messages", params.to_query())
    }
}

} // verus!
