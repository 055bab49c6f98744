use vstd::prelude::*;

use crate::text::split::{join_with, law_split_then_join, split_commas, split_on, string_views};

verus! {

/// The JSON body `{"status": .., "message": ..}` of a plain answer.
pub struct Response {
    pub status: &'static str,
    pub message: String,
}

/// Paging and filtering options of a list request.
#[derive(Debug, PartialEq)]
pub struct FilterOptions {
    pub page: Option<usize>,
    pub limit: Option<usize>,
    pub query: Option<String>,
    pub tags: Option<Vec<String>>,
    pub categories: Option<Vec<String>>,
}

/// A path parameter that names an item.
#[derive(Debug)]
pub struct ParamOptions {
    pub id: String,
}

/// The directory that an image upload goes to.
#[derive(Debug)]
pub struct ImageOptions {
    pub dir: String,
}

/// A comma-separated list field split into its pieces.
pub open spec fn split_list(field: Option<String>) -> Option<Seq<Seq<char>>> {
    match field {
        Some(t) => Some(split_on(t@, ',')),
        None => None,
    }
}

/// The pieces of an optional list field, as views.
pub open spec fn list_views(field: Option<Vec<String>>) -> Option<Seq<Seq<char>>> {
    match field {
        Some(v) => Some(string_views(v@)),
        None => None,
    }
}

/// The pieces joined back with `,` give the text, and no piece holds a `,`.
pub open spec fn pieces_of(parts: Seq<Seq<char>>, text: Seq<char>) -> bool {
    &&& join_with(parts, ',') == text
    &&& forall|i: int, j: int|
        0 <= i < parts.len() && 0 <= j < parts[i].len() ==> parts[i][j] != ','
}

fn split_field(field: Option<String>) -> (r: Option<Vec<String>>)
    ensures
        list_views(r) == split_list(field),
        field is None <==> r is None,
        field matches Some(t) ==> (r is Some && join_with(string_views(r->0@), ',') == t@
            && forall|i: int, j: int|
            0 <= i < r->0@.len() && 0 <= j < r->0@[i]@.len() ==> r->0@[i]@[j] != ','),
{
    match field {
        Some(t) => {
            let v = split_commas(t.as_str());
            proof {
                law_split_then_join(t@, ',');
                assert forall|i: int, j: int|
                    0 <= i < v@.len() && 0 <= j < v@[i]@.len() implies v@[i]@[j] != ',' by {
                    assert(string_views(v@)[i] == v@[i]@);
                }
            }
            Some(v)
        },
        None => None,
    }
}

/// Splitting a list field and joining the pieces with `,` gives the field's text back,
/// and no piece holds a `,`: no tag or category is lost, merged or cut.
pub proof fn law_list_fields_join_back(field: Option<String>)
    ensures
        field is None <==> split_list(field) is None,
        field matches Some(t) ==> (split_list(field) is Some && pieces_of(
            split_list(field)->0,
            t@,
        )),
{
    if let Some(t) = field {
        law_split_then_join(t@, ',');
    }
}

impl FilterOptions {
    /// The options from the raw query fields, where `tags` and `categories` arrive as
    /// comma-separated lists.
    pub fn from_query_fields(
        page: Option<usize>,
        limit: Option<usize>,
        query: Option<String>,
        tags: Option<String>,
        categories: Option<String>,
    ) -> (r: FilterOptions)
        ensures
            r.page == page,
            r.limit == limit,
            r.query == query,
            list_views(r.tags) == split_list(tags),
            list_views(r.categories) == split_list(categories),
            tags is None <==> r.tags is None,
            tags matches Some(t) ==> (r.tags is Some && join_with(
                string_views(r.tags->0@),
                ',',
            ) == t@ && forall|i: int, j: int|
                0 <= i < r.tags->0@.len() && 0 <= j < r.tags->0@[i]@.len() ==> r.tags->0@[i]@[j]
                    != ','),
            categories is None <==> r.categories is None,
            categories matches Some(c) ==> (r.categories is Some && join_with(
                string_views(r.categories->0@),
                ',',
            ) == c@ && forall|i: int, j: int|
                0 <= i < r.categories->0@.len() && 0 <= j < r.categories->0@[i]@.len()
                    ==> r.categories->0@[i]@[j] != ','),
    {
        FilterOptions {
            page,
            limit,
            query,
            tags: split_field(tags),
            categories: split_field(categories),
        }
    }
}

} // verus!
