//! Facts about rendered queries that involve several calls or every input.
use vstd::prelude::*;
use crate::request_builder::{
    ALL_FIELDS, DEFAULT_LIMIT, FilterView, OrderBy, QueryState, filter_text, filter_texts,
    order_text, query_text, search_part, sort_part, where_clause, where_part,
};
use crate::text::{decimal, digit_char, joined, lemma_joined_len, total_len};

verus! {

/// The default limit is written `50`.
pub proof fn lemma_default_limit_text()
    ensures
        decimal(DEFAULT_LIMIT as nat) == "50"@,
{
    reveal_strlit("50");
    assert(decimal(5) == seq![digit_char(5)]);
    assert(digit_char(5) == '5');
    assert(digit_char(0) == '0');
    assert(decimal(50) =~= seq!['5', '0']);
}

/// A query that selects named fields and nothing else lists the fields
/// separated by commas, closes the list with `;` and ends with the default
/// limit.
pub proof fn lemma_named_fields_query(q: QueryState)
    requires
        q.fields.len() > 0,
        q.fields != seq![ALL_FIELDS@],
        q.filters.len() == 0,
        q.sort_field.len() == 0,
        q.search.len() == 0,
        q.limit == DEFAULT_LIMIT as nat,
    ensures
        query_text(q) == "fields "@ + joined(q.fields, ","@) + ";"@ + " limit "@ + "50"@ + ";"@,
{
    lemma_default_limit_text();
    assert(query_text(q) =~= "fields "@ + joined(q.fields, ","@) + ";"@ + " limit "@ + "50"@
        + ";"@);
}

/// Selecting all fields discards the fields chosen before: the field list is
/// `*;` whatever it held, and a query with no other clause and the default
/// limit is exactly `fields *;`.
pub proof fn lemma_all_fields_query(q: QueryState)
    ensures
        query_text(QueryState { fields: seq![ALL_FIELDS@], ..q }) == "fields "@ + ALL_FIELDS@
            + ";"@ + search_part(q.search) + where_part(q.filters) + sort_part(
            q.sort_field,
            q.sort_order,
        ) + (if q.limit != DEFAULT_LIMIT as nat {
            " limit "@ + decimal(q.limit) + ";"@
        } else {
            Seq::empty()
        }),
        q.filters.len() == 0 && q.sort_field.len() == 0 && q.search.len() == 0 && q.limit
            == DEFAULT_LIMIT as nat ==> query_text(QueryState { fields: seq![ALL_FIELDS@], ..q })
            == "fields "@ + ALL_FIELDS@ + ";"@,
{
    let a = QueryState { fields: seq![ALL_FIELDS@], ..q };
    assert(joined(a.fields, ","@) == ALL_FIELDS@);
    assert(query_text(a) =~= "fields "@ + ALL_FIELDS@ + ";"@ + search_part(q.search) + where_part(
        q.filters,
    ) + sort_part(q.sort_field, q.sort_order) + (if q.limit != DEFAULT_LIMIT as nat {
        " limit "@ + decimal(q.limit) + ";"@
    } else {
        Seq::empty()
    }));
    if q.filters.len() == 0 && q.sort_field.len() == 0 && q.search.len() == 0 && q.limit
        == DEFAULT_LIMIT as nat {
        assert(query_text(a) =~= "fields "@ + ALL_FIELDS@ + ";"@);
    }
}

/// With at least one predicate, the query holds one `where` clause, right
/// after the field list and search: `where `, then the predicates joined by
/// ` & ` (one fewer separators than predicates), then a single `;` right
/// after the last predicate.
pub proof fn lemma_where_clause_shape(q: QueryState)
    requires
        q.filters.len() > 0,
    ensures
        query_text(q) == "fields "@ + crate::request_builder::field_list(q.fields) + search_part(
            q.search,
        ) + " "@ + "where "@ + joined(filter_texts(q.filters), " & "@) + ";"@ + sort_part(
            q.sort_field,
            q.sort_order,
        ) + crate::request_builder::limit_part(q),
        joined(filter_texts(q.filters), " & "@).len() == total_len(filter_texts(q.filters)) + (
        q.filters.len() - 1) * " & "@.len(),
        filter_texts(q.filters).len() == q.filters.len(),
        filter_texts(q.filters).last() == filter_text(q.filters[0]),
{
    assert(query_text(q) =~= "fields "@ + crate::request_builder::field_list(q.fields)
        + search_part(q.search) + " "@ + "where "@ + joined(filter_texts(q.filters), " & "@) + ";"@
        + sort_part(q.sort_field, q.sort_order) + crate::request_builder::limit_part(q));
    lemma_joined_len(filter_texts(q.filters), " & "@);
}

/// A second sort replaces the first: only the later field and direction
/// remain.
pub proof fn lemma_sort_overwrites(
    q: QueryState,
    first: Seq<char>,
    first_order: OrderBy,
    second: Seq<char>,
    second_order: OrderBy,
)
    ensures
        (QueryState {
            sort_field: second,
            sort_order: order_text(second_order),
            ..QueryState { sort_field: first, sort_order: order_text(first_order), ..q }
        }) == (QueryState { sort_field: second, sort_order: order_text(second_order), ..q }),
        query_text(
            QueryState {
                sort_field: second,
                sort_order: order_text(second_order),
                ..QueryState { sort_field: first, sort_order: order_text(first_order), ..q }
            },
        ) == query_text(QueryState { sort_field: second, sort_order: order_text(second_order), ..q }),
{
}

/// A second limit replaces the first.
pub proof fn lemma_limit_overwrites(q: QueryState, first: nat, second: nat)
    ensures
        (QueryState { limit: second, ..QueryState { limit: first, ..q } }) == (QueryState {
            limit: second,
            ..q
        }),
        query_text(QueryState { limit: second, ..QueryState { limit: first, ..q } }) == query_text(
            QueryState { limit: second, ..q },
        ),
{
}

} // verus!
