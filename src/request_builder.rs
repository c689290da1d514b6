//! The query builder: accumulated state, its mutators and the rendered body.
use vstd::prelude::*;
use vstd::utf8::encode_utf8;
use crate::text::{IntoText, decimal, decimal_text, join, joined};

verus! {

/// Sort direction of the `sort` clause.
pub enum OrderBy {
    Descending,
    Ascending,
}

/// Comparison used by a `where` predicate.
pub enum Equality {
    Lower,
    Greater,
    Equal,
}

/// Text of a sort direction in a query.
pub open spec fn order_text(o: OrderBy) -> Seq<char> {
    match o {
        OrderBy::Ascending => "asc"@,
        OrderBy::Descending => "desc"@,
    }
}

/// Text of a comparison in a query.
pub open spec fn equality_text(e: Equality) -> Seq<char> {
    match e {
        Equality::Equal => "="@,
        Equality::Greater => ">"@,
        Equality::Lower => "<"@,
    }
}

impl OrderBy {
    /// The direction as written in a query: `asc` or `desc`.
    pub fn to_string(&self) -> (r: String)
        ensures
            r@ == order_text(*self),
    {
        match self {
            OrderBy::Ascending => "asc".to_owned(),
            OrderBy::Descending => "desc".to_owned(),
        }
    }
}

impl Equality {
    /// The comparison as written in a query: `=`, `>` or `<`.
    pub fn to_string(&self) -> (r: String)
        ensures
            r@ == equality_text(*self),
    {
        match self {
            Equality::Equal => "=".to_owned(),
            Equality::Greater => ">".to_owned(),
            Equality::Lower => "<".to_owned(),
        }
    }
}

/// One predicate of the `where` clause, as its three parts.
pub struct FilterView {
    pub key: Seq<char>,
    pub symbol: Seq<char>,
    pub value: Seq<char>,
}

/// One predicate: `key symbol value`. The symbol is empty where the value
/// already carries its operator.
struct Filter {
    key: String,
    symbol: String,
    value: String,
}

impl View for Filter {
    type V = FilterView;

    closed spec fn view(&self) -> FilterView {
        FilterView { key: self.key@, symbol: self.symbol@, value: self.value@ }
    }
}

/// The state of a builder, as mathematical values.
pub struct QueryState {
    /// Selected fields, in the order they were added; `*` stands for all.
    pub fields: Seq<Seq<char>>,
    /// Predicates, in the order they were added.
    pub filters: Seq<FilterView>,
    /// Field of the `sort` clause; empty for no sort.
    pub sort_field: Seq<char>,
    /// Direction of the `sort` clause.
    pub sort_order: Seq<char>,
    /// Maximum number of results.
    pub limit: nat,
    /// Free-text search; empty for none.
    pub search: Seq<char>,
}

/// The field that selects every field.
pub const ALL_FIELDS: &'static str = "*";

/// Default maximum number of results.
pub const DEFAULT_LIMIT: usize = 50;

/// Text of the field list: the fields separated by `,` and closed by `;`.
pub open spec fn field_list(fields: Seq<Seq<char>>) -> Seq<char> {
    joined(fields, ","@) + ";"@
}

/// Text of one predicate: its three parts separated by single spaces.
pub open spec fn filter_text(f: FilterView) -> Seq<char> {
    f.key + " "@ + f.symbol + " "@ + f.value
}

/// Texts of the predicates, the most recently added first.
pub open spec fn filter_texts(filters: Seq<FilterView>) -> Seq<Seq<char>> {
    Seq::new(filters.len(), |i: int| filter_text(filters[filters.len() - 1 - i]))
}

/// The `where` clause: the predicates joined by ` & `, closed by `;`.
pub open spec fn where_clause(filters: Seq<FilterView>) -> Seq<char> {
    "where "@ + joined(filter_texts(filters), " & "@) + ";"@
}

/// The search clause, present only for a non-empty search text.
pub open spec fn search_part(search: Seq<char>) -> Seq<char> {
    if search.len() == 0 {
        Seq::empty()
    } else {
        " search \""@ + search + "\";"@
    }
}

/// The `where` part, present only when there are predicates.
pub open spec fn where_part(filters: Seq<FilterView>) -> Seq<char> {
    if filters.len() == 0 {
        Seq::empty()
    } else {
        " "@ + where_clause(filters)
    }
}

/// The sort part, present only when a sort field is set.
pub open spec fn sort_part(field: Seq<char>, order: Seq<char>) -> Seq<char> {
    if field.len() == 0 {
        Seq::empty()
    } else {
        " sort "@ + field + " "@ + order
    }
}

/// Whether the limit is written out. A limit other than the default always
/// is; the default one only on a plain selection of named fields, since a
/// query over every field or with a `where` clause leaves it to the server.
pub open spec fn shows_limit(q: QueryState) -> bool {
    q.limit != DEFAULT_LIMIT as nat || (q.filters.len() == 0 && q.fields != seq![ALL_FIELDS@])
}

/// The limit part.
pub open spec fn limit_part(q: QueryState) -> Seq<char> {
    if shows_limit(q) {
        " limit "@ + decimal(q.limit) + ";"@
    } else {
        Seq::empty()
    }
}

/// The whole query text of a builder state, clause by clause.
pub open spec fn query_text(q: QueryState) -> Seq<char> {
    "fields "@ + field_list(q.fields) + search_part(q.search) + where_part(q.filters)
        + sort_part(q.sort_field, q.sort_order) + limit_part(q)
}

/// Accumulates the parts of a query through chained calls.
pub struct RequestBuilder {
    fields: Vec<String>,
    filters: Vec<Filter>,
    sort: (String, String),
    limit: usize,
    search: String,
}

impl View for RequestBuilder {
    type V = QueryState;

    closed spec fn view(&self) -> QueryState {
        QueryState {
            fields: self.fields@.map_values(|s: String| s@),
            filters: self.filters@.map_values(|f: Filter| f@),
            sort_field: self.sort.0@,
            sort_order: self.sort.1@,
            limit: self.limit as nat,
            search: self.search@,
        }
    }
}

impl RequestBuilder {
    /// An empty builder: no fields, predicates, sort or search, and the
    /// default limit.
    pub fn new() -> (r: RequestBuilder)
        ensures
            r@ == (QueryState {
                fields: Seq::empty(),
                filters: Seq::empty(),
                sort_field: Seq::empty(),
                sort_order: Seq::empty(),
                limit: DEFAULT_LIMIT as nat,
                search: Seq::empty(),
            }),
    {
        let r = RequestBuilder {
            fields: Vec::new(),
            filters: Vec::new(),
            sort: (String::new(), String::new()),
            limit: DEFAULT_LIMIT,
            search: String::new(),
        };
        assert(r@.fields =~= Seq::empty());
        assert(r@.filters =~= Seq::empty());
        r
    }

    /// Appends one field to the selection.
    pub fn add_field<S: IntoText>(&mut self, field: S) -> (r: &mut Self)
        ensures
            r@ == (QueryState { fields: old(self)@.fields.push(field.text_view()), ..old(self)@ }),
            *final(self) == *final(r),
    {
        self.fields.push(field.into_text());
        assert(self@.fields =~= old(self)@.fields.push(field.text_view()));
        self
    }

    /// Replaces the selection by the single field that stands for all.
    pub fn all_fields(&mut self) -> (r: &mut Self)
        ensures
            r@ == (QueryState { fields: seq![ALL_FIELDS@], ..old(self)@ }),
            *final(self) == *final(r),
    {
        self.fields.clear();
        self.fields.push(ALL_FIELDS.to_owned());
        assert(self@.fields =~= seq![ALL_FIELDS@]);
        self
    }

    /// Appends each of `names` to the selection, in order.
    pub fn add_fields<T: IntoText>(&mut self, names: Vec<T>) -> (r: &mut Self)
        ensures
            r@ == (QueryState {
                fields: old(self)@.fields + names@.map_values(|t: T| t.text_view()),
                ..old(self)@
            }),
            *final(self) == *final(r),
    {
        let ghost added = names@.map_values(|t: T| t.text_view());
        let ghost start = self@.fields;
        let ghost orig = names@;
        let mut names = names;
        let total = names.len();
        let mut n: usize = 0;
        while names.len() > 0
            invariant
                n + names@.len() == total,
                total == orig.len(),
                added == orig.map_values(|t: T| t.text_view()),
                names@ == orig.subrange(n as int, orig.len() as int),
                self@ == (QueryState { fields: start + added.take(n as int), ..old(self)@ }),
            decreases names@.len(),
        {
            let name = names.remove(0);
            let text = name.into_text();
            let ghost before = self@.fields;
            self.fields.push(text);
            proof {
                assert(orig[n as int] == name);
                assert(added[n as int] == text@);
                assert(self@.fields =~= before.push(text@));
                assert(added.take(n as int + 1) =~= added.take(n as int).push(text@));
                assert(self@.fields =~= start + added.take(n as int + 1));
                assert(names@ =~= orig.subrange(n as int + 1, orig.len() as int));
            }
            n = n + 1;
        }
        assert(added.take(n as int) =~= added);
        self
    }

    /// Appends the predicate `field` `= (v1,v2,...)` over `values`, in
    /// order; its symbol is empty, the value holds the operator.
    pub fn add_where_in(&mut self, field: String, values: Vec<String>) -> (r: &mut Self)
        ensures
            r@ == (QueryState {
                filters: old(self)@.filters.push(FilterView {
                    key: field@,
                    symbol: Seq::empty(),
                    value: "= ("@ + joined(values@.map_values(|v: String| v@), ","@) + ")"@,
                }),
                ..old(self)@
            }),
            *final(self) == *final(r),
    {
        let mut value = "= (".to_owned();
        value.append(join(&values, ",").as_str());
        value.append(")");
        self.filters.push(Filter { key: field, symbol: String::new(), value });
        assert(self@.filters =~= old(self)@.filters.push(FilterView {
            key: field@,
            symbol: Seq::empty(),
            value: "= ("@ + joined(values@.map_values(|v: String| v@), ","@) + ")"@,
        }));
        self
    }

    /// Appends the predicate `field equality clause`.
    pub fn add_where<L: IntoText, R: IntoText>(
        &mut self,
        field: L,
        equality: Equality,
        clause: R,
    ) -> (r: &mut Self)
        ensures
            r@ == (QueryState {
                filters: old(self)@.filters.push(FilterView {
                    key: field.text_view(),
                    symbol: equality_text(equality),
                    value: clause.text_view(),
                }),
                ..old(self)@
            }),
            *final(self) == *final(r),
    {
        let f = Filter { key: field.into_text(), symbol: equality.to_string(), value: clause.into_text() };
        self.filters.push(f);
        assert(self@.filters =~= old(self)@.filters.push(FilterView {
            key: field.text_view(),
            symbol: equality_text(equality),
            value: clause.text_view(),
        }));
        self
    }

    /// The query text, encoded as UTF-8.
    pub fn build_body(&self) -> (r: Vec<u8>)
        ensures
            r@ == encode_utf8(query_text(self@)),
    {
        let text = self.query();
        text.as_str().as_bytes_vec()
    }

    /// The query text.
    pub fn query(&self) -> (r: String)
        ensures
            r@ == query_text(self@),
    {
        let mut body = "fields ".to_owned();
        body.append(self.fields_text().as_str());
        body.append(self.search_text().as_str());
        body.append(self.where_part_text().as_str());
        body.append(self.sort_text().as_str());
        body.append(self.limit_text().as_str());
        body
    }

    fn fields_text(&self) -> (r: String)
        ensures
            r@ == field_list(self@.fields),
    {
        let mut out = join(&self.fields, ",");
        out.append(";");
        out
    }

    fn search_text(&self) -> (r: String)
        ensures
            r@ == search_part(self@.search),
    {
        let mut out = String::new();
        if self.search.as_str().unicode_len() > 0 {
            out.append(" search \"");
            out.append(self.search.as_str());
            out.append("\";");
        }
        out
    }

    fn where_part_text(&self) -> (r: String)
        ensures
            r@ == where_part(self@.filters),
    {
        let mut out = String::new();
        if self.filters.len() > 0 {
            out.append(" ");
            out.append(self.where_text().as_str());
        }
        out
    }

    fn sort_text(&self) -> (r: String)
        ensures
            r@ == sort_part(self@.sort_field, self@.sort_order),
    {
        let mut out = String::new();
        if self.sort.0.as_str().unicode_len() > 0 {
            out.append(" sort ");
            out.append(self.sort.0.as_str());
            out.append(" ");
            out.append(self.sort.1.as_str());
        }
        out
    }

    fn limit_text(&self) -> (r: String)
        ensures
            r@ == limit_part(self@),
    {
        let all = String::from_str(ALL_FIELDS);
        let all_fields = self.fields.len() == 1 && self.fields[0] == all;
        proof {
            if self.fields.len() == 1 {
                assert(self@.fields[0] == self.fields[0]@);
                if self.fields[0]@ == ALL_FIELDS@ {
                    assert(self@.fields =~= seq![ALL_FIELDS@]);
                }
            }
            if self@.fields == seq![ALL_FIELDS@] {
                assert(self@.fields.len() == 1);
                assert(self@.fields[0] == self.fields[0]@);
            }
            assert(all_fields == (self@.fields == seq![ALL_FIELDS@]));
        }
        let mut out = String::new();
        if self.limit != DEFAULT_LIMIT || (self.filters.len() == 0 && !all_fields) {
            out.append(" limit ");
            out.append(decimal_text(self.limit).as_str());
            out.append(";");
        }
        out
    }

    /// The `where` clause of a builder with at least one predicate.
    fn where_text(&self) -> (r: String)
        requires
            self.filters.len() > 0,
        ensures
            r@ == where_clause(self@.filters),
    {
        let ghost texts = filter_texts(self@.filters);
        let mut out = "where ".to_owned();
        let n = self.filters.len();
        let mut i: usize = 0;
        while i < n
            invariant
                n == self.filters@.len(),
                i <= n,
                texts == filter_texts(self@.filters),
                out@ == "where "@ + joined(texts.take(i as int), " & "@),
            decreases n - i,
        {
            if i > 0 {
                out.append(" & ");
            }
            let f = &self.filters[n - 1 - i];
            out.append(f.key.as_str());
            out.append(" ");
            out.append(f.symbol.as_str());
            out.append(" ");
            out.append(f.value.as_str());
            proof {
                assert(texts[i as int] == filter_text(f@));
                assert(texts.take(i as int + 1).drop_last() =~= texts.take(i as int));
            }
            i = i + 1;
        }
        out.append(";");
        assert(texts.take(n as int) =~= texts);
        out
    }

    /// Replaces the limit.
    pub fn limit(&mut self, limit: usize) -> (r: &mut Self)
        ensures
            r@ == (QueryState { limit: limit as nat, ..old(self)@ }),
            *final(self) == *final(r),
    {
        self.limit = limit;
        self
    }

    /// Replaces the search text; an empty one means no search.
    pub fn search<S: IntoText>(&mut self, search: S) -> (r: &mut Self)
        ensures
            r@ == (QueryState { search: search.text_view(), ..old(self)@ }),
            *final(self) == *final(r),
    {
        self.search = search.into_text();
        self
    }

    /// Replaces the sort field and direction.
    pub fn sort_by<S: IntoText>(&mut self, field: S, order: OrderBy) -> (r: &mut Self)
        ensures
            r@ == (QueryState { sort_field: field.text_view(), sort_order: order_text(order), ..old(self)@ }),
            *final(self) == *final(r),
    {
        self.sort = (field.into_text(), order.to_string());
        self
    }
}

} // verus!
