use vstd::prelude::*;
use crate::error::{ApiError, DbFailure};
use crate::response::SuccessResponse;

verus! {

/// A point in time as its calendar fields, in the offset that the database
/// reported it in.
#[derive(Debug, Clone, Copy, PartialEq, Eq, Structural)]
pub struct Timestamp {
    pub year: i32,
    pub month: u8,
    pub day: u8,
    pub hour: u8,
    pub minute: u8,
    pub second: u8,
}

/// A row of the customers table.
pub struct AllCustomers {
    pub id: i32,
    pub name: String,
    pub email: String,
    pub created_at: Option<Timestamp>,
}

/// A customer as responses show it, with its creation time as text.
pub struct CustomerResponse {
    pub id: i32,
    pub name: String,
    pub email: String,
    pub created_at: String,
}

pub struct CreateCustomer {
    pub name: String,
    pub email: String,
}

pub struct UpdateCustomer {
    pub name: String,
    pub email: String,
}

/// Query parameters of the customer listing.
pub struct FilterOptions {
    pub page: Option<usize>,
    pub limit: Option<usize>,
}

/// The LIMIT and OFFSET bound into the listing statement.
#[derive(Debug, Clone, Copy, PartialEq, Eq, Structural)]
pub struct PageWindow {
    pub limit: i32,
    pub offset: i32,
}

/// One page of the customer listing.
pub struct CustomerPage {
    pub total_count: i64,
    pub customers: Vec<CustomerResponse>,
}

pub const DEFAULT_LIMIT: usize = 10;

pub open spec fn digits() -> Seq<char> {
    seq!['0', '1', '2', '3', '4', '5', '6', '7', '8', '9']
}

pub open spec fn two_digits(n: int) -> Seq<char> {
    seq![digits()[n / 10], digits()[n % 10]]
}

pub open spec fn four_digits(n: int) -> Seq<char> {
    seq![digits()[n / 1000], digits()[(n / 100) % 10], digits()[(n / 10) % 10], digits()[n % 10]]
}

/// A year padded to four digits, with a minus sign before a negative one.
pub open spec fn year_text(y: int) -> Seq<char> {
    if y < 0 {
        seq!['-'] + four_digits(-y)
    } else {
        four_digits(y)
    }
}

/// Whether every field of `t` lies in the range that the text pattern holds.
pub open spec fn formattable(t: Timestamp) -> bool {
    -9999 <= t.year <= 9999 && 1 <= t.month <= 12 && 1 <= t.day <= 31 && t.hour < 24 && t.minute
        < 60 && t.second < 60
}

impl Timestamp {
    /// A well-formed timestamp: every field within its calendar range.
    pub open spec fn wf(&self) -> bool {
        formattable(*self)
    }

    /// The timestamp of the given fields, or None where one is out of range.
    pub fn new(year: i32, month: u8, day: u8, hour: u8, minute: u8, second: u8) -> (r: Option<
        Timestamp,
    >)
        ensures
            match r {
                Some(t) => t.wf() && t == (Timestamp { year, month, day, hour, minute, second }),
                None => !(Timestamp { year, month, day, hour, minute, second }).wf(),
            },
    {
        let t = Timestamp { year, month, day, hour, minute, second };
        if -9999 <= year && year <= 9999 && 1 <= month && month <= 12 && 1 <= day && day <= 31
            && hour < 24 && minute < 60 && second < 60 {
            Some(t)
        } else {
            None
        }
    }
}

/// "DD/MM/YYYY HH:MM:SS".
pub open spec fn timestamp_text(t: Timestamp) -> Seq<char> {
    two_digits(t.day as int) + seq!['/'] + two_digits(t.month as int) + seq!['/'] + year_text(
        t.year as int,
    ) + seq![' '] + two_digits(t.hour as int) + seq![':'] + two_digits(t.minute as int) + seq![
        ':',
    ] + two_digits(t.second as int)
}

/// The creation time as a response shows it: the text pattern, or "-" where
/// the time is absent or cannot be written in it.
pub open spec fn created_at_text(t: Option<Timestamp>) -> Seq<char> {
    match t {
        Some(t) => if t.wf() {
            timestamp_text(t)
        } else {
            seq!['-']
        },
        None => seq!['-'],
    }
}

fn push_digit(s: &mut String, d: u32)
    requires
        d < 10,
    ensures
        final(s)@ == old(s)@.push(digits()[d as int]),
{
    let all = "0123456789";
    proof {
        reveal_strlit("0123456789");
    }
    let one = all.substring_char(d as usize, d as usize + 1);
    assert(one@ =~= seq![digits()[d as int]]);
    s.append(one);
}

fn push_two_digits(s: &mut String, n: u32)
    requires
        n < 100,
    ensures
        final(s)@ == old(s)@ + two_digits(n as int),
{
    push_digit(s, n / 10);
    push_digit(s, n % 10);
    assert(final(s)@ =~= old(s)@ + two_digits(n as int));
}

fn push_sep(s: &mut String, c: char)
    requires
        c == '/' || c == ' ' || c == ':' || c == '-',
    ensures
        final(s)@ == old(s)@.push(c),
{
    let text = if c == '/' {
        "/"
    } else if c == ' ' {
        " "
    } else if c == ':' {
        ":"
    } else {
        "-"
    };
    proof {
        reveal_strlit("/");
        reveal_strlit(" ");
        reveal_strlit(":");
        reveal_strlit("-");
    }
    s.append(text);
    assert(final(s)@ =~= old(s)@.push(c));
}

/// Writes a creation time in the response pattern.
pub fn format_created_at(t: Option<Timestamp>) -> (r: String)
    ensures
        r@ == created_at_text(t),
{
    let mut s = String::new();
    let t = match t {
        Some(t) => t,
        None => {
            push_sep(&mut s, '-');
            assert(s@ =~= seq!['-']);
            return s;
        },
    };
    if !(-9999 <= t.year && t.year <= 9999 && 1 <= t.month && t.month <= 12 && 1 <= t.day && t.day
        <= 31 && t.hour < 24 && t.minute < 60 && t.second < 60) {
        push_sep(&mut s, '-');
        assert(s@ =~= seq!['-']);
        return s;
    }
    push_two_digits(&mut s, t.day as u32);
    push_sep(&mut s, '/');
    push_two_digits(&mut s, t.month as u32);
    push_sep(&mut s, '/');
    let ghost before_year = s@;
    let y: u32 = if t.year < 0 {
        push_sep(&mut s, '-');
        (-t.year) as u32
    } else {
        t.year as u32
    };
    push_digit(&mut s, y / 1000);
    push_digit(&mut s, (y / 100) % 10);
    push_digit(&mut s, (y / 10) % 10);
    push_digit(&mut s, y % 10);
    assert(s@ =~= before_year + year_text(t.year as int));
    push_sep(&mut s, ' ');
    push_two_digits(&mut s, t.hour as u32);
    push_sep(&mut s, ':');
    push_two_digits(&mut s, t.minute as u32);
    push_sep(&mut s, ':');
    push_two_digits(&mut s, t.second as u32);
    assert(s@ =~= timestamp_text(t));
    s
}

/// A customer row as a response shows it.
pub open spec fn shows(r: CustomerResponse, c: AllCustomers) -> bool {
    r.id == c.id && r.name@ == c.name@ && r.email@ == c.email@ && r.created_at@ == created_at_text(
        c.created_at,
    )
}

fn response_of(c: &AllCustomers) -> (r: CustomerResponse)
    ensures
        shows(r, *c),
{
    CustomerResponse {
        id: c.id,
        name: c.name.clone(),
        email: c.email.clone(),
        created_at: format_created_at(c.created_at),
    }
}

impl CustomerResponse {
    /// The response for a stored customer.
    pub fn from(customer: AllCustomers) -> (r: CustomerResponse)
        ensures
            shows(r, customer),
    {
        response_of(&customer)
    }
}

/// The page and limit in effect: page 1 and DEFAULT_LIMIT where absent, and
/// a page of 0 raised to 1, so that the offset is never negative.
pub open spec fn limit_of(opts: FilterOptions) -> int {
    match opts.limit {
        Some(l) => l as int,
        None => DEFAULT_LIMIT as int,
    }
}

pub open spec fn page_of(opts: FilterOptions) -> int {
    match opts.page {
        Some(p) => if p == 0 {
            1
        } else {
            p as int
        },
        None => 1,
    }
}

/// The listing's window: LIMIT is the limit, OFFSET is (page - 1) * limit.
/// BadRequest where either does not fit the statement's 32-bit parameters.
pub open spec fn window_of(opts: FilterOptions) -> Result<(int, int), ApiError> {
    let limit = limit_of(opts);
    let offset = (page_of(opts) - 1) * limit;
    if limit <= i32::MAX && offset <= i32::MAX {
        Ok((limit, offset))
    } else {
        Err(ApiError::BadRequest)
    }
}

/// The LIMIT and OFFSET of the customer listing for the given options.
pub fn page_window(opts: &FilterOptions) -> (r: Result<PageWindow, ApiError>)
    ensures
        match r {
            Ok(w) => window_of(*opts) == Ok::<(int, int), ApiError>((w.limit as int, w.offset as int)),
            Err(e) => window_of(*opts) == Err::<(int, int), ApiError>(e),
        },
{
    let limit: usize = match opts.limit {
        Some(l) => l,
        None => DEFAULT_LIMIT,
    };
    let page: usize = match opts.page {
        Some(p) => if p == 0 {
            1
        } else {
            p
        },
        None => 1,
    };
    let max: usize = i32::MAX as usize;
    if limit > max {
        return Err(ApiError::BadRequest);
    }
    let before: usize = page - 1;
    if limit > 0 && before > max / limit {
        proof {
            assert(before * limit > max) by (nonlinear_arith)
                requires
                    limit > 0,
                    before > max / limit,
            ;
        }
        return Err(ApiError::BadRequest);
    }
    proof {
        assert(before * limit <= max) by (nonlinear_arith)
            requires
                limit == 0 || before <= max / limit,
                limit >= 0,
                before >= 0,
        ;
    }
    let offset: usize = before * limit;
    Ok(PageWindow { limit: limit as i32, offset: offset as i32 })
}

/// The rows of a listing ordered newest first that a window selects.
pub open spec fn page_rows<A>(ordered: Seq<A>, limit: int, offset: int) -> Seq<A> {
    if offset >= ordered.len() {
        Seq::empty()
    } else if offset + limit >= ordered.len() {
        ordered.subrange(offset, ordered.len() as int)
    } else {
        ordered.subrange(offset, offset + limit)
    }
}

/// The response of the listing: the total that the count statement gave, and
/// each row of the page as a response, in the same order.
pub fn customer_page(total_count: i64, rows: &Vec<AllCustomers>) -> (r: CustomerPage)
    ensures
        r.total_count == total_count,
        r.customers@.len() == rows@.len(),
        forall|i: int| 0 <= i < rows@.len() ==> shows(#[trigger] r.customers@[i], rows@[i]),
{
    let mut out: Vec<CustomerResponse> = Vec::new();
    let mut i: usize = 0;
    while i < rows.len()
        invariant
            i <= rows@.len(),
            out@.len() == i,
            forall|j: int| 0 <= j < i ==> shows(#[trigger] out@[j], rows@[j]),
        decreases rows@.len() - i,
    {
        out.push(response_of(&rows[i]));
        i = i + 1;
    }
    CustomerPage { total_count, customers: out }
}

/// The listing that the two statements produce over a table ordered newest
/// first: the count of the whole table, and the rows that the window selects.
pub open spec fn listing<A>(table: Seq<A>, opts: FilterOptions) -> Result<(int, Seq<A>), ApiError> {
    match window_of(opts) {
        Ok(w) => Ok((table.len() as int, page_rows(table, w.0, w.1))),
        Err(e) => Err(e),
    }
}

/// The response to the listing: Internal where either statement failed,
/// else the page of `customer_page`.
pub fn customers_listed(rows: Result<Vec<AllCustomers>, DbFailure>, total: Result<i64, DbFailure>) -> (r:
    Result<CustomerPage, ApiError>)
    ensures
        match (rows, total) {
            (Ok(rows), Ok(total)) => r matches Ok(p) && p.total_count == total
                && p.customers@.len() == rows@.len() && forall|i: int|
                0 <= i < rows@.len() ==> shows(#[trigger] p.customers@[i], rows@[i]),
            _ => r matches Err(e) && e == ApiError::Internal,
        },
{
    match (rows, total) {
        (Ok(rows), Ok(total)) => Ok(customer_page(total, &rows)),
        _ => Err(ApiError::Internal),
    }
}

/// Pagination: page 2 with limit 10 yields the rows from the eleventh on,
/// at most ten of them; the total reported is the same whatever the page
/// and the limit.
pub proof fn lemma_pagination<A>(table: Seq<A>, a: FilterOptions, b: FilterOptions)
    ensures
        a.page == Some(2usize) && a.limit == Some(10usize) ==> (listing(table, a) matches Ok(l)
            && l.1.len() <= 10 && forall|i: int| 0 <= i < l.1.len() ==> #[trigger] l.1[i] == table[i
            + 10]),
        listing(table, a) is Ok && listing(table, b) is Ok ==> listing(table, a)->Ok_0.0 == listing(
            table,
            b,
        )->Ok_0.0,
        listing(table, a) matches Ok(l) ==> l.0 == table.len(),
{
    if a.page == Some(2usize) && a.limit == Some(10usize) {
        assert(page_of(a) == 2);
        assert(limit_of(a) == 10);
        assert(window_of(a) == Ok::<(int, int), ApiError>((10, 10)));
    }
}

/// The response to a lookup by id: NotFound where no row has it.
pub fn customer_found(result: Result<Option<AllCustomers>, DbFailure>) -> (r: Result<
    CustomerResponse,
    ApiError,
>)
    ensures
        match result {
            Ok(Some(c)) => r matches Ok(resp) && shows(resp, c),
            Ok(None) => r == Err::<CustomerResponse, ApiError>(ApiError::NotFound),
            Err(_) => r == Err::<CustomerResponse, ApiError>(ApiError::Internal),
        },
{
    match result {
        Ok(Some(c)) => Ok(CustomerResponse::from(c)),
        Ok(None) => Err(ApiError::NotFound),
        Err(_) => Err(ApiError::Internal),
    }
}

/// The response to an insert of a customer: a 201 envelope.
pub fn customer_created(result: Result<i32, DbFailure>) -> (r: Result<SuccessResponse, ApiError>)
    ensures
        match result {
            Ok(_) => r matches Ok(m) && m.status == 201 && m.message@
                == "Customer created successfully"@,
            Err(_) => r matches Err(e) && e == ApiError::Internal,
        },
{
    match result {
        Ok(_) => Ok(SuccessResponse::new("Customer created successfully", 201)),
        Err(_) => Err(ApiError::Internal),
    }
}

/// The response to an update of a customer: a 200 envelope, whether or not
/// a row had the id.
pub fn customer_updated(result: Result<u64, DbFailure>) -> (r: Result<SuccessResponse, ApiError>)
    ensures
        match result {
            Ok(_) => r matches Ok(m) && m.status == 200 && m.message@
                == "Customer updated successfully"@,
            Err(_) => r matches Err(e) && e == ApiError::Internal,
        },
{
    match result {
        Ok(_) => Ok(SuccessResponse::new("Customer updated successfully", 200)),
        Err(_) => Err(ApiError::Internal),
    }
}

} // verus!
