//! The paging model the repository layer works with, and its conversions to
//! and from the wire's [`wire::PageRequest`].

use vstd::prelude::*;
use crate::wire;

verus! {

/// Direction of one sort key.
#[derive(Debug, Clone, Copy, PartialEq, Eq, Structural)]
pub enum SortDirection {
    Asc,
    Desc,
}

/// How a listing is ordered: by the given `(field, direction)` keys in
/// turn, or not at all.
#[derive(Debug, Clone, PartialEq, Eq)]
pub enum Sort {
    Sorted { items: Vec<(String, SortDirection)> },
    Unsorted,
}

/// Which slice of a listing to return: `size` elements from `offset` on,
/// or every element.
#[derive(Debug, Clone, PartialEq, Eq)]
pub enum PageRequest {
    Paged { offset: i64, size: i64, sort: Sort },
    Unpaged { sort: Sort },
}

/// The abstract value of a [`Sort`].
pub enum SortView {
    Sorted(Seq<(Seq<char>, SortDirection)>),
    Unsorted,
}

/// The abstract value of a [`PageRequest`].
pub enum PageRequestView {
    Paged { offset: i64, size: i64, sort: SortView },
    Unpaged { sort: SortView },
}

/// The abstract value of one sort key.
pub open spec fn item_view(item: (String, SortDirection)) -> (Seq<char>, SortDirection) {
    (item.0@, item.1)
}

impl View for Sort {
    type V = SortView;

    open spec fn view(&self) -> SortView {
        match self {
            Sort::Sorted { items } => SortView::Sorted(items@.map_values(|it: (String, SortDirection)| item_view(it))),
            Sort::Unsorted => SortView::Unsorted,
        }
    }
}

impl View for PageRequest {
    type V = PageRequestView;

    open spec fn view(&self) -> PageRequestView {
        match self {
            PageRequest::Paged { offset, size, sort } => PageRequestView::Paged { offset: *offset, size: *size, sort: sort@ },
            PageRequest::Unpaged { sort } => PageRequestView::Unpaged { sort: sort@ },
        }
    }
}

/// The direction that a wire number stands for; a number that names no
/// direction reads as ascending.
pub open spec fn direction_from_number(n: i32) -> SortDirection {
    if n == 1 { SortDirection::Desc } else { SortDirection::Asc }
}

/// The wire number of a direction.
pub open spec fn direction_to_number(d: SortDirection) -> i32 {
    match d {
        SortDirection::Asc => 0,
        SortDirection::Desc => 1,
    }
}

/// The ordering that the wire's sort keys ask for: none when there are no
/// keys.
pub open spec fn sort_from_fields(fields: Seq<(Seq<char>, i32)>) -> SortView {
    if fields.len() == 0 {
        SortView::Unsorted
    } else {
        SortView::Sorted(fields.map_values(|f: (Seq<char>, i32)| (f.0, direction_from_number(f.1))))
    }
}

/// The wire's sort keys for an ordering.
pub open spec fn sort_to_fields(sort: SortView) -> Seq<(Seq<char>, i32)> {
    match sort {
        SortView::Sorted(items) => items.map_values(|it: (Seq<char>, SortDirection)| (it.0, direction_to_number(it.1))),
        SortView::Unsorted => Seq::empty(),
    }
}

/// A wire page request read as a paging request: paged when it carries
/// both an offset and a size, unpaged otherwise.
pub open spec fn page_request_from_wire(r: wire::PageRequestView) -> PageRequestView {
    let sort = sort_from_fields(r.sort);
    match (r.offset, r.size) {
        (Some(offset), Some(size)) => PageRequestView::Paged { offset, size, sort },
        _ => PageRequestView::Unpaged { sort },
    }
}

/// A paging request written as a wire page request.
pub open spec fn page_request_to_wire(p: PageRequestView) -> wire::PageRequestView {
    match p {
        PageRequestView::Paged { offset, size, sort } => wire::PageRequestView {
            offset: Some(offset),
            size: Some(size),
            sort: sort_to_fields(sort),
        },
        PageRequestView::Unpaged { sort } => wire::PageRequestView {
            offset: None,
            size: None,
            sort: sort_to_fields(sort),
        },
    }
}

impl From<wire::SortDirection> for SortDirection {
    fn from(value: wire::SortDirection) -> (r: Self) {
        match value {
            wire::SortDirection::Desc => SortDirection::Desc,
            _ => SortDirection::Asc,
        }
    }
}

impl vstd::std_specs::convert::FromSpecImpl<wire::SortDirection> for SortDirection {
    open spec fn obeys_from_spec() -> bool {
        true
    }

    open spec fn from_spec(value: wire::SortDirection) -> SortDirection {
        match value {
            wire::SortDirection::Desc => SortDirection::Desc,
            _ => SortDirection::Asc,
        }
    }
}

impl From<SortDirection> for wire::SortDirection {
    fn from(value: SortDirection) -> (r: Self) {
        match value {
            SortDirection::Asc => wire::SortDirection::Asc,
            SortDirection::Desc => wire::SortDirection::Desc,
        }
    }
}

impl vstd::std_specs::convert::FromSpecImpl<SortDirection> for wire::SortDirection {
    open spec fn obeys_from_spec() -> bool {
        true
    }

    open spec fn from_spec(value: SortDirection) -> wire::SortDirection {
        match value {
            SortDirection::Asc => wire::SortDirection::Asc,
            SortDirection::Desc => wire::SortDirection::Desc,
        }
    }
}

/// The direction that a wire number stands for (ascending for a number
/// that names no direction).
pub fn direction_of_number(n: i32) -> (d: SortDirection)
    ensures
        d == direction_from_number(n),
{
    match wire::SortDirection::try_from(n) {
        Ok(d) => SortDirection::from(d),
        Err(_) => SortDirection::Asc,
    }
}

impl From<wire::SortField> for (String, SortDirection) {
    fn from(field: wire::SortField) -> (r: Self) {
        let direction = direction_of_number(field.direction);
        (field.field, direction)
    }
}

impl vstd::std_specs::convert::FromSpecImpl<wire::SortField> for (String, SortDirection) {
    open spec fn obeys_from_spec() -> bool {
        true
    }

    open spec fn from_spec(field: wire::SortField) -> (String, SortDirection) {
        (field.field, direction_from_number(field.direction))
    }
}

impl From<(String, SortDirection)> for wire::SortField {
    fn from(item: (String, SortDirection)) -> (r: Self) {
        let (field, direction) = item;
        wire::SortField { field, direction: wire::SortDirection::from(direction).number() }
    }
}

impl vstd::std_specs::convert::FromSpecImpl<(String, SortDirection)> for wire::SortField {
    open spec fn obeys_from_spec() -> bool {
        true
    }

    open spec fn from_spec(item: (String, SortDirection)) -> wire::SortField {
        wire::SortField { field: item.0, direction: direction_to_number(item.1) }
    }
}

/// The ordering that a list of wire sort keys asks for.
fn sort_from_wire(fields: &Vec<wire::SortField>) -> (s: Sort)
    ensures
        s@ == sort_from_fields(fields@.map_values(|f: wire::SortField| f@)),
{
    if fields.len() == 0 {
        return Sort::Unsorted;
    }
    let mut items: Vec<(String, SortDirection)> = Vec::new();
    let ghost want = fields@.map_values(|f: wire::SortField| f@).map_values(
        |f: (Seq<char>, i32)| (f.0, direction_from_number(f.1)),
    );
    let n = fields.len();
    for i in 0..n
        invariant
            n == fields@.len(),
            want.len() == n,
            want == fields@.map_values(|f: wire::SortField| f@).map_values(
                |f: (Seq<char>, i32)| (f.0, direction_from_number(f.1)),
            ),
            items@.map_values(|it: (String, SortDirection)| item_view(it)) =~= want.take(i as int),
    {
        let field = wire::SortField { field: fields[i].field.clone(), direction: fields[i].direction };
        let item = <(String, SortDirection)>::from(field);
        let ghost before = items@;
        items.push(item);
        assert(items@ =~= before.push(item));
        assert(want.take(i + 1) =~= want.take(i as int).push(want[i as int]));
        assert(items@.map_values(|it: (String, SortDirection)| item_view(it)) =~= before.map_values(
            |it: (String, SortDirection)| item_view(it),
        ).push(item_view(item)));
    }
    assert(want.take(n as int) =~= want);
    Sort::Sorted { items }
}

/// The wire sort keys of an ordering.
fn sort_to_wire(sort: &Sort) -> (fields: Vec<wire::SortField>)
    ensures
        fields@.map_values(|f: wire::SortField| f@) == sort_to_fields(sort@),
{
    match sort {
        Sort::Sorted { items } => {
            let mut fields: Vec<wire::SortField> = Vec::new();
            let ghost want = items@.map_values(|it: (String, SortDirection)| item_view(it)).map_values(
                |it: (Seq<char>, SortDirection)| (it.0, direction_to_number(it.1)),
            );
            let n = items.len();
            for i in 0..n
                invariant
                    n == items@.len(),
                    want.len() == n,
                    want == items@.map_values(|it: (String, SortDirection)| item_view(it)).map_values(
                        |it: (Seq<char>, SortDirection)| (it.0, direction_to_number(it.1)),
                    ),
                    fields@.map_values(|f: wire::SortField| f@) =~= want.take(i as int),
            {
                let item = (items[i].0.clone(), items[i].1);
                let field = wire::SortField::from(item);
                let ghost before = fields@;
                fields.push(field);
                assert(fields@ =~= before.push(field));
                assert(want.take(i + 1) =~= want.take(i as int).push(want[i as int]));
                assert(fields@.map_values(|f: wire::SortField| f@) =~= before.map_values(
                    |f: wire::SortField| f@,
                ).push(field@));
            }
            assert(want.take(n as int) =~= want);
            fields
        },
        Sort::Unsorted => {
            let fields: Vec<wire::SortField> = Vec::new();
            assert(fields@.map_values(|f: wire::SortField| f@) =~= Seq::empty());
            fields
        },
    }
}

impl From<wire::PageRequest> for PageRequest {
    fn from(request: wire::PageRequest) -> (r: Self)
        ensures
            r@ == page_request_from_wire(request@),
    {
        let sort = sort_from_wire(&request.sort);
        match (request.offset, request.size) {
            (Some(offset), Some(size)) => PageRequest::Paged { offset, size, sort },
            _ => PageRequest::Unpaged { sort },
        }
    }
}

impl vstd::std_specs::convert::FromSpecImpl<wire::PageRequest> for PageRequest {
    // A value that holds a `Vec` or a `String` is pinned down by its view,
    // not by spec equality: the conversion's contract is the `ensures` of
    // `from` above, stated over views.
    open spec fn obeys_from_spec() -> bool {
        false
    }

    open spec fn from_spec(request: wire::PageRequest) -> PageRequest {
        choose|r: PageRequest| r@ == page_request_from_wire(request@)
    }
}

impl PageRequest {
    /// This request written as a wire page request.
    pub fn to_wire(&self) -> (r: wire::PageRequest)
        ensures
            r@ == page_request_to_wire(self@),
    {
        match self {
            PageRequest::Paged { offset, size, sort } => wire::PageRequest {
                offset: Some(*offset),
                size: Some(*size),
                sort: sort_to_wire(sort),
            },
            PageRequest::Unpaged { sort } => wire::PageRequest {
                offset: None,
                size: None,
                sort: sort_to_wire(sort),
            },
        }
    }
}

impl From<PageRequest> for wire::PageRequest {
    fn from(request: PageRequest) -> (r: Self)
        ensures
            r@ == page_request_to_wire(request@),
    {
        request.to_wire()
    }
}

impl vstd::std_specs::convert::FromSpecImpl<PageRequest> for wire::PageRequest {
    // A value that holds a `Vec` or a `String` is pinned down by its view,
    // not by spec equality: the conversion's contract is the `ensures` of
    // `from` above, stated over views.
    open spec fn obeys_from_spec() -> bool {
        false
    }

    open spec fn from_spec(request: PageRequest) -> wire::PageRequest {
        choose|r: wire::PageRequest| r@ == page_request_to_wire(request@)
    }
}


/// One page of a listing: its items, how many items the whole listing
/// holds, and the request that selected this page.
pub struct Page<T> {
    pub data: Vec<T>,
    pub total_elements: i64,
    pub page_request: PageRequest,
}

/// A paging request written on the wire, where there is one.
pub open spec fn opt_page_request_to_wire(p: Option<PageRequest>) -> Option<wire::PageRequestView> {
    match p {
        Some(p) => Some(page_request_to_wire(p@)),
        None => None,
    }
}

/// The paging facts of a page, given the requests for the pages after and
/// before it.
pub open spec fn page_response_of(
    total_elements: i64,
    page_request: PageRequestView,
    next_page: Option<PageRequest>,
    previous_page: Option<PageRequest>,
) -> wire::PageResponseView {
    wire::PageResponseView {
        total_elements,
        page_request: Some(page_request_to_wire(page_request)),
        next_page: opt_page_request_to_wire(next_page),
        previous_page: opt_page_request_to_wire(previous_page),
    }
}

fn opt_to_wire(p: Option<PageRequest>) -> (r: Option<wire::PageRequest>)
    ensures
        wire::opt_page_request_view(r) == opt_page_request_to_wire(p),
{
    match p {
        Some(p) => Some(p.to_wire()),
        None => None,
    }
}

impl wire::PageResponse {
    /// The paging facts of `page` on the wire: its total, its own request,
    /// and the requests for the pages after and before it (as the page
    /// reports them). The items themselves are not carried.
    pub fn for_page<T>(
        page: &Page<T>,
        next_page: Option<PageRequest>,
        previous_page: Option<PageRequest>,
    ) -> (r: wire::PageResponse)
        ensures
            r@ == page_response_of(page.total_elements, page.page_request@, next_page, previous_page),
    {
        wire::PageResponse {
            total_elements: page.total_elements,
            page_request: Some(page.page_request.to_wire()),
            next_page: opt_to_wire(next_page),
            previous_page: opt_to_wire(previous_page),
        }
    }
}

/// The request used when a listing names none: every element, unsorted.
pub open spec fn default_page_request() -> PageRequestView {
    PageRequestView::Unpaged { sort: SortView::Unsorted }
}

impl Default for PageRequest {
    fn default() -> (r: Self)
        ensures
            r@ == default_page_request(),
    {
        PageRequest::Unpaged { sort: Sort::Unsorted }
    }
}

/// Whether an ordering is a `Sorted` one with no keys, which the wire
/// cannot tell from `Unsorted`.
pub open spec fn is_empty_sorted(sort: SortView) -> bool {
    match sort {
        SortView::Sorted(items) => items.len() == 0,
        SortView::Unsorted => false,
    }
}

/// The ordering of a paging request.
pub open spec fn sort_of(p: PageRequestView) -> SortView {
    match p {
        PageRequestView::Paged { sort, .. } => sort,
        PageRequestView::Unpaged { sort } => sort,
    }
}

/// Whether every sort key of a wire request names a direction.
pub open spec fn directions_known(r: wire::PageRequestView) -> bool {
    forall|i: int| 0 <= i < r.sort.len() ==> (#[trigger] r.sort[i]).1 == 0 || r.sort[i].1 == 1
}

/// A direction survives being written as a wire number and read back.
pub proof fn law_direction_round_trip(d: SortDirection)
    ensures
        direction_from_number(direction_to_number(d)) == d,
{
}

/// A wire number that names a direction survives being read as a
/// direction and written back.
pub proof fn law_direction_number_round_trip(n: i32)
    requires
        n == 0 || n == 1,
    ensures
        direction_to_number(direction_from_number(n)) == n,
{
}

/// Writing an ordering as wire sort keys and reading them back gives it
/// back, unless it is `Sorted` with no keys (which reads back as
/// `Unsorted`).
pub proof fn law_sort_round_trip(sort: SortView)
    requires
        !is_empty_sorted(sort),
    ensures
        sort_from_fields(sort_to_fields(sort)) == sort,
{
    match sort {
        SortView::Sorted(items) => {
            let fields = sort_to_fields(sort);
            assert(fields.len() == items.len());
            let back = fields.map_values(|f: (Seq<char>, i32)| (f.0, direction_from_number(f.1)));
            assert forall|i: int| 0 <= i < items.len() implies back[i] == items[i] by {
                law_direction_round_trip(items[i].1);
            }
            assert(back =~= items);
        },
        SortView::Unsorted => {},
    }
}

/// Writing a paging request on the wire and reading it back gives the same
/// request, unless its ordering is `Sorted` with no keys.
pub proof fn law_page_request_round_trip(p: PageRequestView)
    requires
        !is_empty_sorted(sort_of(p)),
    ensures
        page_request_from_wire(page_request_to_wire(p)) == p,
{
    law_sort_round_trip(sort_of(p));
}

/// Reading a wire request as a paging request and writing it back gives the
/// same wire request when it carries both or neither of offset and size and
/// every sort key names a direction.
pub proof fn law_wire_page_request_round_trip(r: wire::PageRequestView)
    requires
        r.offset.is_some() == r.size.is_some(),
        directions_known(r),
    ensures
        page_request_to_wire(page_request_from_wire(r)) == r,
{
    let sort = sort_from_fields(r.sort);
    let back = sort_to_fields(sort);
    if r.sort.len() == 0 {
        assert(back =~= r.sort);
    } else {
        assert forall|i: int| 0 <= i < r.sort.len() implies back[i] == r.sort[i] by {
            law_direction_number_round_trip(r.sort[i].1);
        }
        assert(back =~= r.sort);
    }
}


/// Reading wire sort keys keeps every key, in the same position: no keys
/// read as `Unsorted`; otherwise the ordering is `Sorted` with key `i` being
/// the field of wire key `i`, descending exactly when its number is `1`.
pub proof fn law_sort_keys_read_in_order(fields: Seq<(Seq<char>, i32)>)
    ensures
        fields.len() == 0 ==> sort_from_fields(fields) == SortView::Unsorted,
        fields.len() > 0 ==> ({
            let s = sort_from_fields(fields);
            &&& s is Sorted
            &&& s->Sorted_0.len() == fields.len()
            &&& forall|i: int|
                0 <= i < fields.len() ==> (#[trigger] s->Sorted_0[i]).0 == fields[i].0 && s->Sorted_0[i].1 == (
                if fields[i].1 == 1 {
                    SortDirection::Desc
                } else {
                    SortDirection::Asc
                })
        }),
{
}

/// Writing an ordering as wire sort keys keeps every key in the same
/// position, with number `1` for descending and `0` for ascending; an
/// unsorted ordering has no keys.
pub proof fn law_sort_keys_written_in_order(sort: SortView)
    ensures
        sort is Unsorted ==> sort_to_fields(sort).len() == 0,
        sort is Sorted ==> ({
            let items = sort->Sorted_0;
            let f = sort_to_fields(sort);
            &&& f.len() == items.len()
            &&& forall|i: int|
                0 <= i < items.len() ==> (#[trigger] f[i]).0 == items[i].0 && f[i].1 == (if items[i].1
                    == SortDirection::Desc {
                    1i32
                } else {
                    0i32
                })
        }),
{
}

/// A wire page request is read as a page of `size` from `offset` exactly
/// when it carries both, and as every element otherwise; in either case its
/// ordering is the one its sort keys name.
pub proof fn law_page_request_read(r: wire::PageRequestView)
    ensures
        (r.offset is Some && r.size is Some) ==> page_request_from_wire(r) == (PageRequestView::Paged {
            offset: r.offset->Some_0,
            size: r.size->Some_0,
            sort: sort_from_fields(r.sort),
        }),
        !(r.offset is Some && r.size is Some) ==> page_request_from_wire(r) == (PageRequestView::Unpaged {
            sort: sort_from_fields(r.sort),
        }),
{
}

/// A paging request is written on the wire with its offset and size (none
/// when unpaged) and with the sort keys of its ordering.
pub proof fn law_page_request_written(p: PageRequestView)
    ensures
        page_request_to_wire(p).sort == sort_to_fields(sort_of(p)),
        p is Paged ==> page_request_to_wire(p).offset == Some(p->Paged_offset) && page_request_to_wire(
            p,
        ).size == Some(p->Paged_size),
        p is Unpaged ==> page_request_to_wire(p).offset is None && page_request_to_wire(p).size is None,
{
}

/// A page's wire facts are its total, its own request written on the wire,
/// and the given next and previous requests written on the wire, each
/// independently of the other: sort keys included, absent exactly when not
/// given.
pub proof fn law_page_response_facts(
    total_elements: i64,
    page_request: PageRequestView,
    next_page: Option<PageRequest>,
    previous_page: Option<PageRequest>,
)
    ensures
        ({
            let r = page_response_of(total_elements, page_request, next_page, previous_page);
            &&& r.total_elements == total_elements
            &&& r.page_request == Some(page_request_to_wire(page_request))
            &&& r.next_page == match next_page {
                Some(x) => Some(page_request_to_wire(x@)),
                None => None::<wire::PageRequestView>,
            }
            &&& r.previous_page == match previous_page {
                Some(x) => Some(page_request_to_wire(x@)),
                None => None::<wire::PageRequestView>,
            }
        }),
{
}

/// The previous-page request of a page's wire facts does not depend on the
/// next-page request, nor the next on the previous.
pub proof fn law_page_response_links_independent(
    total_elements: i64,
    page_request: PageRequestView,
    n1: Option<PageRequest>,
    n2: Option<PageRequest>,
    q1: Option<PageRequest>,
    q2: Option<PageRequest>,
)
    ensures
        page_response_of(total_elements, page_request, n1, q1).previous_page == page_response_of(
            total_elements,
            page_request,
            n2,
            q1,
        ).previous_page,
        page_response_of(total_elements, page_request, n1, q1).next_page == page_response_of(
            total_elements,
            page_request,
            n1,
            q2,
        ).next_page,
{
}

} // verus!
