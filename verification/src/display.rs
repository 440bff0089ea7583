//! The order in which the items of a list are shown, and how near the due
//! date of an item is.

use vstd::prelude::*;
use crate::item::{ItemView, Status, TodoItem};
use crate::list::items_view;
use crate::time::Date;

verus! {

/// Whether the due date `a` is shown before the due date `b`: an earlier date
/// before a later one, and any date before none.
pub open spec fn due_before(a: Option<Date>, b: Option<Date>) -> bool {
    match (a, b) {
        (Some(x), Some(y)) => x.days < y.days,
        (Some(_), None) => true,
        _ => false,
    }
}

/// Whether `a` has to be shown before `b`: a higher priority comes first,
/// and within one priority the due date decides.
pub open spec fn shown_before(a: ItemView, b: ItemView) -> bool {
    ||| a.priority.rank_spec() > b.priority.rank_spec()
    ||| (a.priority == b.priority && due_before(a.due_date, b.due_date))
}

/// Whether the item at the place `i` of `items` comes before the one at the
/// place `j` when the list is shown: where neither has to be shown before
/// the other, the one that was added first comes first.
pub open spec fn comes_before(items: Seq<ItemView>, i: int, j: int) -> bool {
    ||| shown_before(items[i], items[j])
    ||| (!shown_before(items[j], items[i]) && i < j)
}

/// Whether `order` lists the places of `items` in the order of showing: each
/// place once, and each before all that come after it.
pub open spec fn is_display_order(items: Seq<ItemView>, order: Seq<int>) -> bool {
    &&& order.len() == items.len()
    &&& forall|k: int| 0 <= k < order.len() ==> 0 <= #[trigger] order[k] < items.len()
    &&& forall|i: int| 0 <= i < items.len() ==> #[trigger] order.contains(i)
    &&& forall|k: int, m: int|
        0 <= k < m < order.len() ==> comes_before(items, #[trigger] order[k], #[trigger] order[m])
}

/// The places of `items` in the order of showing.
pub open spec fn display_order_of(items: Seq<ItemView>) -> Seq<int> {
    choose|order: Seq<int>| is_display_order(items, order)
}

/// The items in the order of showing.
pub open spec fn in_display_order(items: Seq<ItemView>) -> Seq<ItemView> {
    display_order_of(items).map_values(|place: int| items[place])
}

/// The places that a vector of places holds, as integers.
pub open spec fn places(order: Seq<usize>) -> Seq<int> {
    order.map_values(|place: usize| place as int)
}

/// The items that a vector of borrowed items holds, as plain values.
pub open spec fn shown_view(shown: Seq<&TodoItem>) -> Seq<ItemView> {
    shown.map_values(|item: &TodoItem| item@)
}

/// Two orders of showing of the same items agree up to the place `upto`.
proof fn lemma_orders_agree_upto(items: Seq<ItemView>, a: Seq<int>, b: Seq<int>, upto: int)
    requires
        is_display_order(items, a),
        is_display_order(items, b),
        0 <= upto <= items.len(),
    ensures
        forall|k: int| 0 <= k < upto ==> a[k] == b[k],
    decreases upto,
{
    if upto > 0 {
        lemma_orders_agree_upto(items, a, b, upto - 1);
        let k = upto - 1;
        let x = a[k];
        let y = b[k];
        if x != y {
            assert(b.contains(x));
            let p = choose|p: int| 0 <= p < b.len() && b[p] == x;
            assert(a.contains(y));
            let q = choose|q: int| 0 <= q < a.len() && a[q] == y;
            if p < k {
                assert(comes_before(items, a[p], a[k]));
            }
            if q < k {
                assert(comes_before(items, b[q], b[k]));
            }
            assert(comes_before(items, b[k], b[p]));
            assert(comes_before(items, a[k], a[q]));
        }
    }
}

/// The items of a list can be shown in one order only.
pub proof fn lemma_display_order_is_unique(items: Seq<ItemView>, a: Seq<int>, b: Seq<int>)
    requires
        is_display_order(items, a),
        is_display_order(items, b),
    ensures
        a == b,
        a == display_order_of(items),
{
    lemma_orders_agree_upto(items, a, b, items.len() as int);
    assert(a =~= b);
    let c = display_order_of(items);
    lemma_orders_agree_upto(items, a, c, items.len() as int);
    assert(a =~= c);
}

/// In the order of showing the priority never rises from one item to the
/// next. Of two items of one priority the one with the earlier due date
/// comes first, and one with a due date before one without. Items that are
/// alike in priority and due date keep the order in which they were added.
pub proof fn lemma_display_order_sorts(items: Seq<ItemView>, order: Seq<int>, k: int, m: int)
    requires
        is_display_order(items, order),
        0 <= k < m < order.len(),
    ensures
        ({
            let first = items[order[k]];
            let second = items[order[m]];
            &&& first.priority.rank_spec() >= second.priority.rank_spec()
            &&& first.priority == second.priority ==> !due_before(
                second.due_date,
                first.due_date,
            )
            &&& first.priority == second.priority && first.due_date == second.due_date
                ==> order[k] < order[m]
        }),
{
    assert(comes_before(items, order[k], order[m]));
}

/// Whether `a` has to be shown before `b`.
pub fn shows_before(a: &TodoItem, b: &TodoItem) -> (before: bool)
    ensures
        before == shown_before(a@, b@),
{
    let ra = a.priority().rank();
    let rb = b.priority().rank();
    if ra != rb {
        return ra > rb;
    }
    match (a.due_date(), b.due_date()) {
        (Some(x), Some(y)) => x.is_before(y),
        (Some(_), None) => true,
        _ => false,
    }
}

/// The places of `items` in the order of showing: by priority from
/// `Critical` down to `Low`; within one priority the items with a due date
/// first, the earlier date first, then those without; and items that these
/// rules do not part in the order in which they stand in `items`.
pub fn display_order(items: &Vec<TodoItem>) -> (order: Vec<usize>)
    ensures
        is_display_order(items_view(*items), places(order@)),
        places(order@) == display_order_of(items_view(*items)),
{
    let ghost view = items_view(*items);
    let n = items.len();
    let mut order: Vec<usize> = Vec::new();
    let mut i: usize = 0;
    while i < n
        invariant
            n == items.len(),
            view == items_view(*items),
            i <= n,
            order@.len() == i,
            forall|k: int| 0 <= k < i ==> #[trigger] order@[k] < i,
            forall|x: int| 0 <= x < i ==> #[trigger] places(order@).contains(x),
            forall|k: int, m: int|
                0 <= k < m < i ==> comes_before(
                    view,
                    #[trigger] order@[k] as int,
                    #[trigger] order@[m] as int,
                ),
        decreases n - i,
    {
        let mut p: usize = order.len();
        while p > 0 && shows_before(&items[i], &items[order[p - 1]])
            invariant
                n == items.len(),
                view == items_view(*items),
                i < n,
                p <= order@.len() == i,
                forall|k: int| 0 <= k < i ==> #[trigger] order@[k] < i,
                forall|m: int|
                    p <= m < i ==> shown_before(view[i as int], view[#[trigger] order@[m] as int]),
            decreases p,
        {
            p -= 1;
        }
        let ghost before = order@;
        order.insert(p, i);
        proof {
            assert forall|k: int, m: int| 0 <= k < m < i + 1 implies comes_before(
                view,
                #[trigger] order@[k] as int,
                #[trigger] order@[m] as int,
            ) by {
                let a = if k < p { k } else { k - 1 };
                let b = if m < p { m } else { m - 1 };
                if k != p {
                    assert(order@[k] == before[a]);
                }
                if m != p {
                    assert(order@[m] == before[b]);
                }
                if m == p {
                    assert(comes_before(view, before[k] as int, before[p - 1] as int) || k == p - 1);
                } else if k != p {
                    assert(comes_before(view, before[a] as int, before[b] as int));
                }
            }
            assert forall|x: int| 0 <= x < i + 1 implies #[trigger] places(order@).contains(x) by {
                if x == i {
                    assert(places(order@)[p as int] == x);
                } else {
                    assert(places(before).contains(x));
                    let k = choose|k: int| 0 <= k < before.len() && places(before)[k] == x;
                    let moved = if k < p { k } else { k + 1 };
                    assert(places(order@)[moved] == x);
                }
            }
        }
        i += 1;
    }
    proof {
        lemma_display_order_is_unique(view, places(order@), places(order@));
    }
    order
}

/// The items in the order of showing; `items` itself stays as it is.
pub fn sort_for_display(items: &Vec<TodoItem>) -> (shown: Vec<&TodoItem>)
    ensures
        shown_view(shown@) == in_display_order(items_view(*items)),
{
    let order = display_order(items);
    let mut shown: Vec<&TodoItem> = Vec::new();
    let mut k: usize = 0;
    while k < order.len()
        invariant
            is_display_order(items_view(*items), places(order@)),
            k <= order@.len(),
            shown@.len() == k,
            forall|j: int| 0 <= j < k ==> (#[trigger] shown@[j])@ == items_view(*items)[order@[j] as int],
        decreases order@.len() - k,
    {
        assert(0 <= places(order@)[k as int] < items@.len());
        shown.push(&items[order[k]]);
        k += 1;
    }
    assert(shown_view(shown@) =~= in_display_order(items_view(*items)));
    shown
}

/// How near the due date of an item is.
#[derive(Clone, Copy, Debug, PartialEq, Eq, Structural)]
pub enum DueClass {
    /// The due date has passed and the item is not finished.
    Overdue,
    /// Due on this day.
    Today,
    /// Due on the next day.
    Tomorrow,
    /// Due in two to six days.
    Soon,
    /// Due in a week or later; also a date that has passed on an item that
    /// is not overdue.
    Scheduled,
    /// No due date.
    Unscheduled,
}

/// The class of a due date seen from the day `today`, for an item of which
/// `overdue` says whether it is overdue.
pub open spec fn due_class(today: Date, due_date: Option<Date>, overdue: bool) -> DueClass {
    if overdue {
        DueClass::Overdue
    } else {
        match due_date {
            None => DueClass::Unscheduled,
            Some(due) => {
                let days = due.days_since_spec(today);
                if days == 0 {
                    DueClass::Today
                } else if days == 1 {
                    DueClass::Tomorrow
                } else if 1 < days < 7 {
                    DueClass::Soon
                } else {
                    DueClass::Scheduled
                }
            },
        }
    }
}

/// The class of a due date seen from the day `today`, for an item of which
/// `is_overdue` says whether it is overdue.
pub fn classify_due(today: Date, due_date: Option<Date>, is_overdue: bool) -> (class: DueClass)
    ensures
        class == due_class(today, due_date, is_overdue),
{
    if is_overdue {
        return DueClass::Overdue;
    }
    match due_date {
        None => DueClass::Unscheduled,
        Some(due) => {
            let days = due.days_since(today);
            if days == 0 {
                DueClass::Today
            } else if days == 1 {
                DueClass::Tomorrow
            } else if 1 < days && days < 7 {
                DueClass::Soon
            } else {
                DueClass::Scheduled
            }
        },
    }
}

/// The class of the due date of `item` seen from the day `today`, with the
/// same day deciding whether the item is overdue.
pub fn due_class_of(item: &TodoItem, today: Date) -> (class: DueClass)
    ensures
        class == due_class(today, item@.due_date, item@.is_overdue(today)),
{
    classify_due(today, item.due_date(), item.is_overdue(today))
}

} // verus!
