//! Closing orders that were not paid in time.
use vstd::prelude::*;

use crate::order::create;
use crate::order::flow;
use crate::order::flow::{Action, Reply, Step};
use crate::order::repository::OrderRecord;
use crate::order::status::OrderStatus;
use crate::text;

verus! {

/// Where the closing of some orders stands: `at` is the one at hand, and `expired` of those
/// before it were closed.
pub enum Expiry {
    Marking { ids: Vec<String>, at: usize, expired: usize },
    Logging { ids: Vec<String>, at: usize, expired: usize },
}

pub type ExpiryStep = Step<Expiry, usize>;

impl Expiry {
    /// There is an order at hand, and no more were closed than were at hand before.
    pub open spec fn wf(self) -> bool {
        match self {
            Expiry::Marking { ids, at, expired } => expired <= at < ids@.len(),
            Expiry::Logging { ids, at, expired } => expired <= at < ids@.len(),
        }
    }
}

/// The identifiers of orders.
pub open spec fn ids_of(orders: Seq<OrderRecord>) -> Seq<Seq<char>> {
    orders.map_values(|o: OrderRecord| o.id@)
}

/// The order at `at` is closed if it is still pending; after the last one the work is done.
pub open spec fn goes_on(out: ExpiryStep, ids: Seq<Seq<char>>, at: int, expired: int) -> bool {
    if at < ids.len() {
        &&& out matches Step::Act {
            action: Action::MarkIfPending { order_id, status },
            next: Expiry::Marking { ids: i, at: a, expired: e },
        }
        &&& order_id@ == ids[at]
        &&& status == OrderStatus::Expired
        &&& text::texts(i@) == ids
        &&& a == at
        &&& e == expired
    } else {
        out matches Step::Done { result: Ok(n) } && n == expired
    }
}

/// The step that follows a reply. An order that was closed is logged before the next one.
pub open spec fn expiry_step(s: Expiry, reply: Reply, out: ExpiryStep) -> bool {
    match (s, reply) {
        (_, Reply::Error { message }) => flow::fails(out, message@),
        (Expiry::Marking { ids, at, expired }, Reply::Changed { changed: true }) => {
            &&& out matches Step::Act { action, next }
            &&& flow::audits(
                action,
                ids@[at as int]@,
                "ORDER_EXPIRED"@,
                "Order expired"@,
                "timeout"@,
            )
            &&& next == (Expiry::Logging { ids, at, expired })
        },
        (Expiry::Marking { ids, at, expired }, Reply::Changed { changed: false }) => goes_on(
            out,
            text::texts(ids@),
            at + 1,
            expired as int,
        ),
        (Expiry::Logging { ids, at, expired }, Reply::Done) => goes_on(
            out,
            text::texts(ids@),
            at + 1,
            expired + 1,
        ),
        _ => flow::fails(out, flow::unexpected()),
    }
}

fn go_on(ids: Vec<String>, at: usize, expired: usize) -> (r: ExpiryStep)
    requires
        expired <= at,
    ensures
        goes_on(r, text::texts(ids@), at as int, expired as int),
        r matches Step::Act { action, next } ==> next.wf(),
{
    assert(text::texts(ids@).len() == ids@.len());
    if at < ids.len() {
        let order_id = ids[at].clone();
        assert(order_id@ == text::texts(ids@)[at as int]);
        Step::Act {
            action: Action::MarkIfPending { order_id, status: OrderStatus::Expired },
            next: Expiry::Marking { ids, at, expired },
        }
    } else {
        Step::Done { result: Ok(expired) }
    }
}

impl Expiry {
    /// Begins to close orders that are past their time, in the order given. The result is how
    /// many were closed.
    pub fn start(orders: &Vec<OrderRecord>) -> (r: ExpiryStep)
        ensures
            goes_on(r, ids_of(orders@), 0, 0),
            r matches Step::Act { action, next } ==> next.wf(),
    {
        let mut ids: Vec<String> = Vec::new();
        let mut i: usize = 0;
        while i < orders.len()
            invariant
                i <= orders@.len(),
                text::texts(ids@) == ids_of(orders@).take(i as int),
            decreases orders@.len() - i,
        {
            let ghost before = text::texts(ids@);
            ids.push(orders[i].id.clone());
            assert(text::texts(ids@) =~= before.push(ids_of(orders@)[i as int]));
            assert(ids_of(orders@).take(i + 1) =~= before.push(ids_of(orders@)[i as int]));
            i += 1;
        }
        assert(ids_of(orders@).take(i as int) =~= ids_of(orders@));
        go_on(ids, 0, 0)
    }

    /// Goes on with the reply to the last action.
    pub fn next(self, reply: Reply) -> (r: ExpiryStep)
        requires
            self.wf(),
        ensures
            expiry_step(self, reply, r),
            r matches Step::Act { action, next } ==> next.wf(),
    {
        match (self, reply) {
            (_, Reply::Error { message }) => Step::Done { result: Err(message) },
            (Expiry::Marking { ids, at, expired }, Reply::Changed { changed }) => {
                if changed {
                    let entry = create::expired_entry(ids[at].as_str());
                    Step::Act {
                        action: Action::Audit { entry },
                        next: Expiry::Logging { ids, at, expired },
                    }
                } else {
                    assert(at < ids.len());
                    go_on(ids, at + 1, expired)
                }
            },
            (Expiry::Logging { ids, at, expired }, Reply::Done) => {
                assert(at < ids.len());
                go_on(ids, at + 1, expired + 1)
            },
            _ => flow::fail("unexpected reply"),
        }
    }
}

/// An order is logged as expired only when it was closed just before, and nothing but
/// closing and logging is ever asked for.
pub proof fn law_only_closed_orders_are_logged(s: Expiry, reply: Reply, out: ExpiryStep)
    requires
        expiry_step(s, reply, out),
    ensures
        out matches Step::Act { action: Action::Audit { entry }, next } ==> s is Marking && reply
            == (Reply::Changed { changed: true }) && entry.order_id@
            == s->Marking_ids@[s->Marking_at as int]@,
        out matches Step::Act { action, next } ==> action is Audit || (action matches
            Action::MarkIfPending { order_id, status } && status == OrderStatus::Expired),
{
}

/// No more orders are told to be closed than there were.
pub proof fn law_closed_orders_are_counted(s: Expiry, reply: Reply, out: ExpiryStep)
    requires
        s.wf(),
        expiry_step(s, reply, out),
    ensures
        out matches Step::Done { result: Ok(n) } ==> n <= (match s {
            Expiry::Marking { ids, at, expired } => ids@.len(),
            Expiry::Logging { ids, at, expired } => ids@.len(),
        }),
{
}

/// Every order of the list has its turn, in its order: the work goes to the next one once one
/// was logged, or was found not to be pending any more, and ends after the last one with the
/// number of those that were closed.
pub proof fn law_every_overdue_order_has_its_turn(s: Expiry, reply: Reply, out: ExpiryStep)
    requires
        s.wf(),
        expiry_step(s, reply, out),
        (s is Logging && reply is Done) || (s is Marking && reply == (Reply::Changed {
            changed: false,
        })),
    ensures
        ({
            let (ids, at, closed) = match s {
                Expiry::Marking { ids, at, expired } => (ids@, at as int, expired as int),
                Expiry::Logging { ids, at, expired } => (ids@, at as int, expired + 1),
            };
            &&& at + 1 < ids.len() ==> (out matches Step::Act {
                action: Action::MarkIfPending { order_id, status },
                next: Expiry::Marking { ids: i, at: a, expired: e },
            } && order_id@ == ids[at + 1]@ && status is Expired && a == at + 1 && e == closed
                && text::texts(i@) == text::texts(ids))
            &&& at + 1 == ids.len() ==> (out matches Step::Done { result: Ok(n) } && n == closed)
        }),
{
    let ids = match s {
        Expiry::Marking { ids, .. } => ids@,
        Expiry::Logging { ids, .. } => ids@,
    };
    assert(text::texts(ids).len() == ids.len());
}

/// The work begins with the first order of the list.
pub proof fn law_expiry_begins_with_the_first(orders: Seq<OrderRecord>, out: ExpiryStep)
    requires
        goes_on(out, ids_of(orders), 0, 0),
    ensures
        orders.len() == 0 ==> out == (ExpiryStep::Done { result: Ok(0usize) }),
        orders.len() > 0 ==> (out matches Step::Act {
            action: Action::MarkIfPending { order_id, status },
            next: Expiry::Marking { at, expired, .. },
        } && order_id@ == orders[0].id@ && status is Expired && at == 0 && expired == 0),
{
    assert(ids_of(orders).len() == orders.len());
}

/// Expiry goes on by steps, beginning with the first order that is overdue.
pub proof fn law_expiry_goes_on_by_steps(
    s: Expiry,
    reply: Reply,
    out: ExpiryStep,
    orders: Vec<OrderRecord>,
    first: ExpiryStep,
)
    requires
        call_ensures(Expiry::next, (s, reply), out),
        call_ensures(Expiry::start, (&orders,), first),
    ensures
        expiry_step(s, reply, out),
        goes_on(first, ids_of(orders@), 0, 0),
{
}

/// An order that is closed for its time is noted so.
pub proof fn law_expiry_is_noted(ids: Vec<String>, at: usize, expired: usize, out: ExpiryStep)
    requires
        expiry_step(
            Expiry::Marking { ids, at, expired },
            Reply::Changed { changed: true },
            out,
        ),
    ensures
        out matches Step::Act { action: Action::Audit { entry }, .. } && entry.order_id@
            == ids@[at as int]@ && entry.action@ == "ORDER_EXPIRED"@ && (
        entry.operator matches Some(o) && o@ == "timeout"@) && (entry.detail matches Some(d) && d@
            == "Order expired"@),
{
}

}
