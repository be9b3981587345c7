//! Order status changes: the workflow check of a requested status and the
//! changes that the status update writes on the order.

use crate::error::RustCommerceError;
use crate::models::order::{
    spec_can_transition, spec_order_status_str, Order, OrderStatus, UpdateOrderStatusRequest,
};
use crate::time::Timestamp;
use vstd::prelude::*;

verus! {

/// Service for order business logic.
pub struct OrderService;

/// Which instant column a status update stamps.
#[derive(Clone, Copy, Debug, PartialEq, Eq, Structural)]
pub enum StatusStamp {
    NoStamp,
    ShippedAt,
    DeliveredAt,
    CancelledAt,
}

/// The column stamped on entering `s`.
pub open spec fn spec_status_stamp(s: OrderStatus) -> StatusStamp {
    match s {
        OrderStatus::Shipped => StatusStamp::ShippedAt,
        OrderStatus::Delivered => StatusStamp::DeliveredAt,
        OrderStatus::Cancelled => StatusStamp::CancelledAt,
        _ => StatusStamp::NoStamp,
    }
}

/// Whether an update to `s` records a tracking number: all but the updates
/// to `Delivered` and `Cancelled`.
pub open spec fn records_tracking(s: OrderStatus) -> bool {
    s != OrderStatus::Delivered && s != OrderStatus::Cancelled
}

/// A new value kept only when given (`COALESCE(new, old)`).
pub open spec fn coalesce(new: Option<String>, old: Option<String>) -> Option<String> {
    match new {
        Some(v) => Some(v),
        None => old,
    }
}

/// `Some(v)` of an optional text, taken by its characters.
pub open spec fn opt_chars(o: Option<String>) -> Option<Seq<char>> {
    match o {
        Some(s) => Some(s@),
        None => None,
    }
}

/// An accepted status change, as it is written on the order.
#[derive(Debug)]
pub struct StatusUpdate {
    pub status: OrderStatus,
    pub tracking_number: Option<String>,
    pub internal_notes: Option<String>,
    pub stamp: StatusStamp,
}

fn copy_opt(o: &Option<String>) -> (r: Option<String>)
    ensures
        opt_chars(r) == opt_chars(*o),
{
    match o {
        Some(s) => Some(s.clone()),
        None => None,
    }
}

impl OrderService {
    /// Checks a requested status change against the workflow and says what
    /// the update writes: the new status, the tracking number (not for
    /// `Delivered` or `Cancelled`), the internal notes, and which instant
    /// column it stamps.
    pub fn plan_status_update(current: OrderStatus, req: &UpdateOrderStatusRequest) -> (r: Result<
        StatusUpdate,
        RustCommerceError,
    >)
        ensures
            spec_can_transition(current, req.status) <==> r is Ok,
            r matches Ok(u) ==> {
                &&& u.status == req.status
                &&& u.stamp == spec_status_stamp(req.status)
                &&& opt_chars(u.internal_notes) == opt_chars(req.internal_notes)
                &&& records_tracking(req.status) ==> opt_chars(u.tracking_number) == opt_chars(
                    req.tracking_number,
                )
                &&& !records_tracking(req.status) ==> u.tracking_number is None
            },
            r matches Err(e) ==> (e matches RustCommerceError::InvalidStatusTransition { from, to }
                && from@ == spec_order_status_str(current) && to@ == spec_order_status_str(
                req.status,
            )),
    {
        let status = match current.transition_to(req.status) {
            Ok(s) => s,
            Err(e) => {
                return Err(e);
            },
        };
        let stamp = match status {
            OrderStatus::Shipped => StatusStamp::ShippedAt,
            OrderStatus::Delivered => StatusStamp::DeliveredAt,
            OrderStatus::Cancelled => StatusStamp::CancelledAt,
            _ => StatusStamp::NoStamp,
        };
        let tracking_number = match status {
            OrderStatus::Delivered | OrderStatus::Cancelled => None,
            _ => copy_opt(&req.tracking_number),
        };
        Ok(
            StatusUpdate {
                status,
                tracking_number,
                internal_notes: copy_opt(&req.internal_notes),
                stamp,
            },
        )
    }

    /// Writes an accepted update on the order at instant `now`: the status,
    /// the tracking number and notes where given (the old ones stay
    /// otherwise), and `now` in the stamped column; every other field is kept.
    pub fn apply_status_update(order: &mut Order, update: StatusUpdate, now: Timestamp)
        ensures
            *final(order) == (Order {
                status: update.status,
                tracking_number: coalesce(update.tracking_number, old(order).tracking_number),
                internal_notes: coalesce(update.internal_notes, old(order).internal_notes),
                shipped_at: if update.stamp == StatusStamp::ShippedAt {
                    Some(now)
                } else {
                    old(order).shipped_at
                },
                delivered_at: if update.stamp == StatusStamp::DeliveredAt {
                    Some(now)
                } else {
                    old(order).delivered_at
                },
                cancelled_at: if update.stamp == StatusStamp::CancelledAt {
                    Some(now)
                } else {
                    old(order).cancelled_at
                },
                ..*old(order)
            }),
    {
        order.status = update.status;
        if let Some(t) = update.tracking_number {
            order.tracking_number = Some(t);
        }
        if let Some(n) = update.internal_notes {
            order.internal_notes = Some(n);
        }
        match update.stamp {
            StatusStamp::ShippedAt => {
                order.shipped_at = Some(now);
            },
            StatusStamp::DeliveredAt => {
                order.delivered_at = Some(now);
            },
            StatusStamp::CancelledAt => {
                order.cancelled_at = Some(now);
            },
            StatusStamp::NoStamp => {},
        }
    }
}

} // verus!
