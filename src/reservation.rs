use vstd::prelude::*;

use crate::page::{Page, PageError};

verus! {

/// Length of the pickup window of a package reservation, in seconds.
pub const RESERVATION_WINDOW_SECONDS: i64 = 1800;

/// Latest representable moment, 9999-12-31 23:59:59 UTC, in seconds since
/// the Unix epoch. Moments are whole seconds since the epoch, UTC.
pub const MAX_DATE_TIME: i64 = 253402300799;

/// A fixed-point decimal, `mantissa * 10^-scale`: prices are exact.
#[derive(Clone, Copy, Debug, PartialEq, Eq, Structural)]
pub struct Price {
    pub mantissa: i128,
    pub scale: u32,
}

/// How a stock record counts a medication.
#[derive(Clone, Copy, Debug, PartialEq, Eq, Structural)]
pub enum QuantityType {
    Package,
    Unknown,
}

/// The stock of one medication at one apothecary: counted packages, or not
/// tracked at all.
#[derive(Clone, Copy, Debug, PartialEq, Eq, Structural)]
pub enum Stock {
    Package { quantity: u64, price: Price },
    Unknown { price: Price },
}

/// A stock record, keyed by apothecary and medication.
#[derive(Clone, Copy, Debug, PartialEq, Eq, Structural)]
pub struct StockEntry {
    pub apothecary_id: u128,
    pub medication_id: u128,
    pub stock: Stock,
}

#[derive(Clone, Copy, Debug, PartialEq, Eq, Structural)]
pub struct MedicationQuantityPackage {
    pub quantity: u64,
    pub price: Price,
}

#[derive(Clone, Copy, Debug, PartialEq, Eq, Structural)]
pub struct MedicationQuantityUnknown;

/// A quantity as a client states it. A liquid amount is a measure that the
/// core never reads; only its kind matters here.
#[derive(Clone, Copy, Debug, PartialEq, Eq, Structural)]
pub enum MedicationQuantity {
    Liquid,
    Package(MedicationQuantityPackage),
    Unknown(MedicationQuantityUnknown),
}

/// Lifecycle state of a reservation as it is stored.
#[derive(Clone, Copy, Debug, PartialEq, Eq, Structural)]
pub enum ReservationStatus {
    Active,
    Pending,
    Rejected,
    Done,
}

/// State of a reservation as it is shown: the stored state, or `Expired`
/// once the pickup window has closed.
#[derive(Clone, Copy, Debug, PartialEq, Eq, Structural)]
pub enum MedicationReservationStatus {
    Active,
    Pending,
    Rejected,
    Done,
    Expired,
}

#[derive(Clone, Copy, Debug, PartialEq, Eq, Structural)]
pub struct MedicationReservationRequest {
    pub apothecary_id: u128,
    pub medication_id: u128,
    pub quantity: MedicationQuantity,
    pub start_date_time: i64,
}

/// A stored reservation.
#[derive(Clone, Copy, Debug, PartialEq, Eq, Structural)]
pub struct Reservation {
    pub id: u128,
    pub apothecary_id: u128,
    pub medication_id: u128,
    pub user_id: u128,
    pub quantity_type: QuantityType,
    pub quantity: Option<u64>,
    pub price: Price,
    pub status: ReservationStatus,
    pub start_date_time: Option<i64>,
    pub end_date_time: Option<i64>,
}

#[derive(Clone, Copy, Debug, PartialEq, Eq, Structural)]
pub enum ReservationServiceError {
    UserNotFound,
    MedicationNotFound,
    NotEnoughAvailable,
    ReservationNotFound,
    /// A fault of the core's own data, such as a moment out of range.
    Internal,
}

/// The shown state: `Expired` once the end of the window lies before `now`,
/// whatever was stored; the stored state otherwise.
pub open spec fn presented(status: ReservationStatus, end: Option<i64>, now: i64) -> MedicationReservationStatus {
    if end is Some && end->0 < now {
        MedicationReservationStatus::Expired
    } else {
        stored_as_presented(status)
    }
}

pub open spec fn stored_as_presented(status: ReservationStatus) -> MedicationReservationStatus {
    match status {
        ReservationStatus::Active => MedicationReservationStatus::Active,
        ReservationStatus::Pending => MedicationReservationStatus::Pending,
        ReservationStatus::Rejected => MedicationReservationStatus::Rejected,
        ReservationStatus::Done => MedicationReservationStatus::Done,
    }
}

/// Outcome of a reservation request against the stock record found for it
/// (`None`: no record): the new reservation and the stock record as it must
/// be written back.
pub open spec fn reserve_spec(
    stock: Option<StockEntry>,
    user_id: u128,
    request: MedicationReservationRequest,
    id: u128,
) -> Result<(Reservation, StockEntry), ReservationServiceError> {
    match stock {
        None => Err(ReservationServiceError::MedicationNotFound),
        Some(entry) => match (request.quantity, entry.stock) {
            (MedicationQuantity::Package(p), Stock::Package { quantity, price }) => {
                if p.quantity > quantity {
                    Err(ReservationServiceError::NotEnoughAvailable)
                } else if request.start_date_time > MAX_DATE_TIME - RESERVATION_WINDOW_SECONDS {
                    Err(ReservationServiceError::Internal)
                } else {
                    Ok(
                        (
                            Reservation {
                                id,
                                apothecary_id: request.apothecary_id,
                                medication_id: request.medication_id,
                                user_id,
                                quantity_type: QuantityType::Package,
                                quantity: Some(p.quantity),
                                price,
                                status: ReservationStatus::Active,
                                start_date_time: Some(request.start_date_time),
                                end_date_time: Some(
                                    (request.start_date_time + RESERVATION_WINDOW_SECONDS) as i64,
                                ),
                            },
                            StockEntry {
                                stock: Stock::Package { quantity: (quantity - p.quantity) as u64, price },
                                ..entry
                            },
                        ),
                    )
                }
            },
            (MedicationQuantity::Package(p), Stock::Unknown { price }) => Ok(
                (
                    Reservation {
                        id,
                        apothecary_id: request.apothecary_id,
                        medication_id: request.medication_id,
                        user_id,
                        quantity_type: QuantityType::Unknown,
                        quantity: Some(p.quantity),
                        price,
                        status: ReservationStatus::Pending,
                        start_date_time: None,
                        end_date_time: None,
                    },
                    entry,
                ),
            ),
            _ => Err(ReservationServiceError::NotEnoughAvailable),
        },
    }
}

impl From<PageError> for ReservationServiceError {
    fn from(_err: PageError) -> (r: ReservationServiceError) {
        ReservationServiceError::Internal
    }
}

impl vstd::std_specs::convert::FromSpecImpl<PageError> for ReservationServiceError {
    open spec fn obeys_from_spec() -> bool {
        true
    }

    open spec fn from_spec(err: PageError) -> ReservationServiceError {
        ReservationServiceError::Internal
    }
}

impl ReservationServiceError {
    /// Status code and message of the response to this error. Refusals are
    /// answered as not found; an internal fault has an empty message.
    pub fn response(&self) -> (r: (u16, String))
        ensures
            match *self {
                ReservationServiceError::UserNotFound => r.0 == 404 && r.1@ == "User not found"@,
                ReservationServiceError::MedicationNotFound => r.0 == 404 && r.1@
                    == "Medication not found"@,
                ReservationServiceError::NotEnoughAvailable => r.0 == 404 && r.1@
                    == "Not enough available"@,
                ReservationServiceError::ReservationNotFound => r.0 == 404 && r.1@
                    == "Reservation not found"@,
                ReservationServiceError::Internal => r.0 == 500 && r.1@.len() == 0,
            },
    {
        match self {
            ReservationServiceError::UserNotFound => (404, String::from_str("User not found")),
            ReservationServiceError::MedicationNotFound => (
                404,
                String::from_str("Medication not found"),
            ),
            ReservationServiceError::NotEnoughAvailable => (
                404,
                String::from_str("Not enough available"),
            ),
            ReservationServiceError::ReservationNotFound => (
                404,
                String::from_str("Reservation not found"),
            ),
            ReservationServiceError::Internal => (500, String::new()),
        }
    }
}

impl ReservationStatus {
    /// The word under which clients see this state.
    pub fn as_text(&self) -> (r: &'static str)
        ensures
            r@ == match *self {
                ReservationStatus::Active => "active"@,
                ReservationStatus::Pending => "pending"@,
                ReservationStatus::Rejected => "rejected"@,
                ReservationStatus::Done => "done"@,
            },
    {
        match self {
            ReservationStatus::Active => "active",
            ReservationStatus::Pending => "pending",
            ReservationStatus::Rejected => "rejected",
            ReservationStatus::Done => "done",
        }
    }
}

impl QuantityType {
    /// The word under which clients see this kind of quantity.
    pub fn as_text(&self) -> (r: &'static str)
        ensures
            r@ == match *self {
                QuantityType::Package => "package"@,
                QuantityType::Unknown => "unknown"@,
            },
    {
        match self {
            QuantityType::Package => "package",
            QuantityType::Unknown => "unknown",
        }
    }
}

/// Position of the first stock record of apothecary `a` for medication `m`.
pub open spec fn stock_index(entries: Seq<StockEntry>, a: u128, m: u128) -> Option<int>
    decreases entries.len(),
{
    if entries.len() == 0 {
        None
    } else {
        match stock_index(entries.drop_last(), a, m) {
            Some(j) => Some(j),
            None => if entries.last().apothecary_id == a && entries.last().medication_id == m {
                Some(entries.len() - 1)
            } else {
                None
            },
        }
    }
}

proof fn lemma_stock_index_prefix(entries: Seq<StockEntry>, a: u128, m: u128, k: int)
    requires
        0 < k <= entries.len(),
        stock_index(entries.take(k), a, m) == Some(k - 1),
    ensures
        stock_index(entries, a, m) == Some(k - 1),
    decreases entries.len(),
{
    if k < entries.len() {
        assert(entries.drop_last().take(k) =~= entries.take(k));
        lemma_stock_index_prefix(entries.drop_last(), a, m, k);
    } else {
        assert(entries.take(k) =~= entries);
    }
}

/// The stock record of apothecary `a` for medication `m`, if there is one.
pub fn find_stock(entries: &Vec<StockEntry>, a: u128, m: u128) -> (r: Option<StockEntry>)
    ensures
        match stock_index(entries@, a, m) {
            Some(j) => r == Some(entries@[j]),
            None => r is None,
        },
{
    let mut j: usize = 0;
    while j < entries.len()
        invariant
            j <= entries.len(),
            stock_index(entries@.take(j as int), a, m) is None,
        decreases entries.len() - j,
    {
        proof {
            assert(entries@.take(j + 1).drop_last() =~= entries@.take(j as int));
        }
        if entries[j].apothecary_id == a && entries[j].medication_id == m {
            proof {
                lemma_stock_index_prefix(entries@, a, m, (j + 1) as int);
            }
            return Some(entries[j]);
        }
        j = j + 1;
    }
    proof {
        assert(entries@.take(j as int) =~= entries@);
    }
    None
}

pub open spec fn quantity_of(e: StockEntry) -> MedicationQuantity {
    match e.stock {
        Stock::Package { quantity, price } => MedicationQuantity::Package(
            MedicationQuantityPackage { quantity, price },
        ),
        Stock::Unknown { .. } => MedicationQuantity::Unknown(MedicationQuantityUnknown),
    }
}

impl StockEntry {
    /// The quantity that this record offers, as clients see it.
    pub fn quantity(&self) -> (r: MedicationQuantity)
        ensures
            r == quantity_of(*self),
    {
        match self.stock {
            Stock::Package { quantity, price } => MedicationQuantity::Package(
                MedicationQuantityPackage { quantity, price },
            ),
            Stock::Unknown { .. } => MedicationQuantity::Unknown(MedicationQuantityUnknown),
        }
    }
}

impl Reservation {
    /// A package reservation records how many packages it holds.
    pub open spec fn wf(&self) -> bool {
        self.quantity_type == QuantityType::Package ==> self.quantity is Some
    }

    /// The quantity that this reservation holds, as clients see it.
    pub fn requested_quantity(&self) -> (r: MedicationQuantity)
        requires
            self.wf(),
        ensures
            r == match self.quantity_type {
                QuantityType::Package => MedicationQuantity::Package(
                    MedicationQuantityPackage { quantity: self.quantity->0, price: self.price },
                ),
                QuantityType::Unknown => MedicationQuantity::Unknown(MedicationQuantityUnknown),
            },
    {
        match self.quantity_type {
            QuantityType::Package => {
                let quantity = match self.quantity {
                    Some(q) => q,
                    None => 0,
                };
                MedicationQuantity::Package(MedicationQuantityPackage { quantity, price: self.price })
            },
            QuantityType::Unknown => MedicationQuantity::Unknown(MedicationQuantityUnknown),
        }
    }

    /// The state to show for this reservation at moment `now`.
    pub fn presented_status(&self, now: i64) -> (r: MedicationReservationStatus)
        ensures
            r == presented(self.status, self.end_date_time, now),
    {
        match self.end_date_time {
            Some(end) => {
                if end < now {
                    return MedicationReservationStatus::Expired;
                }
            },
            None => {},
        }
        match self.status {
            ReservationStatus::Active => MedicationReservationStatus::Active,
            ReservationStatus::Pending => MedicationReservationStatus::Pending,
            ReservationStatus::Rejected => MedicationReservationStatus::Rejected,
            ReservationStatus::Done => MedicationReservationStatus::Done,
        }
    }
}

/// Decides a reservation request against the stock record found for its
/// apothecary and medication. A package request against package stock takes
/// the packages out of the stock and opens a pickup window of thirty minutes
/// from the requested start; against untracked stock it waits, pending, for
/// a manual decision. Any other pairing is refused as unavailable. The check
/// and the decrement happen together: the caller writes the returned stock
/// record back in the same atomic step in which it read it.
pub fn reserve(
    stock: Option<StockEntry>,
    user_id: u128,
    request: &MedicationReservationRequest,
    id: u128,
) -> (r: Result<(Reservation, StockEntry), ReservationServiceError>)
    ensures
        r == reserve_spec(stock, user_id, *request, id),
        r matches Ok(v) ==> v.0.wf(),
{
    let entry = match stock {
        None => return Err(ReservationServiceError::MedicationNotFound),
        Some(e) => e,
    };
    match (request.quantity, entry.stock) {
        (MedicationQuantity::Package(p), Stock::Package { quantity, price }) => {
            if p.quantity > quantity {
                return Err(ReservationServiceError::NotEnoughAvailable);
            }
            if request.start_date_time > MAX_DATE_TIME - RESERVATION_WINDOW_SECONDS {
                return Err(ReservationServiceError::Internal);
            }
            let reservation = Reservation {
                id,
                apothecary_id: request.apothecary_id,
                medication_id: request.medication_id,
                user_id,
                quantity_type: QuantityType::Package,
                quantity: Some(p.quantity),
                price,
                status: ReservationStatus::Active,
                start_date_time: Some(request.start_date_time),
                end_date_time: Some(request.start_date_time + RESERVATION_WINDOW_SECONDS),
            };
            let remaining = StockEntry {
                apothecary_id: entry.apothecary_id,
                medication_id: entry.medication_id,
                stock: Stock::Package { quantity: quantity - p.quantity, price },
            };
            Ok((reservation, remaining))
        },
        (MedicationQuantity::Package(p), Stock::Unknown { price }) => {
            let reservation = Reservation {
                id,
                apothecary_id: request.apothecary_id,
                medication_id: request.medication_id,
                user_id,
                quantity_type: QuantityType::Unknown,
                quantity: Some(p.quantity),
                price,
                status: ReservationStatus::Pending,
                start_date_time: None,
                end_date_time: None,
            };
            Ok((reservation, entry))
        },
        _ => Err(ReservationServiceError::NotEnoughAvailable),
    }
}

/// Two reservations that both succeed, one after the other, against one
/// package stock record never take more packages than it held: a request
/// only passes against the stock that the requests before it left.
pub proof fn lemma_reservations_never_overcommit(
    entry: StockEntry,
    user_a: u128,
    request_a: MedicationReservationRequest,
    id_a: u128,
    user_b: u128,
    request_b: MedicationReservationRequest,
    id_b: u128,
)
    requires
        entry.stock is Package,
        reserve_spec(Some(entry), user_a, request_a, id_a) is Ok,
        reserve_spec(Some(reserve_spec(Some(entry), user_a, request_a, id_a)->Ok_0.1), user_b, request_b, id_b) is Ok,
    ensures
        request_a.quantity is Package,
        request_b.quantity is Package,
        request_a.quantity->Package_0.quantity + request_b.quantity->Package_0.quantity
            <= entry.stock->Package_quantity,
{
}

/// A stock record still holds every package that a successful request did
/// not take.
pub proof fn lemma_reserve_takes_requested(
    entry: StockEntry,
    user_id: u128,
    request: MedicationReservationRequest,
    id: u128,
)
    requires
        entry.stock is Package,
        reserve_spec(Some(entry), user_id, request, id) is Ok,
    ensures
        ({
            let after = reserve_spec(Some(entry), user_id, request, id)->Ok_0.1;
            &&& after.stock is Package
            &&& after.stock->Package_quantity + request.quantity->Package_0.quantity
                == entry.stock->Package_quantity
            &&& after.apothecary_id == entry.apothecary_id
            &&& after.medication_id == entry.medication_id
        }),
{
}

/// Checks that a reservation found by its id may be deleted by `user_id`:
/// it must exist and belong to that user.
pub fn check_delete(found: Option<Reservation>, user_id: u128) -> (r: Result<
    Reservation,
    ReservationServiceError,
>)
    ensures
        match found {
            Some(f) => if f.user_id == user_id {
                r == Ok::<Reservation, ReservationServiceError>(f)
            } else {
                r == Err::<Reservation, _>(ReservationServiceError::ReservationNotFound)
            },
            None => r == Err::<Reservation, _>(ReservationServiceError::ReservationNotFound),
        },
{
    match found {
        Some(f) => {
            if f.user_id == user_id {
                Ok(f)
            } else {
                Err(ReservationServiceError::ReservationNotFound)
            }
        },
        None => Err(ReservationServiceError::ReservationNotFound),
    }
}

/// A user's reservations as one page, each with the state to show at `now`.
pub fn present(reservations: Vec<Reservation>, now: i64) -> (r: Page<
    (Reservation, MedicationReservationStatus),
>)
    ensures
        r.wf(),
        r.content.len() == reservations.len(),
        forall|i: int|
            0 <= i < reservations.len() ==> #[trigger] r.content[i] == (
                reservations[i],
                presented(reservations[i].status, reservations[i].end_date_time, now),
            ),
        r.total_elements == reservations.len(),
        r.total_pages == 1,
        r.first,
        r.last,
{
    let mut shown: Vec<(Reservation, MedicationReservationStatus)> = Vec::new();
    let mut i: usize = 0;
    while i < reservations.len()
        invariant
            i <= reservations.len(),
            shown.len() == i,
            forall|j: int|
                0 <= j < i ==> #[trigger] shown[j] == (
                    reservations[j],
                    presented(reservations[j].status, reservations[j].end_date_time, now),
                ),
        decreases reservations.len() - i,
    {
        let r = reservations[i];
        let s = r.presented_status(now);
        shown.push((r, s));
        i = i + 1;
    }
    Page::unpaged(shown)
}

/// Relies on `time::OffsetDateTime::now_utc` and `unix_timestamp`: the
/// current moment, in whole seconds since the Unix epoch. Nothing is promised
/// of its value.
#[verifier::external_body]
fn now_unix_seconds() -> (r: i64) {
    time::OffsetDateTime::now_utc().unix_timestamp()
}

/// A user's reservations as one page, each with the state to show now. What
/// the clock reads is not known in advance; whatever it reads, a reservation
/// without an end is shown in its stored state, and every other one in its
/// stored state or as expired.
pub fn present_now(reservations: Vec<Reservation>) -> (r: Page<(Reservation, MedicationReservationStatus)>)
    ensures
        r.wf(),
        r.content.len() == reservations.len(),
        forall|i: int|
            0 <= i < reservations.len() ==> {
                &&& (#[trigger] r.content[i]).0 == reservations[i]
                &&& r.content[i].1 == stored_as_presented(reservations[i].status)
                    || (reservations[i].end_date_time is Some && r.content[i].1
                    == MedicationReservationStatus::Expired)
            },
{
    let now = now_unix_seconds();
    present(reservations, now)
}

/// Relies on `uuid::Uuid::new_v4`: a random identifier for a new record, as
/// its 128 bits. Nothing is promised of its value.
#[verifier::external_body]
fn fresh_id() -> (r: u128) {
    uuid::Uuid::new_v4().as_u128()
}

/// Decides a reservation request, as `reserve` does, under a freshly drawn
/// identifier for the new reservation.
pub fn reserve_new(stock: Option<StockEntry>, user_id: u128, request: &MedicationReservationRequest) -> (r: Result<
    (Reservation, StockEntry),
    ReservationServiceError,
>)
    ensures
        r matches Ok(v) ==> reserve_spec(stock, user_id, *request, v.0.id) == r,
        r matches Err(e) ==> forall|id: u128| reserve_spec(stock, user_id, *request, id) == r,
{
    let id = fresh_id();
    reserve(stock, user_id, request, id)
}

} // verus!
