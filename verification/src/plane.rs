//! Seat booking on a plane.

use vstd::prelude::*;

verus! {

/// Why a seat could not be booked or freed.
#[derive(Clone, Copy, Debug, PartialEq, Eq, Structural)]
pub enum BookingError {
    /// The seat is not in the state that the request needs: it is taken
    /// where a free seat is asked for, free where a booked seat is to be
    /// freed, or no seat is free at all.
    SeatUnavailable,
    /// The plane has no seat with that number.
    InvalidSeat,
}

/// A booked seat.
#[derive(Clone, Debug)]
pub struct Seat {
    passenger: String,
}

/// A plane with numbered seats, each of them free or booked for one
/// passenger.
#[derive(Clone, Debug)]
pub struct Plane {
    seats: Vec<Option<Seat>>,
}

/// The passenger of a seat, if it is booked.
pub open spec fn passenger_of(seat: Option<Seat>) -> Option<Seq<char>> {
    match seat {
        Some(seat) => Some(seat.passenger()),
        None => None,
    }
}

/// The number of the first free seat in `seats`, or the number of seats if
/// none is free.
pub open spec fn first_free(seats: Seq<Option<Seq<char>>>) -> int
    decreases seats.len(),
{
    if seats.len() == 0 {
        0
    } else if seats[0] is None {
        0
    } else {
        1 + first_free(seats.skip(1))
    }
}

impl Seat {
    /// The name of the passenger.
    pub closed spec fn passenger(&self) -> Seq<char> {
        self.passenger@
    }
}

impl View for Plane {
    type V = Seq<Option<Seq<char>>>;

    /// For each seat, by its number, the name of its passenger if it is
    /// booked.
    closed spec fn view(&self) -> Seq<Option<Seq<char>>> {
        Seq::new(self.seats@.len(), |i: int| passenger_of(self.seats@[i]))
    }
}

impl Plane {
    /// A plane with `seat_count` seats, all of them free.
    pub fn new(seat_count: usize) -> (plane: Plane)
        ensures
            plane@ == Seq::new(seat_count as nat, |i: int| None::<Seq<char>>),
    {
        let mut seats: Vec<Option<Seat>> = Vec::new();
        let mut i: usize = 0;
        while i < seat_count
            invariant
                i <= seat_count,
                seats@.len() == i,
                forall|j: int| 0 <= j < i ==> seats@[j] is None,
            decreases seat_count - i,
        {
            seats.push(None);
            i = i + 1;
        }
        Plane { seats }
    }

    /// How many seats the plane has.
    pub fn seat_count(&self) -> (count: usize)
        ensures
            count == self@.len(),
    {
        self.seats.len()
    }

    /// The name of the passenger in seat `index`, if the plane has such a
    /// seat and it is booked.
    pub fn passenger(&self, index: usize) -> (name: Option<&str>)
        ensures
            match name {
                Some(name) => index < self@.len() && self@[index as int] == Some(name@),
                None => index >= self@.len() || self@[index as int] is None,
            },
    {
        if index >= self.seats.len() {
            return None;
        }
        match &self.seats[index] {
            Some(seat) => Some(seat.passenger.as_str()),
            None => None,
        }
    }

    /// Books seat `index` for `name`.
    ///
    /// Fails with `InvalidSeat` if the plane has no such seat and with
    /// `SeatUnavailable` if the seat is taken; a failure changes nothing.
    pub fn book_seat(&mut self, index: usize, name: &str) -> (result: Result<(), BookingError>)
        ensures
            result == (if index >= old(self)@.len() {
                Err(BookingError::InvalidSeat)
            } else if old(self)@[index as int] is Some {
                Err(BookingError::SeatUnavailable)
            } else {
                Ok(())
            }),
            final(self)@ == (if result is Ok {
                old(self)@.update(index as int, Some(name@))
            } else {
                old(self)@
            }),
    {
        if index >= self.seats.len() {
            return Err(BookingError::InvalidSeat);
        }
        if self.seats[index].is_some() {
            return Err(BookingError::SeatUnavailable);
        }
        self.seats[index] = Some(Seat { passenger: name.to_owned() });
        Ok(())
    }

    /// Frees seat `index`.
    ///
    /// Fails with `InvalidSeat` if the plane has no such seat and with
    /// `SeatUnavailable` if the seat is free already; a failure changes
    /// nothing.
    pub fn free_seat(&mut self, index: usize) -> (result: Result<(), BookingError>)
        ensures
            result == (if index >= old(self)@.len() {
                Err(BookingError::InvalidSeat)
            } else if old(self)@[index as int] is None {
                Err(BookingError::SeatUnavailable)
            } else {
                Ok(())
            }),
            final(self)@ == (if result is Ok {
                old(self)@.update(index as int, None)
            } else {
                old(self)@
            }),
    {
        if index >= self.seats.len() {
            return Err(BookingError::InvalidSeat);
        }
        if self.seats[index].is_none() {
            return Err(BookingError::SeatUnavailable);
        }
        self.seats[index] = None;
        Ok(())
    }

    /// Books the free seat with the lowest number for `name` and returns
    /// that number.
    ///
    /// Fails with `SeatUnavailable` if every seat is taken; the plane is
    /// then unchanged.
    pub fn auto_book(&mut self, name: &str) -> (result: Result<usize, BookingError>)
        ensures
            result == (if first_free(old(self)@) < old(self)@.len() {
                Ok(first_free(old(self)@) as usize)
            } else {
                Err(BookingError::SeatUnavailable)
            }),
            final(self)@ == (if result is Ok {
                old(self)@.update(first_free(old(self)@), Some(name@))
            } else {
                old(self)@
            }),
    {
        let mut i: usize = 0;
        while i < self.seats.len()
            invariant
                i <= self.seats@.len(),
                self@ == old(self)@,
                self@.len() == self.seats@.len(),
                forall|j: int| 0 <= j < i ==> self@[j] is Some,
            decreases self.seats@.len() - i,
        {
            if self.seats[i].is_none() {
                proof {
                    lemma_first_free(self@, i as int);
                }
                self.seats[i] = Some(Seat { passenger: name.to_owned() });
                return Ok(i);
            }
            i = i + 1;
        }
        proof {
            lemma_first_free(self@, self@.len() as int);
        }
        Err(BookingError::SeatUnavailable)
    }
}

/// If the seats before `i` are all taken, and seat `i` is free or there is
/// no seat `i`, then `i` is the first free seat.
pub proof fn lemma_first_free(seats: Seq<Option<Seq<char>>>, i: int)
    requires
        0 <= i <= seats.len(),
        forall|j: int| 0 <= j < i ==> seats[j] is Some,
        i < seats.len() ==> seats[i] is None,
    ensures
        first_free(seats) == i,
    decreases seats.len(),
{
    if seats.len() > 0 && i > 0 {
        lemma_first_free(seats.skip(1), i - 1);
    }
}

} // verus!
