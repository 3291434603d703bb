//! The ticket records the service hands out.
//!
//! The data is fixed for the life of the process: three tickets, numbered 1
//! to 3 in ascending order, each with a first name, a last name and an
//! entry flag. `fixed_tickets` builds exactly that sequence, and the lemmas
//! below state its invariants: the numbering is consecutive from 1, hence
//! positive, unique and ascending.

use vstd::prelude::*;
use vstd::string::StringExecFns;

verus! {

/// One ticket record.
pub struct Ticket {
    pub number: u64,
    pub first_name: String,
    pub last_name: String,
    pub entered: bool,
}

/// The mathematical image of a ticket: its number as an integer and its
/// names as character sequences.
pub ghost struct TicketView {
    pub number: int,
    pub first_name: Seq<char>,
    pub last_name: Seq<char>,
    pub entered: bool,
}

impl View for Ticket {
    type V = TicketView;

    open spec fn view(&self) -> TicketView {
        TicketView {
            number: self.number as int,
            first_name: self.first_name@,
            last_name: self.last_name@,
            entered: self.entered,
        }
    }
}

/// The ticket list served by the process, as a value.
pub open spec fn fixed_tickets_view() -> Seq<TicketView> {
    seq![
        TicketView { number: 1, first_name: "Bilbo"@, last_name: "Baggins"@, entered: true },
        TicketView { number: 2, first_name: "Gandalf"@, last_name: "Mithrandir"@, entered: false },
        TicketView { number: 3, first_name: "Frodo"@, last_name: "Baggins"@, entered: false },
    ]
}

/// The views of a sequence of tickets.
pub open spec fn views_of(ts: Seq<Ticket>) -> Seq<TicketView> {
    ts.map_values(|t: Ticket| t@)
}

/// Builds the fixed ticket list.
pub fn fixed_tickets() -> (r: Vec<Ticket>)
    ensures
        views_of(r@) == fixed_tickets_view(),
{
    let mut r: Vec<Ticket> = Vec::new();
    r.push(Ticket {
        number: 1,
        first_name: String::from_str("Bilbo"),
        last_name: String::from_str("Baggins"),
        entered: true,
    });
    r.push(Ticket {
        number: 2,
        first_name: String::from_str("Gandalf"),
        last_name: String::from_str("Mithrandir"),
        entered: false,
    });
    r.push(Ticket {
        number: 3,
        first_name: String::from_str("Frodo"),
        last_name: String::from_str("Baggins"),
        entered: false,
    });
    proof {
        assert(views_of(r@) =~= fixed_tickets_view());
    }
    r
}

/// The fixed list numbers its tickets consecutively from 1; in particular
/// every number is positive, they are mutually distinct, and they ascend
/// in list order.
pub proof fn lemma_fixed_ticket_numbers()
    ensures
        fixed_tickets_view().len() == 3,
        forall|i: int|
            0 <= i < fixed_tickets_view().len() ==> #[trigger] fixed_tickets_view()[i].number == i
                + 1,
        forall|i: int| 0 <= i < fixed_tickets_view().len() ==> fixed_tickets_view()[i].number > 0,
        forall|i: int, j: int|
            0 <= i < j < fixed_tickets_view().len() ==> fixed_tickets_view()[i].number
                < fixed_tickets_view()[j].number,
{
    assert forall|i: int| 0 <= i < fixed_tickets_view().len() implies #[trigger] fixed_tickets_view()[i].number
        == i + 1 by {
        if i == 0 {
        } else if i == 1 {
        } else {
            assert(i == 2);
        }
    }
}

} // verus!
