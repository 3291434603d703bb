//! JSON text of the service's responses, character-exact.
//!
//! Each body the service can send is pinned down by a spec function giving
//! its full character sequence: `greeting_json` for the root endpoint and
//! `tickets_json` for the ticket list. The executable renderers are proved
//! to return exactly those sequences, so a response body is a function of
//! the data alone.

use vstd::prelude::*;
use vstd::string::StrSliceExecFns;
use vstd::string::StringExecFns;

use crate::ticket::Ticket;
use crate::ticket::TicketView;
use crate::ticket::views_of;

verus! {

/// The decimal digit character for `d`, for `d < 10`.
pub open spec fn digit_char(d: nat) -> char {
    if d == 0 {
        '0'
    } else if d == 1 {
        '1'
    } else if d == 2 {
        '2'
    } else if d == 3 {
        '3'
    } else if d == 4 {
        '4'
    } else if d == 5 {
        '5'
    } else if d == 6 {
        '6'
    } else if d == 7 {
        '7'
    } else if d == 8 {
        '8'
    } else {
        '9'
    }
}

/// The decimal numeral of `n`: most significant digit first, no sign, no
/// leading zero except for `n == 0` itself.
pub open spec fn decimal_digits(n: nat) -> Seq<char>
    decreases n,
{
    if n < 10 {
        seq![digit_char(n)]
    } else {
        decimal_digits(n / 10).push(digit_char(n % 10))
    }
}

/// The JSON text of a boolean.
pub open spec fn bool_json(b: bool) -> Seq<char> {
    if b {
        "true"@
    } else {
        "false"@
    }
}

/// The JSON text of one ticket object, fields in declaration order.
pub open spec fn ticket_json(t: TicketView) -> Seq<char> {
    "{\"number\":"@ + decimal_digits(t.number as nat) + ",\"firstName\":\""@ + t.first_name
        + "\",\"lastName\":\""@ + t.last_name + "\",\"entered\":"@ + bool_json(t.entered) + "}"@
}

/// The comma-separated JSON texts of a sequence of tickets.
pub open spec fn tickets_items_json(ts: Seq<TicketView>) -> Seq<char>
    decreases ts.len(),
{
    if ts.len() == 0 {
        Seq::empty()
    } else if ts.len() == 1 {
        ticket_json(ts[0])
    } else {
        tickets_items_json(ts.drop_last()) + ","@ + ticket_json(ts.last())
    }
}

/// The JSON body of the ticket-list endpoint.
pub open spec fn tickets_json(ts: Seq<TicketView>) -> Seq<char> {
    "{\"tickets\":["@ + tickets_items_json(ts) + "]}"@
}

/// The JSON body of the root endpoint.
pub open spec fn greeting_json() -> Seq<char> {
    "{\"msg\":\"hello there!\"}"@
}

/// The one-character string for a decimal digit.
fn digit_str(d: u64) -> (r: &'static str)
    requires
        d < 10,
    ensures
        r@ == seq![digit_char(d as nat)],
{
    proof {
        reveal_strlit("0");
        reveal_strlit("1");
        reveal_strlit("2");
        reveal_strlit("3");
        reveal_strlit("4");
        reveal_strlit("5");
        reveal_strlit("6");
        reveal_strlit("7");
        reveal_strlit("8");
        reveal_strlit("9");
        assert("0"@ =~= seq!['0']);
        assert("1"@ =~= seq!['1']);
        assert("2"@ =~= seq!['2']);
        assert("3"@ =~= seq!['3']);
        assert("4"@ =~= seq!['4']);
        assert("5"@ =~= seq!['5']);
        assert("6"@ =~= seq!['6']);
        assert("7"@ =~= seq!['7']);
        assert("8"@ =~= seq!['8']);
        assert("9"@ =~= seq!['9']);
    }
    if d == 0 {
        "0"
    } else if d == 1 {
        "1"
    } else if d == 2 {
        "2"
    } else if d == 3 {
        "3"
    } else if d == 4 {
        "4"
    } else if d == 5 {
        "5"
    } else if d == 6 {
        "6"
    } else if d == 7 {
        "7"
    } else if d == 8 {
        "8"
    } else {
        "9"
    }
}

/// Writes `n` in decimal.
pub fn u64_to_decimal(n: u64) -> (r: String)
    ensures
        r@ == decimal_digits(n as nat),
    decreases n,
{
    if n < 10 {
        String::from_str(digit_str(n))
    } else {
        let mut s = u64_to_decimal(n / 10);
        s.append(digit_str(n % 10));
        proof {
            assert(decimal_digits((n / 10) as nat).push(digit_char((n % 10) as nat))
                =~= decimal_digits((n / 10) as nat) + seq![digit_char((n % 10) as nat)]);
        }
        s
    }
}

/// The literal text of a boolean.
fn bool_str(b: bool) -> (r: &'static str)
    ensures
        r@ == bool_json(b),
{
    if b {
        "true"
    } else {
        "false"
    }
}

/// Renders one ticket as a JSON object.
pub fn render_ticket(t: &Ticket) -> (r: String)
    ensures
        r@ == ticket_json(t@),
{
    let mut s = String::from_str("{\"number\":");
    let num = u64_to_decimal(t.number);
    s.append(num.as_str());
    s.append(",\"firstName\":\"");
    s.append(t.first_name.as_str());
    s.append("\",\"lastName\":\"");
    s.append(t.last_name.as_str());
    s.append("\",\"entered\":");
    s.append(bool_str(t.entered));
    s.append("}");
    proof {
        assert(s@ =~= ticket_json(t@));
    }
    s
}

/// Extending the rendered list by one ticket appends a comma (after the
/// first item) and that ticket's object.
proof fn lemma_items_extend(vs: Seq<TicketView>, i: int)
    requires
        0 <= i < vs.len(),
    ensures
        i == 0 ==> tickets_items_json(vs.take(1)) == ticket_json(vs[0]),
        i > 0 ==> tickets_items_json(vs.take(i + 1)) == tickets_items_json(vs.take(i)) + ","@
            + ticket_json(vs[i]),
{
    let u = vs.take(i + 1);
    if i == 0 {
        assert(u.len() == 1);
        assert(u[0] == vs[0]);
    } else {
        assert(u.drop_last() =~= vs.take(i));
        assert(u.last() == vs[i]);
    }
}

/// Renders the full ticket-list body.
pub fn render_tickets(ts: &Vec<Ticket>) -> (r: String)
    ensures
        r@ == tickets_json(views_of(ts@)),
{
    let ghost vs = views_of(ts@);
    let mut s = String::from_str("{\"tickets\":[");
    let mut i: usize = 0;
    while i < ts.len()
        invariant
            vs == views_of(ts@),
            vs.len() == ts@.len(),
            i <= ts@.len(),
            s@ == "{\"tickets\":["@ + tickets_items_json(vs.take(i as int)),
        decreases ts@.len() - i,
    {
        if i > 0 {
            s.append(",");
        }
        let item = render_ticket(&ts[i]);
        s.append(item.as_str());
        proof {
            assert(vs[i as int] == ts@[i as int]@);
            lemma_items_extend(vs, i as int);
        }
        i += 1;
    }
    proof {
        assert(vs.take(ts@.len() as int) =~= vs);
    }
    s.append("]}");
    proof {
        assert(s@ =~= tickets_json(views_of(ts@)));
    }
    s
}

/// Renders the root greeting body.
pub fn render_greeting() -> (r: String)
    ensures
        r@ == greeting_json(),
{
    String::from_str("{\"msg\":\"hello there!\"}")
}

} // verus!
