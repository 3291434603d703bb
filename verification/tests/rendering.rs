use ticket_service::json::render_greeting;
use ticket_service::json::render_ticket;
use ticket_service::json::render_tickets;
use ticket_service::json::u64_to_decimal;
use ticket_service::strutil::str_eq;
use ticket_service::ticket::fixed_tickets;
use ticket_service::ticket::Ticket;

#[test]
fn decimal_of_small_numbers() {
    assert_eq!(u64_to_decimal(0), "0");
    assert_eq!(u64_to_decimal(7), "7");
    assert_eq!(u64_to_decimal(10), "10");
    assert_eq!(u64_to_decimal(999), "999");
}

#[test]
fn decimal_of_large_numbers() {
    assert_eq!(u64_to_decimal(1234567890), "1234567890");
    assert_eq!(u64_to_decimal(u64::MAX), "18446744073709551615");
}

#[test]
fn greeting_renders_exactly() {
    assert_eq!(render_greeting(), "{\"msg\":\"hello there!\"}");
}

#[test]
fn one_ticket_renders_exactly() {
    let t = Ticket {
        number: 42,
        first_name: String::from("Samwise"),
        last_name: String::from("Gamgee"),
        entered: true,
    };
    assert_eq!(
        render_ticket(&t),
        "{\"number\":42,\"firstName\":\"Samwise\",\"lastName\":\"Gamgee\",\"entered\":true}"
    );
}

#[test]
fn empty_ticket_list_renders_empty_array() {
    let ts: Vec<Ticket> = Vec::new();
    assert_eq!(render_tickets(&ts), "{\"tickets\":[]}");
}

#[test]
fn single_ticket_list_has_no_comma() {
    let ts = vec![Ticket {
        number: 1,
        first_name: String::from("Tom"),
        last_name: String::from("Bombadil"),
        entered: false,
    }];
    assert_eq!(
        render_tickets(&ts),
        "{\"tickets\":[{\"number\":1,\"firstName\":\"Tom\",\"lastName\":\"Bombadil\",\"entered\":false}]}"
    );
}

#[test]
fn fixed_tickets_hold_the_served_records() {
    let ts = fixed_tickets();
    assert_eq!(ts.len(), 3);
    assert_eq!(ts[0].number, 1);
    assert_eq!(ts[0].first_name, "Bilbo");
    assert_eq!(ts[0].last_name, "Baggins");
    assert!(ts[0].entered);
    assert_eq!(ts[1].number, 2);
    assert_eq!(ts[1].first_name, "Gandalf");
    assert_eq!(ts[1].last_name, "Mithrandir");
    assert!(!ts[1].entered);
    assert_eq!(ts[2].number, 3);
    assert_eq!(ts[2].first_name, "Frodo");
    assert_eq!(ts[2].last_name, "Baggins");
    assert!(!ts[2].entered);
}

#[test]
fn str_eq_agrees_with_equality() {
    assert!(str_eq("", ""));
    assert!(str_eq("GET", "GET"));
    assert!(!str_eq("GET", "PUT"));
    assert!(!str_eq("GET", "GE"));
    assert!(!str_eq("/", "/tickets"));
    assert!(str_eq("naïve", "naïve"));
    assert!(!str_eq("naïve", "naive"));
}
