use aokiji::in_flight::InFlight;

#[test]
fn nothing_is_in_flight_at_first() {
    let in_flight = InFlight::new();
    assert!(!in_flight.holds("account.json"));
    assert!(!InFlight::default().holds(""));
}

#[test]
fn a_path_is_entered_once() {
    let in_flight = InFlight::new();
    let (in_flight, first) = in_flight.begin("account.json");
    assert!(first);
    assert!(in_flight.holds("account.json"));
    let (in_flight, second) = in_flight.begin("account.json");
    assert!(!second);
    assert!(in_flight.holds("account.json"));
}

#[test]
fn paths_do_not_stand_in_each_others_way() {
    let in_flight = InFlight::new();
    let (in_flight, a) = in_flight.begin("a.json");
    let (in_flight, b) = in_flight.begin("b.json");
    let (in_flight, c) = in_flight.begin("c.json");
    assert!(a && b && c);
    let in_flight = in_flight.end("b.json");
    assert!(in_flight.holds("a.json"));
    assert!(!in_flight.holds("b.json"));
    assert!(in_flight.holds("c.json"));
    let (in_flight, again) = in_flight.begin("b.json");
    assert!(again);
    let (_, blocked) = in_flight.begin("c.json");
    assert!(!blocked);
}

#[test]
fn ending_what_never_began_changes_nothing() {
    let in_flight = InFlight::new();
    let (in_flight, _) = in_flight.begin("a.json");
    let in_flight = in_flight.end("b.json");
    assert!(in_flight.holds("a.json"));
    assert!(!in_flight.holds("b.json"));
    let in_flight = in_flight.end("a.json");
    assert!(!in_flight.holds("a.json"));
    let in_flight = in_flight.end("a.json");
    assert!(!in_flight.holds("a.json"));
}
