use coin_price::resolver::{is_listed, known_tokens, Action, Phase, Resolver};

type Table = Vec<(String, Vec<(String, u64)>)>;

fn quote(token: &str, usd: u64) -> Table {
    vec![(token.to_string(), vec![("usd".to_string(), usd)])]
}

fn is_query(a: &Action<String>, token: &str) -> bool {
    matches!(a, Action::Query(t) if t == token)
}

#[test]
fn known_list_contents() {
    let known = known_tokens();
    assert_eq!(known, vec!["ethereum", "bitcoin", "solana", "dogecoin", "avalanche-2"]);
    assert!(is_listed("solana", &known));
    assert!(!is_listed("doge", &known));
}

#[test]
fn listed_token_goes_to_query() {
    let known = known_tokens();
    for t in ["ethereum", "bitcoin", "solana", "dogecoin", "avalanche-2"] {
        let (r, a) = Resolver::start(t, &known);
        assert!(is_query(&a, t));
        assert_eq!(r.phase, Phase::Querying);
        assert!(!r.forced);
    }
}

#[test]
fn unlisted_token_declined() {
    let known = known_tokens();
    let (mut r, a) = Resolver::start("doge", &known);
    assert!(matches!(a, Action::Confirm(ref t) if t == "doge"));
    let a = r.on_answer("n\n");
    assert!(matches!(a, Action::Abort));
    assert_eq!(r.phase, Phase::Done);
    assert!(matches!(r.on_response(&quote("doge", 1)), Action::Idle));
    assert!(matches!(r.on_answer("y"), Action::Idle));
    assert!(matches!(r.on_new_token("bitcoin", &known), Action::Idle));
}

#[test]
fn doge_then_dogecoin_scenario() {
    let known = known_tokens();
    let (mut r, a) = Resolver::start("doge", &known);
    assert!(matches!(a, Action::Confirm(ref t) if t == "doge"));
    let a = r.on_answer("y\n");
    assert!(is_query(&a, "doge"));
    assert!(r.forced);
    let a = r.on_response(&Vec::new());
    assert!(matches!(a, Action::Retry(ref t) if t == "doge"));
    assert_eq!(r.phase, Phase::AwaitingToken);
    let a = r.on_new_token("dogecoin\n", &known);
    assert!(is_query(&a, "dogecoin"));
    assert!(!r.forced);
    let a = r.on_response(&quote("dogecoin", 150));
    assert!(matches!(a, Action::Show(ref l) if l == ">> Dogecoin: 0.150 $"));
    assert_eq!(r.phase, Phase::Done);
}

#[test]
fn empty_input_reaches_invalid_token() {
    let known = known_tokens();
    let token = coin_price::text::normalize("\n");
    assert_eq!(token, "");
    let (mut r, a) = Resolver::start(&token, &known);
    assert!(matches!(a, Action::Confirm(ref t) if t.is_empty()));
    let a = r.on_answer("y");
    assert!(is_query(&a, ""));
    let a = r.on_response(&Vec::new());
    assert!(matches!(a, Action::Retry(ref t) if t.is_empty()));
}

#[test]
fn new_unlisted_token_is_prompted_again() {
    let known = known_tokens();
    let (mut r, _) = Resolver::start("bitcoin", &known);
    let a = r.on_response(&Vec::new());
    assert!(matches!(a, Action::Retry(_)));
    let a = r.on_new_token("  Doge ", &known);
    assert!(matches!(a, Action::Confirm(ref t) if t == "doge"));
    assert_eq!(r.phase, Phase::Confirming);
}

#[test]
fn response_without_usd_fails() {
    let known = known_tokens();
    let (mut r, _) = Resolver::start("bitcoin", &known);
    let t = vec![("bitcoin".to_string(), vec![("eur".to_string(), 5u64)])];
    assert!(matches!(r.on_response(&t), Action::Fail(ref s) if s == "bitcoin"));
    assert_eq!(r.phase, Phase::Done);
}

#[test]
fn events_out_of_phase_are_idle() {
    let known = known_tokens();
    let (mut r, _) = Resolver::start("bitcoin", &known);
    assert!(matches!(r.on_answer("y"), Action::Idle));
    assert!(matches!(r.on_new_token("solana", &known), Action::Idle));
    assert_eq!(r.phase, Phase::Querying);
    assert_eq!(r.token, "bitcoin");
}
